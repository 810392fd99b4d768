use vstd::prelude::*;
use vstd::string::StringExecFns;

verus! {

/// Relies on `<str as PartialEq>::eq`: two string slices compare equal
/// exactly when they hold the same sequence of characters.
#[verifier::external_body]
pub fn str_eq(a: &str, b: &str) -> (r: bool)
    ensures
        r == (a@ == b@),
{
    a == b
}

/// Relies on `String::push`: appends the given character to the end of
/// the string and changes nothing else.
#[verifier::external_body]
pub fn push_char(s: &mut String, c: char)
    ensures
        final(s)@ == old(s)@ + seq![c],
{
    s.push(c);
}

/// Whether the character is a decimal digit
pub open spec fn digit_spec(c: char) -> bool {
    '0' as u32 <= c as u32 && c as u32 <= '9' as u32
}

/// The numeric value of a digit character
pub open spec fn digit_val(c: char) -> nat {
    if digit_spec(c) {
        (c as u32 - '0' as u32) as nat
    } else {
        0
    }
}

/// Whether every character of the text is a decimal digit
pub open spec fn all_digits(s: Seq<char>) -> bool {
    forall|i: int| 0 <= i < s.len() ==> digit_spec(#[trigger] s[i])
}

/// The number a string of decimal digits denotes
pub open spec fn digits_val(s: Seq<char>) -> nat
    decreases s.len(),
{
    if s.len() == 0 {
        0
    } else {
        digits_val(s.drop_last()) * 10 + digit_val(s.last())
    }
}

/// A longer run of digits never denotes a smaller number
proof fn lemma_digits_val_mono(s: Seq<char>, i: int)
    requires
        0 <= i <= s.len(),
    ensures
        digits_val(s.take(i)) <= digits_val(s),
    decreases s.len() - i,
{
    if i < s.len() {
        assert(s.take(i + 1).drop_last() =~= s.take(i));
        assert(digits_val(s.take(i)) * 10 >= digits_val(s.take(i))) by (nonlinear_arith);
        lemma_digits_val_mono(s, i + 1);
    } else {
        assert(s.take(i) =~= s);
    }
}

/// Reads an unsigned number from decimal text.
/// Succeeds exactly on a nonempty all-digit string whose value fits,
/// and then returns exactly that value
pub fn parse_u64(s: &str) -> (r: Option<u64>)
    ensures
        match r {
            Some(v) => s@.len() > 0 && all_digits(s@) && v as nat == digits_val(s@),
            None => !(s@.len() > 0 && all_digits(s@) && digits_val(s@) <= u64::MAX),
        },
{
    let len = s.unicode_len();
    if len == 0 {
        return None;
    }
    let mut v: u64 = 0;
    let mut i: usize = 0;
    while i < len
        invariant
            i <= len,
            len == s@.len(),
            all_digits(s@.take(i as int)),
            v as nat == digits_val(s@.take(i as int)),
        decreases len - i,
    {
        let c = s.get_char(i);
        if !(c >= '0' && c <= '9') {
            assert(!digit_spec(s@[i as int]));
            return None;
        }
        let d: u64 = (c as u32 as u64) - 48;
        proof {
            assert(s@.take(i + 1).drop_last() =~= s@.take(i as int));
            assert(s@.take(i + 1).last() == s@[i as int]);
        }
        if v > (u64::MAX - d) / 10 {
            proof {
                let m = u64::MAX as int;
                assert((v as int) * 10 + d as int > m) by (nonlinear_arith)
                    requires
                        v as int > (m - d as int) / 10,
                        0 <= d as int <= 9,
                        m == 0xffff_ffff_ffff_ffff,
                ;
                lemma_digits_val_mono(s@, i + 1);
            }
            return None;
        }
        proof {
            let m = u64::MAX as int;
            assert((v as int) * 10 + d as int <= m) by (nonlinear_arith)
                requires
                    v as int <= (m - d as int) / 10,
                    0 <= d as int <= 9,
                    m == 0xffff_ffff_ffff_ffff,
            ;
        }
        v = v * 10 + d;
        i += 1;
    }
    proof {
        assert(s@.take(len as int) =~= s@);
    }
    Some(v)
}

/// The character for a single decimal digit
pub open spec fn digit_char(d: int) -> char {
    if d == 0 {
        '0'
    } else if d == 1 {
        '1'
    } else if d == 2 {
        '2'
    } else if d == 3 {
        '3'
    } else if d == 4 {
        '4'
    } else if d == 5 {
        '5'
    } else if d == 6 {
        '6'
    } else if d == 7 {
        '7'
    } else if d == 8 {
        '8'
    } else {
        '9'
    }
}

/// The decimal digit string of a natural number, most significant digit first
pub open spec fn dec_digits(n: nat) -> Seq<char>
    decreases n,
{
    if n < 10 {
        seq![digit_char(n as int)]
    } else {
        dec_digits(n / 10) + seq![digit_char((n % 10) as int)]
    }
}

/// A decimal digit string is never empty
pub proof fn lemma_dec_digits_len(n: nat)
    ensures
        dec_digits(n).len() >= 1,
    decreases n,
{
    if n >= 10 {
        lemma_dec_digits_len(n / 10);
    }
}

/// Decimal digit strings tell numbers apart: equal texts mean equal
/// numbers
pub proof fn lemma_dec_digits_injective(m: nat, n: nat)
    requires
        dec_digits(m) == dec_digits(n),
    ensures
        m == n,
    decreases m,
{
    lemma_dec_digits_len(m / 10);
    lemma_dec_digits_len(n / 10);
    if m < 10 && n < 10 {
        assert(dec_digits(m)[0] == digit_char(m as int));
        assert(dec_digits(n)[0] == digit_char(n as int));
    } else if m < 10 && n >= 10 {
        assert(dec_digits(m).len() == 1);
        assert(dec_digits(n).len() >= 2);
    } else if m >= 10 && n < 10 {
        assert(dec_digits(m).len() >= 2);
        assert(dec_digits(n).len() == 1);
    } else {
        assert(dec_digits(m).last() == digit_char((m % 10) as int));
        assert(dec_digits(n).last() == digit_char((n % 10) as int));
        assert(m % 10 == n % 10);
        assert(dec_digits(m).drop_last() =~= dec_digits(m / 10));
        assert(dec_digits(n).drop_last() =~= dec_digits(n / 10));
        lemma_dec_digits_injective(m / 10, n / 10);
    }
}

/// Formatting and reading agree: the digit string of a number is all
/// digits and denotes exactly that number, so a formatted value read
/// back comes out unchanged
pub proof fn lemma_digits_round_trip(n: nat)
    ensures
        all_digits(dec_digits(n)),
        digits_val(dec_digits(n)) == n,
    decreases n,
{
    if n < 10 {
        assert(dec_digits(n) =~= seq![digit_char(n as int)]);
        assert(dec_digits(n).drop_last() =~= Seq::<char>::empty());
        assert(digits_val(Seq::<char>::empty()) == 0);
        assert(digit_val(digit_char(n as int)) == n);
        assert(digits_val(dec_digits(n)) == digits_val(Seq::<char>::empty()) * 10 + digit_val(
            dec_digits(n).last(),
        ));
    } else {
        lemma_digits_round_trip(n / 10);
        assert(dec_digits(n).drop_last() =~= dec_digits(n / 10));
        assert(dec_digits(n).last() == digit_char((n % 10) as int));
        assert(digit_val(digit_char((n % 10) as int)) == n % 10);
        assert forall|i: int| 0 <= i < dec_digits(n).len() implies digit_spec(
            #[trigger] dec_digits(n)[i],
        ) by {
            if i < dec_digits(n).len() - 1 {
                assert(dec_digits(n)[i] == dec_digits(n / 10)[i]);
            }
        }
    }
}

/// The decimal string of an integer, with a leading minus sign when negative
pub open spec fn int_string(n: int) -> Seq<char> {
    if n < 0 {
        seq!['-'] + dec_digits((-n) as nat)
    } else {
        dec_digits(n as nat)
    }
}

/// The textual form of a boolean value
pub open spec fn bool_string(b: bool) -> Seq<char> {
    if b {
        "true"@
    } else {
        "false"@
    }
}

/// Returns the one-character string for a single decimal digit
fn digit_str(d: u64) -> (r: &'static str)
    requires
        d < 10,
    ensures
        r@ == seq![digit_char(d as int)],
{
    if d == 0 {
        proof {
            reveal_strlit("0");
            assert("0"@ =~= seq![digit_char(0)]);
        }
        "0"
    } else if d == 1 {
        proof {
            reveal_strlit("1");
            assert("1"@ =~= seq![digit_char(1)]);
        }
        "1"
    } else if d == 2 {
        proof {
            reveal_strlit("2");
            assert("2"@ =~= seq![digit_char(2)]);
        }
        "2"
    } else if d == 3 {
        proof {
            reveal_strlit("3");
            assert("3"@ =~= seq![digit_char(3)]);
        }
        "3"
    } else if d == 4 {
        proof {
            reveal_strlit("4");
            assert("4"@ =~= seq![digit_char(4)]);
        }
        "4"
    } else if d == 5 {
        proof {
            reveal_strlit("5");
            assert("5"@ =~= seq![digit_char(5)]);
        }
        "5"
    } else if d == 6 {
        proof {
            reveal_strlit("6");
            assert("6"@ =~= seq![digit_char(6)]);
        }
        "6"
    } else if d == 7 {
        proof {
            reveal_strlit("7");
            assert("7"@ =~= seq![digit_char(7)]);
        }
        "7"
    } else if d == 8 {
        proof {
            reveal_strlit("8");
            assert("8"@ =~= seq![digit_char(8)]);
        }
        "8"
    } else {
        proof {
            reveal_strlit("9");
            assert("9"@ =~= seq![digit_char(9)]);
        }
        "9"
    }
}

/// Formats an unsigned number in decimal
pub fn u64_to_string(n: u64) -> (s: String)
    ensures
        s@ == dec_digits(n as nat),
    decreases n,
{
    if n < 10 {
        String::from_str(digit_str(n))
    } else {
        let mut s = u64_to_string(n / 10);
        s.append(digit_str(n % 10));
        s
    }
}

/// Formats a signed number in decimal
pub fn i64_to_string(n: i64) -> (s: String)
    ensures
        s@ == int_string(n as int),
{
    if n >= 0 {
        u64_to_string(n as u64)
    } else {
        // `-(n + 1)` stays in range even for the smallest value
        let mag: u64 = ((-(n + 1)) as u64) + 1;
        assert(mag as int == -(n as int));
        let mut s = String::from_str("-");
        s.append(u64_to_string(mag).as_str());
        proof {
            reveal_strlit("-");
            assert("-"@ =~= seq!['-']);
            assert(s@ =~= int_string(n as int));
        }
        s
    }
}

/// Formats a machine-sized unsigned number in decimal
pub fn usize_to_string(n: usize) -> (s: String)
    ensures
        s@ == dec_digits(n as nat),
{
    u64_to_string(n as u64)
}

/// Formats a boolean value as text
pub fn bool_to_string(b: bool) -> (s: String)
    ensures
        s@ == bool_string(b),
{
    if b {
        String::from_str("true")
    } else {
        String::from_str("false")
    }
}

} // verus!
