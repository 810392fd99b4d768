use vstd::prelude::*;
use vstd::string::StrSliceExecFns;
use vstd::string::StringExecFns;

use crate::error::Error;
use crate::error::ErrorType;
use crate::error::error;
use crate::text::digit_spec;
use crate::text::push_char;
use crate::text::str_eq;
use crate::text::usize_to_string;
use crate::token::Token;
use crate::token::TokenType;

verus! {

/// Whether the character can start an identifier
pub open spec fn ident_start_spec(c: char) -> bool {
    ('A' as u32 <= c as u32 && c as u32 <= 'Z' as u32) || ('a' as u32 <= c as u32 && c as u32
        <= 'z' as u32) || c == '_'
}

/// Whether the character can continue an identifier
pub open spec fn ident_spec(c: char) -> bool {
    ident_start_spec(c) || digit_spec(c)
}

/// The text an escaped character turns into: the escape letter maps
/// to the byte escape the emitted constants use
pub open spec fn escape_string(c: char) -> Seq<char> {
    if c == 'n' {
        "\\0A"@
    } else if c == 't' {
        "\\09"@
    } else if c == '\'' {
        "\\27"@
    } else if c == '\"' {
        "\\22"@
    } else {
        "\\"@
    }
}

/// The token kind a lone symbol character lexes to, for the
/// characters that need no lookahead to decide
pub open spec fn single_symbol_kind(c: char) -> Option<TokenType> {
    if c == '+' {
        Some(TokenType::Plus)
    } else if c == '-' {
        Some(TokenType::Dash)
    } else if c == '*' {
        Some(TokenType::Star)
    } else if c == '(' {
        Some(TokenType::LeftParen)
    } else if c == ')' {
        Some(TokenType::RightParen)
    } else if c == '{' {
        Some(TokenType::LeftBrace)
    } else if c == '}' {
        Some(TokenType::RightBrace)
    } else if c == '[' {
        Some(TokenType::LeftBracket)
    } else if c == ']' {
        Some(TokenType::RightBracket)
    } else if c == ';' {
        Some(TokenType::SemiColon)
    } else if c == ':' {
        Some(TokenType::Colon)
    } else if c == ',' {
        Some(TokenType::Comma)
    } else if c == '.' {
        Some(TokenType::Dot)
    } else {
        None
    }
}

/// Stores information for a "Lexer"
pub struct Lexer {
    /// Current position in `code`, counted in characters
    pub pos: usize,

    /// Input string
    pub code: String,

    /// Current column in the code
    pub col: usize,
}

impl Lexer {
    /// The character the lexer sees at distance `sight` from its
    /// position: past the end of the input it sees a space
    pub open spec fn peek_spec(&self, sight: nat) -> char {
        if self.pos + sight >= self.code@.len() {
            ' '
        } else {
            self.code@[self.pos + sight]
        }
    }

    /// Returns whether or not "c" is a valid identifier start
    fn is_identifier_start(&self, c: char) -> (r: bool)
        ensures
            r == ident_start_spec(c),
    {
        (c >= 'A' && c <= 'Z') || (c >= 'a' && c <= 'z') || c == '_'
    }

    /// Returns whether or not "c" is a valid digit
    fn is_digit(&self, c: char) -> (r: bool)
        ensures
            r == digit_spec(c),
    {
        c >= '0' && c <= '9'
    }

    /// Returns whether or not "c" is a valid continuing identifier character
    fn is_identifier(&self, c: char) -> (r: bool)
        ensures
            r == ident_spec(c),
    {
        self.is_identifier_start(c) || self.is_digit(c)
    }

    /// Advances current place in code by incrementing position and column
    fn advance(&mut self, sight: usize)
        requires
            old(self).pos + sight <= usize::MAX,
            old(self).col + sight <= usize::MAX,
        ensures
            final(self).pos == old(self).pos + sight,
            final(self).col == old(self).col + sight,
            final(self).code == old(self).code,
    {
        self.pos += sight;
        self.col += sight;
    }

    /// Returns the next character in code
    fn peek(&self, sight: usize) -> (c: char)
        requires
            self.pos + sight <= usize::MAX,
        ensures
            c == self.peek_spec(sight as nat),
    {
        // If the next character is past the end of the input, return ' '
        if self.pos >= self.code.as_str().unicode_len() || sight
            >= self.code.as_str().unicode_len() - self.pos {
            return ' ';
        }
        return self.code.as_str().get_char(self.pos + sight);
    }

    /// Parses a character, resolving a backslash escape to the byte
    /// escape text used in emitted constants
    /// # Example
    /// `a` or `\n`
    fn parse_character(&mut self) -> (r: String)
        requires
            old(self).pos + 1 <= usize::MAX,
            old(self).col + 1 <= usize::MAX,
        ensures
            final(self).code == old(self).code,
            old(self).peek_spec(0) == '\\' ==> {
                &&& final(self).pos == old(self).pos + 1
                &&& final(self).col == old(self).col + 1
                &&& r@ == escape_string(final(self).peek_spec(0))
            },
            old(self).peek_spec(0) != '\\' ==> {
                &&& final(self).pos == old(self).pos
                &&& final(self).col == old(self).col
                &&& r@ == seq![old(self).peek_spec(0)]
            },
    {
        if self.peek(0) == '\\' {
            self.advance(1);
            let e = self.peek(0);
            return if e == 'n' {
                String::from_str("\\0A")
            } else if e == 't' {
                String::from_str("\\09")
            } else if e == '\'' {
                String::from_str("\\27")
            } else if e == '\"' {
                String::from_str("\\22")
            } else {
                String::from_str("\\")
            };
        }
        let c = self.peek(0);
        let mut s = String::new();
        push_char(&mut s, c);
        proof {
            assert(s@ =~= seq![c]);
        }
        return s;
    }

    /// Loops through the input and collects the tokens.
    /// The whole input is consumed up to the first lexical fault;
    /// no token of the error kind is ever handed out, faults come
    /// back as diagnostics instead
    #[verifier::loop_isolation(false)]
    pub fn lex(&mut self) -> (r: Result<Vec<Token>, Error>)
        requires
            old(self).col <= old(self).pos,
            old(self).pos <= old(self).code@.len(),
            old(self).code@.len() <= usize::MAX - 3,
        ensures
            final(self).code == old(self).code,
            match r {
                Ok(tokens) => {
                    &&& tokens@.len() <= old(self).code@.len()
                    &&& forall|i: int|
                        0 <= i < tokens@.len() ==> (#[trigger] tokens@[i]).typ
                            != TokenType::Error
                    &&& forall|i: int| 0 <= i < tokens@.len() ==> (#[trigger] tokens@[i]).lineno >= 1
                    &&& old(self).pos >= old(self).code@.len() ==> tokens@.len() == 0
                },
                Err(e) => e.typ == ErrorType::ExpectedToken || e.typ == ErrorType::UnexpectedEOF
                    || e.typ == ErrorType::DecNotFound || e.typ == ErrorType::DecTooManyDots
                    || e.typ == ErrorType::UnknownChar,
            },
            old(self).pos >= old(self).code@.len() ==> r is Ok,
            (old(self).pos == 0 && old(self).code@.len() == 1 && old(self).code@[0] == '+') ==> (
            r matches Ok(tokens) && tokens@.len() == 1 && tokens@[0].typ == TokenType::Plus
                && tokens@[0].value@ == "+"@ && tokens@[0].lineno == 1 && tokens@[0].col == 0),
            (old(self).pos == 0 && old(self).code@.len() == 1 && single_symbol_kind(
                old(self).code@[0],
            ) is Some) ==> (r matches Ok(tokens) && tokens@.len() == 1 && tokens@[0].typ
                == single_symbol_kind(old(self).code@[0]).unwrap() && tokens@[0].lineno == 1
                && tokens@[0].col == 0),
    {
        let len = self.code.as_str().unicode_len();

        // Initialize a new vector to store the tokens
        let mut tokens: Vec<Token> = Vec::new();

        // Stores the current line number
        let mut lineno: usize = 1;

        // Split the code into its lines, so each token can carry the
        // line it stands on for diagnostics
        let mut lines: Vec<String> = Vec::new();
        let mut li: usize = 0;
        let mut cur_line = String::new();
        while li < len
            invariant
                li <= len,
            decreases len - li,
        {
            let c = self.code.as_str().get_char(li);
            if c == '\n' {
                lines.push(cur_line);
                cur_line = String::new();
            } else {
                push_char(&mut cur_line, c);
            }
            li += 1;
        }
        lines.push(cur_line);

        // Loop while our position is not at the end of the input
        while self.pos < len
            invariant
                old(self).pos <= self.pos,
                self.pos <= len + 3,
                self.col <= self.pos,
                lineno >= 1,
                lineno <= self.pos + 1,
                old(self).pos >= len ==> tokens@.len() == 0,
                tokens@.len() <= self.pos,
                tokens@.len() <= len,
                self.code == old(self).code,
                forall|i: int|
                    0 <= i < tokens@.len() ==> (#[trigger] tokens@[i]).typ != TokenType::Error,
                forall|i: int| 0 <= i < tokens@.len() ==> (#[trigger] tokens@[i]).lineno >= 1,
                (old(self).pos == 0 && old(self).code@.len() == 1 && old(self).code@[0] == '+')
                    ==> ((self.pos == 0 && tokens@.len() == 0) || (self.pos >= 1 && tokens@.len()
                    == 1 && tokens@[0].typ == TokenType::Plus && tokens@[0].value@ == "+"@
                    && tokens@[0].lineno == 1 && tokens@[0].col == 0)),
                (old(self).pos == 0 && old(self).code@.len() == 1 && single_symbol_kind(
                    old(self).code@[0],
                ) is Some) ==> ((self.pos == 0 && tokens@.len() == 0) || (self.pos >= 1
                    && tokens@.len() == 1 && tokens@[0].typ == single_symbol_kind(
                    old(self).code@[0],
                ).unwrap() && tokens@[0].lineno == 1 && tokens@[0].col == 0)),
            decreases len + 3 - self.pos,
        {
            let ghost pos0 = self.pos;

            // Stores the current line
            let line: String = if lineno - 1 < lines.len() {
                lines[lineno - 1].clone()
            } else {
                String::new()
            };

            // Stores the current character
            let mut c: char = self.code.as_str().get_char(self.pos);

            // Save off the column before collecting a token
            let begin = self.col;

            // Match the character and get the token's type and value
            let value: String;
            let typ: TokenType;
            if c == '/' && self.peek(1) == '/' {
                // Skip over the '//'
                self.advance(2);

                // Continue advancing until a newline is found or the
                // end of the input is reached
                while c != '\n' && self.pos < len
                    invariant
                        pos0 + 2 <= self.pos,
                        self.pos <= len + 2,
                        self.col <= self.pos,
                        lineno <= self.pos + 1,
                        self.code == old(self).code,
                    decreases len - self.pos,
                {
                    c = self.peek(1);
                    self.advance(1);
                }
                continue ;
            } else if c == '!' && self.peek(1) == '=' {
                self.advance(2);
                value = String::from_str("!=");
                typ = TokenType::NotEqual;
            } else if c == '+' {
                self.advance(1);
                value = String::from_str("+");
                typ = TokenType::Plus;
            } else if c == '-' {
                self.advance(1);
                value = String::from_str("-");
                typ = TokenType::Dash;
            } else if c == '*' {
                self.advance(1);
                value = String::from_str("*");
                typ = TokenType::Star;
            } else if c == '/' {
                self.advance(1);
                value = String::from_str("/");
                typ = TokenType::Slash;
            } else if c == '(' {
                self.advance(1);
                value = String::from_str("(");
                typ = TokenType::LeftParen;
            } else if c == ')' {
                self.advance(1);
                value = String::from_str(")");
                typ = TokenType::RightParen;
            } else if c == '{' {
                self.advance(1);
                value = String::from_str("{");
                typ = TokenType::LeftBrace;
            } else if c == '}' {
                self.advance(1);
                value = String::from_str("}");
                typ = TokenType::RightBrace;
            } else if c == '[' {
                self.advance(1);
                value = String::from_str("[");
                typ = TokenType::LeftBracket;
            } else if c == ']' {
                self.advance(1);
                value = String::from_str("]");
                typ = TokenType::RightBracket;
            } else if c == '=' && self.peek(1) == '=' {
                self.advance(2);
                value = String::from_str("==");
                typ = TokenType::EqualEqual;
            } else if c == '=' {
                self.advance(1);
                value = String::from_str("=");
                typ = TokenType::Equal;
            } else if c == ';' {
                self.advance(1);
                value = String::from_str(";");
                typ = TokenType::SemiColon;
            } else if c == '>' && self.peek(1) == '=' {
                self.advance(2);
                value = String::from_str(">=");
                typ = TokenType::GreaterEqual;
            } else if c == '>' {
                self.advance(1);
                value = String::from_str(">");
                typ = TokenType::GreaterThan;
            } else if c == '<' && self.peek(1) == '=' {
                self.advance(2);
                value = String::from_str("<=");
                typ = TokenType::LessEqual;
            } else if c == '<' {
                self.advance(1);
                value = String::from_str("<");
                typ = TokenType::LessThan;
            } else if c == ':' {
                self.advance(1);
                value = String::from_str(":");
                typ = TokenType::Colon;
            } else if c == ',' {
                self.advance(1);
                value = String::from_str(",");
                typ = TokenType::Comma;
            } else if c == '.' {
                self.advance(1);
                value = String::from_str(".");
                typ = TokenType::Dot;
            } else if c == ' ' || c == '\t' {
                // Ignore whitespace
                self.advance(1);
                continue ;
            } else if c == '\n' {
                // For a newline, increment the line number, increment
                // the position, and reset the column
                lineno += 1;
                self.advance(1);
                self.col = 0;
                continue ;
            } else if c == '\'' {
                self.advance(1);
                let chr = self.parse_character();
                self.advance(1);
                if self.peek(0) != '\'' {
                    let empty_token = Token {
                        typ: TokenType::Error,
                        value: String::from_str(" "),
                        lineno,
                        col: self.col,
                        line,
                    };
                    let mut e = error(ErrorType::ExpectedToken, &empty_token);
                    e.note("Expected a single quote");
                    e.help("Insert a single quote after this character");
                    return Err(e);
                }
                self.advance(1);
                value = chr;
                typ = TokenType::Char;
            } else if c == '\"' {
                // Set c to the character after the '"'
                c = self.peek(1);

                // Advance and consume the '"'
                self.advance(1);

                let mut string = String::new();
                let mut count: usize = 0;

                // Loop until the end of the string
                while c != '\"'
                    invariant
                        pos0 + 1 <= self.pos,
                        self.pos <= len + 1,
                        self.col <= self.pos,
                        count <= self.pos,
                        lineno <= self.pos + 1,
                        self.code == old(self).code,
                    decreases len + 1 - self.pos,
                {
                    // When the line or the input ends without a second
                    // '"', give an error
                    if c == '\n' || c == '\u{0}' || self.pos >= len {
                        let empty_token = Token {
                            typ: TokenType::Error,
                            value: String::from_str(" "),
                            lineno,
                            col: self.col,
                            line,
                        };
                        let mut e = error(ErrorType::UnexpectedEOF, &empty_token);
                        e.note("Closing double quote was not found");
                        e.help("Add a closing double quote to signal the end of the string");
                        return Err(e);
                    }
                    // Add the character to allocated "string" variable
                    let part = self.parse_character();
                    string.append(part.as_str());

                    // Change character to the next character
                    c = self.peek(1);

                    // Advance our position and column
                    self.advance(1);
                    count += 1;
                }

                // Advance and consume the second '"'
                self.advance(1);

                // Store the length in front of the contents, so later
                // stages know it without rescanning the escapes
                let mut with_len = usize_to_string(count);
                with_len.append(".");
                with_len.append(string.as_str());

                // Return the new string token
                value = with_len;
                typ = TokenType::Str;
            } else if self.is_identifier_start(c) {
                let ghost c0 = c;
                let mut name = String::new();

                // Loop through while we keep finding identifier characters
                while self.is_identifier(c)
                    invariant
                        pos0 <= self.pos,
                        self.pos == pos0 ==> c == c0,
                        self.pos <= len,
                        self.col <= self.pos,
                        lineno <= self.pos + 1,
                        self.code == old(self).code,
                        c == self.peek_spec(0) || !ident_spec(c),
                    decreases len + 1 - self.pos,
                {
                    proof {
                        assert(self.peek_spec(0) != ' ' ==> self.pos < len);
                    }
                    // Add the character to the identifier
                    push_char(&mut name, c);

                    // Change character to the next character
                    c = self.peek(1);

                    // Advance the position and column
                    self.advance(1);
                }

                proof {
                    assert(self.pos > pos0);
                }

                // Match the identifier against all the keywords to
                // find the appropriate token type
                let id_type: TokenType = if str_eq(name.as_str(), "let") {
                    TokenType::Let
                } else if str_eq(name.as_str(), "if") {
                    TokenType::If
                } else if str_eq(name.as_str(), "else") {
                    TokenType::Else
                } else if str_eq(name.as_str(), "ret") {
                    TokenType::Ret
                } else if str_eq(name.as_str(), "break") {
                    TokenType::Break
                } else if str_eq(name.as_str(), "continue") {
                    TokenType::Continue
                } else if str_eq(name.as_str(), "func") {
                    TokenType::Func
                } else if str_eq(name.as_str(), "while") {
                    TokenType::While
                } else if str_eq(name.as_str(), "new") {
                    TokenType::New
                } else if str_eq(name.as_str(), "struct") {
                    TokenType::Struct
                } else if str_eq(name.as_str(), "not") {
                    TokenType::Not
                } else if str_eq(name.as_str(), "and") {
                    TokenType::And
                } else if str_eq(name.as_str(), "or") {
                    TokenType::Or
                } else if str_eq(name.as_str(), "true") || str_eq(name.as_str(), "false") {
                    TokenType::Bool
                } else if str_eq(name.as_str(), "int") || str_eq(name.as_str(), "string") || str_eq(
                    name.as_str(),
                    "char",
                ) || str_eq(name.as_str(), "bool") || str_eq(name.as_str(), "dec") {
                    TokenType::Type
                } else {
                    TokenType::Id
                };

                // Return the identifier token
                value = name;
                typ = id_type;
            } else if self.is_digit(c) {
                let ghost c0 = c;
                let mut digit = String::new();

                // Store the type of the number (int); if the number
                // turns out to be a floating point number, override it
                let mut num_type: TokenType = TokenType::Int;

                // Loop through while digits continue to be found
                while self.is_digit(c)
                    invariant
                        pos0 <= self.pos,
                        self.pos == pos0 ==> c == c0,
                        self.pos <= len,
                        self.col <= self.pos,
                        lineno <= self.pos + 1,
                        self.code == old(self).code,
                        c == self.peek_spec(0) || !digit_spec(c),
                    decreases len + 1 - self.pos,
                {
                    proof {
                        assert(self.peek_spec(0) != ' ' ==> self.pos < len);
                    }
                    // Add the character to the number
                    push_char(&mut digit, c);

                    // Change character to the next character
                    c = self.peek(1);

                    // Advance the position and column
                    self.advance(1);
                }

                proof {
                    assert(self.pos > pos0);
                }

                // If the next character is a dot, the number must be a
                // floating point number
                if c == '.' {
                    // Skip over the dot
                    c = self.peek(1);
                    self.advance(1);
                    push_char(&mut digit, '.');

                    // If a digit is not found after the dot, give an error
                    if !self.is_digit(c) {
                        let empty_token = Token {
                            typ: TokenType::Error,
                            value: String::new(),
                            lineno,
                            col: 0,
                            line,
                        };
                        let mut e = error(ErrorType::DecNotFound, &empty_token);
                        e.note("Expected number after dot");
                        e.help("Take away the dot or insert a number after the dot");
                        return Err(e);
                    }
                    // Otherwise, continue to collect digits and add to
                    // the number
                    while self.is_digit(c)
                        invariant
                            pos0 < self.pos,
                            self.pos <= len + 1,
                            self.col <= self.pos,
                            lineno <= self.pos + 1,
                            self.code == old(self).code,
                            c == self.peek_spec(0) || !digit_spec(c),
                        decreases len + 2 - self.pos,
                    {
                        proof {
                            assert(self.peek_spec(0) != ' ' ==> self.pos < len);
                        }
                        push_char(&mut digit, c);
                        c = self.peek(1);
                        self.advance(1);
                    }

                    // If a dot is not found after that, override the
                    // token type; otherwise, give an error
                    if c != '.' {
                        num_type = TokenType::Dec;
                    } else {
                        let empty_token = Token {
                            typ: TokenType::Error,
                            value: String::new(),
                            lineno,
                            col: 0,
                            line,
                        };
                        let mut e = error(ErrorType::DecTooManyDots, &empty_token);
                        e.note("Unexpected dot");
                        e.help("Take away this dot");
                        return Err(e);
                    }
                }
                // Return the number token
                value = digit;
                typ = num_type;
            } else {
                // Finding unknown characters results in an error
                let mut cs = String::new();
                push_char(&mut cs, c);
                let bad_token = Token {
                    typ: TokenType::Error,
                    value: cs,
                    lineno,
                    col: begin,
                    line,
                };
                let mut note_text = String::from_str("Unknown character '");
                push_char(&mut note_text, c);
                note_text.append("'");
                let mut e = error(ErrorType::UnknownChar, &bad_token);
                e.note(note_text.as_str());
                return Err(e);
            }

            // Add the token to the tokens vector
            tokens.push(Token { typ, value, lineno, col: begin, line });
        }

        // Returns the tokens vector
        return Ok(tokens);
    }
}

} // verus!
