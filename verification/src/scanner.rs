use vstd::prelude::*;
use crate::errors::{Diagnostic, ScanError};
use crate::text::{
    alphabetic_char, alphanumeric_char, ascii_digit, char_is_alphabetic, char_is_alphanumeric,
    is_ascii_digit, push_char, push_chars,
};
use crate::token::{Literal, LiteralModel, Token, TokenModel, TokenType, token_models};

verus! {

/// The classes of character that the scanner reads in runs.
#[derive(Clone, Copy)]
pub enum CharClass {
    /// letters, digits and `_`: the rest of a `$` variable or of a word
    NameChar,
    /// ASCII digits: the parts of a number
    Digit,
}

/// Whether `c` belongs to the class.
pub open spec fn in_class(class: CharClass, c: char) -> bool {
    match class {
        CharClass::NameChar => alphanumeric_char(c) || c == '_',
        CharClass::Digit => ascii_digit(c),
    }
}

/// The length of the run of characters of a class that starts at `i`.
pub open spec fn run_len(s: Seq<char>, i: nat, class: CharClass) -> nat
    decreases s.len() - i,
{
    if i < s.len() && in_class(class, s[i as int]) {
        1 + run_len(s, i + 1, class)
    } else {
        0
    }
}

/// The kind of a word that starts with a letter.
pub open spec fn word_kind(word: Seq<char>) -> TokenType {
    if word == "init"@ {
        TokenType::Init
    } else if word == "ctmc"@ {
        TokenType::Ctmc
    } else if word == "dtmc"@ {
        TokenType::Dtmc
    } else if word == "def"@ {
        TokenType::Def
    } else if word == "model"@ {
        TokenType::Model
    } else {
        TokenType::Identifier
    }
}

/// Mathematical model of a `Reader`: the source, the line and column reached,
/// the index of the next character, and the index where the token being
/// read starts.
#[verifier::ext_equal]
pub struct ReaderModel {
    pub source: Seq<char>,
    pub line: nat,
    pub pos: nat,
    pub current: nat,
    pub start: nat,
}

impl ReaderModel {
    pub open spec fn wf(self) -> bool {
        &&& self.start <= self.current <= self.source.len()
        &&& self.pos <= self.current
        &&& self.line <= self.current
    }

    /// The column is far enough along for the token being read to have
    /// started on this line.
    pub open spec fn token_fits(self) -> bool {
        self.current - self.start <= self.pos
    }

    pub open spec fn at_end(self) -> bool {
        self.current >= self.source.len()
    }

    /// The next character, or `'\0'` at the end.
    pub open spec fn peek(self) -> char {
        if self.at_end() {
            '\0'
        } else {
            self.source[self.current as int]
        }
    }

    /// The character after the next one, or `'\0'` where there is none.
    pub open spec fn peek_second(self) -> char {
        if self.current + 1 < self.source.len() {
            self.source[self.current + 1 as int]
        } else {
            '\0'
        }
    }

    /// The reader moved `n` characters along the current line.
    pub open spec fn skipped(self, n: nat) -> ReaderModel {
        ReaderModel { current: self.current + n, pos: self.pos + n, ..self }
    }

    /// The reader after reading one character (unchanged at the end).
    pub open spec fn advanced(self) -> ReaderModel {
        if self.at_end() {
            self
        } else {
            self.skipped(1)
        }
    }

    /// The reader moved past the run of a class.
    pub open spec fn past_run(self, class: CharClass) -> ReaderModel {
        self.skipped(run_len(self.source, self.current, class))
    }

    /// The text of the token being read.
    pub open spec fn lexeme(self) -> Seq<char> {
        self.source.subrange(self.start as int, self.current as int)
    }

    /// The token being read, of the given kind and literal.
    pub open spec fn token(self, kind: TokenType, literal: LiteralModel) -> TokenModel {
        TokenModel {
            kind,
            lexeme: self.lexeme(),
            literal,
            line: self.line,
            pos: (self.pos - (self.current - self.start)) as nat,
        }
    }
}

/// Reading a `$` variable: the run of letters, digits and `_`.
pub open spec fn variable_step(m: ReaderModel) -> (TokenModel, ReaderModel) {
    let m1 = m.past_run(CharClass::NameChar);
    (m1.token(TokenType::Variable, LiteralModel::Null), m1)
}

/// Reading a word: the run of letters, digits and `_`, then its kind.
pub open spec fn keyword_step(m: ReaderModel) -> (TokenModel, ReaderModel) {
    let m1 = m.past_run(CharClass::NameChar);
    (m1.token(word_kind(m1.lexeme()), LiteralModel::Null), m1)
}

/// Reading a number: ASCII digits, then a `.` and ASCII digits if a digit
/// follows the `.`.
pub open spec fn number_step(m: ReaderModel) -> (TokenModel, ReaderModel) {
    let m1 = m.past_run(CharClass::Digit);
    let m2 = if m1.peek() == '.' && ascii_digit(m1.peek_second()) {
        m1.skipped(1).past_run(CharClass::Digit)
    } else {
        m1
    };
    (m2.token(TokenType::Value, LiteralModel::Float(m2.lexeme())), m2)
}

/// The token kind of a character that is a token by itself.
pub open spec fn single_kind(c: char) -> Option<TokenType> {
    if c == '(' {
        Some(TokenType::LeftParen)
    } else if c == ')' {
        Some(TokenType::RightParen)
    } else if c == ':' {
        Some(TokenType::Colon)
    } else if c == ',' {
        Some(TokenType::Comma)
    } else if c == '=' {
        Some(TokenType::Equal)
    } else if c == '+' {
        Some(TokenType::Plus)
    } else if c == '*' {
        Some(TokenType::Mult)
    } else if c == '/' {
        Some(TokenType::Div)
    } else if c == ' ' || c == '\r' || c == '\t' {
        Some(TokenType::Skip)
    } else if c == '\0' {
        Some(TokenType::Eof)
    } else {
        None
    }
}

/// A token of one character.
pub open spec fn simple_token(kind: TokenType, c: char, line: nat, pos: nat) -> TokenModel {
    TokenModel { kind, lexeme: seq![c], literal: LiteralModel::Null, line, pos }
}

/// Reading one token from where the reader stands: the token or the error,
/// and the reader after it.
pub open spec fn token_step(m: ReaderModel) -> (Result<TokenModel, Diagnostic>, ReaderModel) {
    let line = m.line;
    let pos = m.pos;
    let c = m.peek();
    let m1 = m.advanced();
    if c == '-' {
        if !m1.at_end() && m1.peek() == '>' {
            (
                Ok(TokenModel { kind: TokenType::Arrow, lexeme: seq!['-', '>'], literal: LiteralModel::Null, line, pos }),
                m1.advanced(),
            )
        } else {
            (Ok(simple_token(TokenType::Minus, c, line, pos)), m1)
        }
    } else if c == '\n' {
        (Ok(simple_token(TokenType::NewLine, c, line, pos)), ReaderModel { pos: 0, line: line + 1, ..m1 })
    } else if single_kind(c) is Some {
        (Ok(simple_token(single_kind(c)->0, c, line, pos)), m1)
    } else if c == '$' {
        if alphanumeric_char(m1.peek()) {
            let (t, m2) = variable_step(m1);
            (Ok(t), m2)
        } else {
            (Err(Diagnostic { line, pos, lexeme: seq![c], msg: "Expect an identifier after $"@ }), m1)
        }
    } else if ascii_digit(c) {
        let (t, m2) = number_step(m1);
        (Ok(t), m2)
    } else if alphabetic_char(c) {
        let (t, m2) = keyword_step(m1);
        (Ok(t), m2)
    } else {
        (Err(Diagnostic { line, pos, lexeme: seq![c], msg: "Invalid character(s)"@ }), m1)
    }
}

/// Whether the token at the reader is read on as a run of characters (a
/// variable, a number or a word), whose column is counted back from where
/// the run ends.
pub open spec fn reads_run(m: ReaderModel) -> bool {
    let c = m.peek();
    c != '-' && c != '\n' && single_kind(c) is None && (
        (c == '$' && alphanumeric_char(m.advanced().peek())) || ascii_digit(c) || (c != '$' && alphabetic_char(c)))
}

/// The measure of what is left to read.
pub open spec fn left_to_read(m: ReaderModel) -> nat {
    if m.current < m.source.len() {
        (m.source.len() - m.current) as nat
    } else {
        0
    }
}

/// Scanning the rest of the source: the tokens read so far (`acc`), the kind
/// of the last token kept (`prev`); blanks are dropped, a line break that
/// follows a line break is dropped, and an end token closes the list.
pub open spec fn scan_rest(m: ReaderModel, prev: TokenType, acc: Seq<TokenModel>) -> (Result<Seq<TokenModel>, Diagnostic>, ReaderModel)
    decreases left_to_read(m),
{
    if m.current >= m.source.len() {
        (Ok(acc.push(TokenModel { kind: TokenType::Eof, lexeme: seq![], literal: LiteralModel::Null, line: m.line, pos: m.pos })), m)
    } else {
        let m0 = ReaderModel { start: m.current, ..m };
        let (r, m1) = token_step(m0);
        match r {
            Err(e) => (Err(e), m1),
            Ok(t) => {
                if t.kind == TokenType::Skip || (prev == TokenType::NewLine && t.kind == TokenType::NewLine) {
                    scan_rest(m1, prev, acc)
                } else {
                    scan_rest(m1, t.kind, acc.push(t))
                }
            },
        }
    }
}

/// The result of a scan, as models.
pub open spec fn scan_model(r: Result<Vec<Token>, ScanError>) -> Result<Seq<TokenModel>, Diagnostic> {
    match r {
        Ok(ts) => Ok(token_models(ts@)),
        Err(e) => Err(e@),
    }
}

/// The result of reading one token, as a model.
pub open spec fn token_result_model(r: Result<Token, ScanError>) -> Result<TokenModel, Diagnostic> {
    match r {
        Ok(t) => Ok(t@),
        Err(e) => Err(e@),
    }
}

/// Scans source text into tokens.
pub struct Reader {
    source: Vec<char>,
    line: usize,
    pos: usize,
    current: usize,
    start: usize,
}

impl View for Reader {
    type V = ReaderModel;

    closed spec fn view(&self) -> ReaderModel {
        ReaderModel {
            source: self.source@,
            line: self.line as nat,
            pos: self.pos as nat,
            current: self.current as nat,
            start: self.start as nat,
        }
    }
}

proof fn lemma_run_len_bound(s: Seq<char>, i: nat, class: CharClass)
    requires
        i <= s.len(),
    ensures
        i + run_len(s, i, class) <= s.len(),
    decreases s.len() - i,
{
    if i < s.len() && in_class(class, s[i as int]) {
        lemma_run_len_bound(s, i + 1, class);
    }
}

impl Reader {
    pub fn new(source: String) -> (r: Self)
        ensures
            r@ == (ReaderModel { source: source@, line: 0, pos: 0, current: 0, start: 0 }),
            r@.wf(),
    {
        let mut chars: Vec<char> = Vec::new();
        for c in it: source.as_str().chars()
            invariant
                chars@ == it.seq().take(it.index() as int),
        {
            chars.push(c);
        }
        assert(chars@ == source@);
        Reader { source: chars, start: 0, line: 0, current: 0, pos: 0 }
    }
}


impl Reader {
    /// The character just read.
    fn previous(&self) -> (c: char)
        requires
            0 < self@.current <= self@.source.len(),
        ensures
            c == self@.source[self@.current - 1],
    {
        self.source[self.current - 1]
    }

    fn is_at_end(&self) -> (r: bool)
        ensures
            r == self@.at_end(),
    {
        self.current >= self.source.len()
    }

    fn peek(&self) -> (c: char)
        ensures
            c == self@.peek(),
    {
        if self.is_at_end() {
            return '\0';
        }
        self.source[self.current]
    }

    fn advance(&mut self) -> (c: char)
        requires
            old(self)@.wf(),
        ensures
            c == old(self)@.peek(),
            final(self)@ == old(self)@.advanced(),
            final(self)@.wf(),
    {
        if self.current >= self.source.len() {
            return '\0';
        }
        let c = self.source[self.current];
        self.current += 1;
        self.pos += 1;
        c
    }

    fn next(&self) -> (c: char)
        ensures
            c == self@.peek_second(),
    {
        if self.current >= self.source.len() || self.source.len() - self.current <= 1 {
            '\0'
        } else {
            self.source[self.current + 1]
        }
    }

    fn match_next(&mut self, expected: char) -> (r: bool)
        requires
            old(self)@.wf(),
        ensures
            r == (!old(self)@.at_end() && old(self)@.peek() == expected),
            final(self)@ == if r { old(self)@.advanced() } else { old(self)@ },
            final(self)@.wf(),
    {
        if self.is_at_end() {
            false
        } else if expected != self.peek() {
            false
        } else {
            self.advance();
            true
        }
    }

    /// Reads on while the next character belongs to the class.
    fn skip_run(&mut self, class: CharClass)
        requires
            old(self)@.wf(),
        ensures
            final(self)@ == old(self)@.past_run(class),
            final(self)@.wf(),
    {
        let ghost m = self@;
        proof {
            lemma_run_len_bound(m.source, m.current, class);
        }
        loop
            invariant
                self@.wf(),
                self@.source == m.source,
                m.current <= self@.current,
                self@ == m.skipped((self@.current - m.current) as nat),
                (self@.current - m.current) + run_len(m.source, self@.current, class) == run_len(m.source, m.current, class),
            ensures
                self@ == m.past_run(class),
                self@.wf(),
            decreases self@.source.len() - self@.current,
        {
            if self.is_at_end() {
                assert(run_len(m.source, self@.current, class) == 0);
                break;
            }
            let c = self.peek();
            let more = match class {
                CharClass::NameChar => char_is_alphanumeric(c) || c == '_',
                CharClass::Digit => is_ascii_digit(c),
            };
            assert(more == in_class(class, c));
            if !more {
                assert(run_len(m.source, self@.current, class) == 0);
                break;
            }
            self.advance();
        }
    }

    /// The token being read, from where it started to here.
    fn token_here(&self, token_type: TokenType, literal: Literal) -> (t: Token)
        requires
            self@.wf(),
            self@.token_fits(),
        ensures
            t@ == self@.token(token_type, literal@),
    {
        let mut lexeme = String::new();
        push_chars(&mut lexeme, &self.source, self.start, self.current);
        let pos = self.pos - (self.current - self.start);
        Token::new(token_type, lexeme, literal, self.line, pos)
    }

    /// Reads the rest of a `$` variable.
    pub fn scan_variable(&mut self) -> (r: Result<Token, ScanError>)
        requires
            old(self)@.wf(),
            old(self)@.token_fits(),
        ensures
            final(self)@.wf(),
            r is Ok,
            (token_result_model(r), final(self)@) == ({
                let (t, m) = variable_step(old(self)@);
                (Ok::<TokenModel, Diagnostic>(t), m)
            }),
    {
        self.skip_run(CharClass::NameChar);
        Ok(self.token_here(TokenType::Variable, Literal::Null))
    }

    /// Reads the rest of a word: a keyword or an identifier.
    pub fn scan_keyword(&mut self) -> (r: Result<Token, ScanError>)
        requires
            old(self)@.wf(),
            old(self)@.token_fits(),
        ensures
            final(self)@.wf(),
            r is Ok,
            (token_result_model(r), final(self)@) == ({
                let (t, m) = keyword_step(old(self)@);
                (Ok::<TokenModel, Diagnostic>(t), m)
            }),
    {
        self.skip_run(CharClass::NameChar);
        let mut lexeme = String::new();
        push_chars(&mut lexeme, &self.source, self.start, self.current);
        let kind = if lexeme == String::from_str("init") {
            TokenType::Init
        } else if lexeme == String::from_str("ctmc") {
            TokenType::Ctmc
        } else if lexeme == String::from_str("dtmc") {
            TokenType::Dtmc
        } else if lexeme == String::from_str("def") {
            TokenType::Def
        } else if lexeme == String::from_str("model") {
            TokenType::Model
        } else {
            TokenType::Identifier
        };
        Ok(self.token_here(kind, Literal::Null))
    }

    /// Reads the rest of a number.
    pub fn scan_number(&mut self) -> (r: Result<Token, ScanError>)
        requires
            old(self)@.wf(),
            old(self)@.token_fits(),
        ensures
            final(self)@.wf(),
            r is Ok,
            (token_result_model(r), final(self)@) == ({
                let (t, m) = number_step(old(self)@);
                (Ok::<TokenModel, Diagnostic>(t), m)
            }),
    {
        self.skip_run(CharClass::Digit);
        if self.peek() == '.' && is_ascii_digit(self.next()) {
            self.advance();
            self.skip_run(CharClass::Digit);
        }
        let mut numeral = String::new();
        push_chars(&mut numeral, &self.source, self.start, self.current);
        Ok(self.token_here(TokenType::Value, Literal::Float(numeral)))
    }
}


impl Reader {
    /// Reads one token (or one blank, as a `Skip` token) from where the
    /// reader stands.
    pub fn scan_token(&mut self) -> (r: Result<Token, ScanError>)
        requires
            old(self)@.wf(),
            reads_run(old(self)@) ==> old(self)@.token_fits(),
        ensures
            final(self)@.wf(),
            (token_result_model(r), final(self)@) == token_step(old(self)@),
    {
        let line = self.line;
        let pos = self.pos;
        let c = self.advance();
        let mut lexeme = String::new();
        push_char(&mut lexeme, c);
        match c {
            '(' => Ok(Token::new(TokenType::LeftParen, lexeme, Literal::Null, line, pos)),
            ')' => Ok(Token::new(TokenType::RightParen, lexeme, Literal::Null, line, pos)),
            ':' => Ok(Token::new(TokenType::Colon, lexeme, Literal::Null, line, pos)),
            ',' => Ok(Token::new(TokenType::Comma, lexeme, Literal::Null, line, pos)),
            '=' => Ok(Token::new(TokenType::Equal, lexeme, Literal::Null, line, pos)),
            '-' => {
                if self.match_next('>') {
                    let mut arrow = String::new();
                    push_char(&mut arrow, c);
                    let gt = self.previous();
                    assert(gt == '>');
                    push_char(&mut arrow, gt);
                    assert(arrow@ == seq!['-', '>']);
                    Ok(Token::new(TokenType::Arrow, arrow, Literal::Null, line, pos))
                } else {
                    Ok(Token::new(TokenType::Minus, lexeme, Literal::Null, line, pos))
                }
            },
            '+' => Ok(Token::new(TokenType::Plus, lexeme, Literal::Null, line, pos)),
            '*' => Ok(Token::new(TokenType::Mult, lexeme, Literal::Null, line, pos)),
            '/' => Ok(Token::new(TokenType::Div, lexeme, Literal::Null, line, pos)),
            '\n' => {
                self.pos = 0;
                self.line += 1;
                Ok(Token::new(TokenType::NewLine, lexeme, Literal::Null, line, pos))
            },
            ' ' | '\r' | '\t' => Ok(Token::new(TokenType::Skip, lexeme, Literal::Null, line, pos)),
            '$' => {
                if char_is_alphanumeric(self.peek()) {
                    self.scan_variable()
                } else {
                    Err(ScanError::new(line, pos, lexeme, "Expect an identifier after $"))
                }
            },
            '\0' => Ok(Token::new(TokenType::Eof, lexeme, Literal::Null, line, pos)),
            _ => {
                if is_ascii_digit(c) {
                    self.scan_number()
                } else if char_is_alphabetic(c) {
                    self.scan_keyword()
                } else {
                    Err(ScanError::new(line, pos, lexeme, "Invalid character(s)"))
                }
            },
        }
    }

    /// Scans the whole source into tokens: blanks are dropped, a line break
    /// right after a line break is dropped, and an end token closes the list.
    pub fn scan(&mut self) -> (r: Result<Vec<Token>, ScanError>)
        requires
            old(self)@.wf(),
        ensures
            final(self)@.wf(),
            (scan_model(r), final(self)@) == scan_rest(old(self)@, TokenType::Eof, seq![]),
    {
        let mut prev_type: TokenType = TokenType::Eof;
        let mut tokens: Vec<Token> = Vec::new();
        assert(token_models(tokens@) =~= seq![]);
        while !self.is_at_end()
            invariant
                self@.wf(),
                scan_rest(self@, prev_type, token_models(tokens@)) == scan_rest(old(self)@, TokenType::Eof, seq![]),
            decreases self@.source.len() - self@.current,
        {
            self.start = self.current;
            let result = self.scan_token();
            match result {
                Ok(token) => {
                    if token.token_type == TokenType::Skip || (prev_type == TokenType::NewLine && token.token_type == TokenType::NewLine) {
                        continue;
                    } else {
                        prev_type = token.token_type;
                        proof {
                            assert(token_models(tokens@.push(token)) =~= token_models(tokens@).push(token@));
                        }
                        tokens.push(token);
                    }
                },
                Err(error) => {
                    return Err(error);
                },
            }
        }
        let eof = Token::new(TokenType::Eof, String::new(), Literal::Null, self.line, self.pos);
        proof {
            assert(token_models(tokens@.push(eof)) =~= token_models(tokens@).push(eof@));
        }
        tokens.push(eof);
        Ok(tokens)
    }
}

} // verus!
