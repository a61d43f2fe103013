//! Fixed-length identifiers that stand in for registered URLs.

use vstd::prelude::*;
use vstd::std_specs::cmp::PartialEqSpecImpl;
use vstd::std_specs::convert::TryFromSpecImpl;
use vstd::utf8::*;

verus! {

/// Whether `c` is an ASCII digit or an ASCII letter of either case.
pub open spec fn is_alphanumeric_char(c: char) -> bool {
    ||| '0' <= c <= '9'
    ||| 'A' <= c <= 'Z'
    ||| 'a' <= c <= 'z'
}

/// Whether every character of `text` is an ASCII digit or an ASCII letter.
pub open spec fn is_alphanumeric_text(text: Seq<char>) -> bool {
    forall|i: int| 0 <= i < text.len() ==> is_alphanumeric_char(#[trigger] text[i])
}

/// Whether every byte of `symbols` is an ASCII digit or an ASCII letter.
pub open spec fn are_alphanumeric_symbols(symbols: Seq<u8>) -> bool {
    forall|i: int| 0 <= i < symbols.len() ==> is_alphanumeric_char(#[trigger] symbols[i] as char)
}

/// The text that `symbols` spell: one character per byte, with the byte's code.
pub open spec fn symbols_text(symbols: Seq<u8>) -> Seq<char> {
    Seq::new(symbols.len(), |i: int| symbols[i] as char)
}

/// Length of `text` in bytes, as UTF-8 encodes it. For alphanumeric text it
/// is the number of characters.
pub open spec fn byte_length(text: Seq<char>) -> nat {
    encode_utf8(text).len()
}

/// Alphanumeric text takes one byte per character.
pub proof fn lemma_alphanumeric_byte_length(text: Seq<char>)
    requires
        is_alphanumeric_text(text),
    ensures
        byte_length(text) == text.len(),
{
    assert(is_ascii_chars(text)) by {
        assert forall|i: int| 0 <= i < text.len() implies '\0' <= #[trigger] text[i] <= '\u{7f}' by {
            assert(is_alphanumeric_char(text[i]));
        }
    }
    is_ascii_chars_encode_utf8(text);
}

/// Why a text was refused as a token: it does not have the expected number
/// of characters.
#[derive(Debug, Clone, Copy, PartialEq, Eq, Structural)]
pub struct ValidationError {
    /// The number of characters that a token's text must have.
    pub expected: usize,
}

/// A short opaque identifier: a text of six characters.
///
/// Tokens that the library generates are alphanumeric. Tokens made from
/// outside text are held to the length only.
#[derive(Debug, Eq, Hash)]
pub struct Token(String);

impl View for Token {
    type V = Seq<char>;

    closed spec fn view(&self) -> Seq<char> {
        self.0@
    }
}

/// Draws one symbol from the thread-local generator of `rand`, through
/// `Rng::sample` with the `Alphanumeric` distribution. That distribution
/// returns an element of its table of the 26 upper-case letters, the 26
/// lower-case letters and the 10 digits of ASCII; nothing else is claimed of
/// the outcome, so two calls are unrelated. The generator is seeded from the
/// operating system when a thread first uses it, and gives up only where
/// the system has no randomness to seed it with.
#[verifier::external_body]
fn sample_alphanumeric() -> (symbol: u8)
    ensures
        is_alphanumeric_char(symbol as char),
{
    rand::Rng::sample(&mut rand::rng(), rand::distr::Alphanumeric)
}

/// Appends `c` to `text` with `String::push`, which adds exactly that
/// character at the end.
#[verifier::external_body]
fn push_char(text: &mut String, c: char)
    ensures
        final(text)@ == old(text)@.push(c),
{
    text.push(c)
}

/// Whether `symbol` is an ASCII digit or an ASCII letter of either case.
pub fn is_alphanumeric_symbol(symbol: u8) -> (yes: bool)
    ensures
        yes == is_alphanumeric_char(symbol as char),
{
    (0x30 <= symbol && symbol <= 0x39) || (0x41 <= symbol && symbol <= 0x5a) || (0x61 <= symbol
        && symbol <= 0x7a)
}

impl Token {
    /// Number of characters in the text of every token.
    pub const TOKEN_LENGTH: usize = 6;

    #[verifier::type_invariant]
    pub closed spec fn well_formed(&self) -> bool {
        self.0@.len() == Token::TOKEN_LENGTH
    }

    /// What `try_from` makes of `text`: the text itself when it has six
    /// characters, else the error that names the expected length.
    pub open spec fn parse_spec(text: Seq<char>) -> Result<Seq<char>, ValidationError> {
        if text.len() == Token::TOKEN_LENGTH {
            Ok(text)
        } else {
            Err(ValidationError { expected: Token::TOKEN_LENGTH })
        }
    }

    /// The token's text.
    pub fn as_str(&self) -> (text: &str)
        ensures
            text@ == self@,
            text@.len() == Token::TOKEN_LENGTH,
    {
        proof {
            use_type_invariant(self);
        }
        self.0.as_str()
    }

    /// The token's text as an owned string.
    pub fn to_string(&self) -> (text: String)
        ensures
            text@ == self@,
            text@.len() == Token::TOKEN_LENGTH,
    {
        proof {
            use_type_invariant(self);
        }
        self.0.clone()
    }

    /// Whether the token's text is alphanumeric.
    pub fn is_alphanumeric(&self) -> (yes: bool)
        ensures
            yes == is_alphanumeric_text(self@),
    {
        let text = self.0.as_str();
        let count = text.unicode_len();
        let mut i: usize = 0;
        while i < count
            invariant
                i <= count,
                count == text@.len(),
                text@ == self@,
                forall|j: int| 0 <= j < i ==> is_alphanumeric_char(#[trigger] text@[j]),
            decreases count - i,
        {
            let c = text.get_char(i);
            if !(('0' <= c && c <= '9') || ('A' <= c && c <= 'Z') || ('a' <= c && c <= 'z')) {
                return false;
            }
            i += 1;
        }
        true
    }

    /// The token that `symbols` spell, if they are six alphanumeric bytes.
    pub fn from_symbols(symbols: &[u8]) -> (made: Option<Token>)
        ensures
            made is Some <==> symbols@.len() == Token::TOKEN_LENGTH && are_alphanumeric_symbols(
                symbols@,
            ),
            made matches Some(token) ==> token@ == symbols_text(symbols@),
    {
        if symbols.len() != Token::TOKEN_LENGTH {
            return None;
        }
        let mut text = String::new();
        let mut i: usize = 0;
        while i < symbols.len()
            invariant
                i <= symbols.len(),
                text@ == symbols_text(symbols@.subrange(0, i as int)),
                are_alphanumeric_symbols(symbols@.subrange(0, i as int)),
            decreases symbols.len() - i,
        {
            let symbol = symbols[i];
            if !is_alphanumeric_symbol(symbol) {
                return None;
            }
            push_char(&mut text, symbol as char);
            proof {
                let before = symbols@.subrange(0, i as int);
                let after = symbols@.subrange(0, i + 1);
                assert(after == before.push(symbol));
                assert(symbols_text(after) == symbols_text(before).push(symbol as char));
            }
            i += 1;
        }
        proof {
            assert(symbols@.subrange(0, i as int) == symbols@);
        }
        Some(Token(text))
    }
}

impl Clone for Token {
    fn clone(&self) -> (copy: Self)
        ensures
            copy == *self,
    {
        proof {
            use_type_invariant(self);
        }
        Token(self.0.clone())
    }
}

impl PartialEq for Token {
    fn eq(&self, other: &Self) -> (same: bool) {
        self.0 == other.0
    }
}

impl PartialEqSpecImpl for Token {
    open spec fn obeys_eq_spec() -> bool {
        true
    }

    open spec fn eq_spec(&self, other: &Self) -> bool {
        self@ == other@
    }
}

impl Default for Token {
    /// A fresh token of six symbols, each drawn on its own from the
    /// alphanumeric alphabet. Nothing relates it to tokens made before.
    fn default() -> (token: Self)
        ensures
            token@.len() == Token::TOKEN_LENGTH,
            byte_length(token@) == Token::TOKEN_LENGTH,
            is_alphanumeric_text(token@),
    {
        let mut symbols: Vec<u8> = Vec::new();
        while symbols.len() < Token::TOKEN_LENGTH
            invariant
                symbols.len() <= Token::TOKEN_LENGTH,
                are_alphanumeric_symbols(symbols@),
            decreases Token::TOKEN_LENGTH - symbols.len(),
        {
            let symbol = sample_alphanumeric();
            symbols.push(symbol);
        }
        let made = Token::from_symbols(symbols.as_slice());
        let token = made.unwrap();
        proof {
            lemma_alphanumeric_byte_length(token@);
        }
        token
    }
}

impl<'a> TryFrom<&'a str> for Token {
    type Error = ValidationError;

    /// Takes `value` as a token when it has six characters. Which
    /// characters they are is not looked at.
    fn try_from(value: &'a str) -> (parsed: Result<Self, ValidationError>)
        ensures
            match parsed {
                Ok(token) => Token::parse_spec(value@) == Ok::<Seq<char>, ValidationError>(token@),
                Err(error) => Token::parse_spec(value@) == Err::<Seq<char>, ValidationError>(error),
            },
    {
        if value.unicode_len() != Token::TOKEN_LENGTH {
            return Err(ValidationError { expected: Token::TOKEN_LENGTH });
        }
        Ok(Token(value.to_owned()))
    }
}

/// A token is known by its text, and no specification can make a token out
/// of a text. So `try_from` is not held to `try_from_spec`: its own contract,
/// over `Token::parse_spec`, says what it returns.
impl<'a> TryFromSpecImpl<&'a str> for Token {
    open spec fn obeys_try_from_spec() -> bool {
        false
    }

    open spec fn try_from_spec(value: &'a str) -> Result<Self, ValidationError> {
        Err(ValidationError { expected: Token::TOKEN_LENGTH })
    }
}

} // verus!
