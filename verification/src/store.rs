//! The in-memory authority that binds tokens to URLs.
//!
//! Registration draws one token and binds it, whatever the token was bound
//! to before: on a collision the later URL replaces the earlier one.

use crate::token::{is_alphanumeric_text, Token, ValidationError};
use url::Url;
use vstd::hash_map::StringHashMap;
use vstd::prelude::*;

verus! {

/// A parsed URL of the `url` crate. The store carries such values through
/// and never looks inside one.
#[verifier::external_type_specification]
#[verifier::external_body]
pub struct ExUrl(url::Url);

/// `Url::clone` is the derived field-by-field copy: the copy is the same
/// URL as the original.
pub assume_specification[ <Url as Clone>::clone ](url: &Url) -> (copy: Url)
    ensures
        copy == *url,
;

/// Why a registration failed.
#[derive(Debug, Clone, Copy, PartialEq, Eq, Structural)]
pub enum RegistrationError {
    /// No free token was found. A store that overwrites on collision, as
    /// this one does, never reports it.
    Exhausted,
}

/// Why a token text did not resolve.
#[derive(Debug, Clone, Copy, PartialEq, Eq, Structural)]
pub enum ResolutionError {
    /// The text is not a token.
    InvalidToken(ValidationError),
    /// The text is a token that nothing is bound to.
    NotFound,
}

/// The entries of a store as a map from token text to URL.
pub type Entries = Map<Seq<char>, Url>;

/// What resolving `input` against `entries` gives: the parse error for a
/// text that is no token, `NotFound` for a token without an entry, else the
/// URL bound to it.
pub open spec fn resolve_spec(entries: Entries, input: Seq<char>) -> Result<Url, ResolutionError> {
    match Token::parse_spec(input) {
        Err(error) => Err(ResolutionError::InvalidToken(error)),
        Ok(text) => if entries.contains_key(text) {
            Ok(entries[text])
        } else {
            Err(ResolutionError::NotFound)
        },
    }
}

/// The entries after `url` was registered under the token `text`.
pub open spec fn register_spec(entries: Entries, text: Seq<char>, url: Url) -> Entries {
    entries.insert(text, url)
}

/// Whether every key of `entries` is the text of a generated token: six
/// characters long and alphanumeric.
pub open spec fn keys_are_tokens(entries: Entries) -> bool {
    forall|text: Seq<char>| #[trigger]
        entries.contains_key(text) ==> text.len() == Token::TOKEN_LENGTH
            && is_alphanumeric_text(text)
}

/// What was registered under a token resolves from that token's text.
pub proof fn lemma_registered_url_resolves(entries: Entries, text: Seq<char>, url: Url)
    requires
        text.len() == Token::TOKEN_LENGTH,
    ensures
        resolve_spec(register_spec(entries, text, url), text) == Ok::<Url, ResolutionError>(url),
{
}

/// When two registrations get the same token, the later one wins: the
/// token resolves to its URL, and nothing of the earlier one is left.
pub proof fn lemma_later_registration_wins(
    entries: Entries,
    text: Seq<char>,
    first: Url,
    second: Url,
)
    requires
        text.len() == Token::TOKEN_LENGTH,
    ensures
        resolve_spec(register_spec(register_spec(entries, text, first), text, second), text)
            == Ok::<Url, ResolutionError>(second),
        register_spec(register_spec(entries, text, first), text, second) == register_spec(
            entries,
            text,
            second,
        ),
{
    assert(entries.insert(text, first).insert(text, second) =~= entries.insert(text, second));
}

/// A registration changes what its own token resolves to and nothing else.
pub proof fn lemma_registration_leaves_other_texts(
    entries: Entries,
    text: Seq<char>,
    url: Url,
    other: Seq<char>,
)
    requires
        other != text,
    ensures
        resolve_spec(register_spec(entries, text, url), other) == resolve_spec(entries, other),
{
}

/// After two registrations under different tokens, each token resolves to
/// its own URL.
pub proof fn lemma_distinct_tokens_resolve_apart(
    entries: Entries,
    first_text: Seq<char>,
    first: Url,
    second_text: Seq<char>,
    second: Url,
)
    requires
        first_text.len() == Token::TOKEN_LENGTH,
        second_text.len() == Token::TOKEN_LENGTH,
        first_text != second_text,
    ensures
        ({
            let after = register_spec(
                register_spec(entries, first_text, first),
                second_text,
                second,
            );
            &&& resolve_spec(after, first_text) == Ok::<Url, ResolutionError>(first)
            &&& resolve_spec(after, second_text) == Ok::<Url, ResolutionError>(second)
        }),
{
}

/// Nothing resolves against the empty store: a text of six characters is
/// not found, any other text is no token.
pub proof fn lemma_empty_store_resolves_nothing(input: Seq<char>)
    ensures
        resolve_spec(Entries::empty(), input) is Err,
        input.len() == Token::TOKEN_LENGTH ==> resolve_spec(Entries::empty(), input) == Err::<
            Url,
            ResolutionError,
        >(ResolutionError::NotFound),
{
}

/// A text whose length is not that of a token resolves against no store.
pub proof fn lemma_wrong_length_never_resolves(entries: Entries, input: Seq<char>)
    requires
        input.len() != Token::TOKEN_LENGTH,
    ensures
        resolve_spec(entries, input) == Err::<Url, ResolutionError>(
            ResolutionError::InvalidToken(ValidationError { expected: Token::TOKEN_LENGTH }),
        ),
{
}

/// Registering under the text of a generated token keeps every key the
/// text of a generated token.
pub proof fn lemma_registration_keeps_keys_tokens(entries: Entries, text: Seq<char>, url: Url)
    requires
        keys_are_tokens(entries),
        text.len() == Token::TOKEN_LENGTH,
        is_alphanumeric_text(text),
    ensures
        keys_are_tokens(register_spec(entries, text, url)),
{
}

/// The operations that a request handler needs of a store. The trait
/// carries no contract, so that a stand-in written in ordinary Rust can
/// implement it; `Store` states its own on each method.
pub trait StoreAccess {
    /// Binds a fresh token to `url` and returns the token.
    fn register_url(&mut self, url: Url) -> Result<Token, RegistrationError>;

    /// The URL bound to the token that `token` spells.
    fn resolve_token(&self, token: &str) -> Result<Url, ResolutionError>;
}

/// The mapping from token to URL, memory-resident and empty at first.
pub struct Store {
    items: StringHashMap<Url>,
}

impl View for Store {
    type V = Entries;

    closed spec fn view(&self) -> Entries {
        self.items@
    }
}

impl Store {
    #[verifier::type_invariant]
    pub closed spec fn well_formed(&self) -> bool {
        keys_are_tokens(self.items@) && self.items@.dom().finite()
    }

    /// Number of entries.
    pub fn len(&self) -> (count: usize)
        ensures
            count == self@.len(),
            self@.dom().finite(),
            keys_are_tokens(self@),
    {
        proof {
            use_type_invariant(self);
        }
        self.items.len()
    }

    /// The URL bound to `token`, if any.
    pub fn get(&self, token: &Token) -> (found: Option<&Url>)
        ensures
            found is Some <==> self@.contains_key(token@),
            found matches Some(url) ==> *url == self@[token@],
            keys_are_tokens(self@),
    {
        proof {
            use_type_invariant(self);
        }
        self.items.get(token.as_str())
    }

    /// Binds `token` to `url`. An earlier binding of the same token is
    /// replaced; every other entry stays.
    pub fn insert(&mut self, token: Token, url: Url)
        requires
            is_alphanumeric_text(token@),
        ensures
            final(self)@ == register_spec(old(self)@, token@, url),
            keys_are_tokens(final(self)@),
    {
        proof {
            use_type_invariant(&*self);
        }
        // The map is taken out of the store while it changes, and put back
        // once the invariant holds of it again.
        let mut taken = Store::default();
        core::mem::swap(self, &mut taken);
        proof {
            use_type_invariant(&taken);
        }
        let Store { items } = taken;
        let mut items = items;
        items.insert(token.to_string(), url);
        let mut updated = Store { items };
        core::mem::swap(self, &mut updated);
    }
}

impl Default for Store {
    /// The store without entries.
    fn default() -> (store: Self)
        ensures
            store@ == Entries::empty(),
            keys_are_tokens(store@),
    {
        Store { items: StringHashMap::new() }
    }
}

impl StoreAccess for Store {
    /// Draws a fresh token and binds it to `url`. This always succeeds. The
    /// token is not checked against the entries: had it been bound before,
    /// it is bound to `url` from now on.
    fn register_url(&mut self, url: Url) -> (registered: Result<Token, RegistrationError>)
        ensures
            registered is Ok,
            registered matches Ok(token) ==> {
                &&& token@.len() == Token::TOKEN_LENGTH
                &&& is_alphanumeric_text(token@)
                &&& final(self)@ == register_spec(old(self)@, token@, url)
                &&& resolve_spec(final(self)@, token@) == Ok::<Url, ResolutionError>(url)
            },
            keys_are_tokens(final(self)@),
    {
        let token = Token::default();
        self.insert(token.clone(), url);
        Ok(token)
    }

    /// Looks `token` up. Nothing changes.
    fn resolve_token(&self, token: &str) -> (resolved: Result<Url, ResolutionError>)
        ensures
            resolved == resolve_spec(self@, token@),
            keys_are_tokens(self@),
    {
        proof {
            use_type_invariant(self);
        }
        match Token::try_from(token) {
            Err(error) => Err(ResolutionError::InvalidToken(error)),
            Ok(parsed) => match self.get(&parsed) {
                Some(url) => Ok(url.clone()),
                None => Err(ResolutionError::NotFound),
            },
        }
    }
}

} // verus!
