//! What identifies the host that a pooled connection leads to.

use vstd::prelude::*;
use vstd::std_specs::cmp::*;
use vstd::std_specs::convert::*;

use crate::text;
use crate::uri::{self, Authority, AuthorityParts, InvalidUri, Scheme, Uri};

verus! {

/// A short name for a key, handed out by a [`TokenMap`].
#[derive(Debug, Clone, Copy, PartialEq, Eq, Structural)]
pub struct Token(usize);

impl Token {
    /// The number of the token; 0 for the token that names no key.
    pub closed spec fn index(self) -> usize {
        self.0
    }

    /// The token that names no key.
    pub closed spec fn nameless() -> Self {
        Token(0)
    }

    /// The token that names no key.
    pub fn zero() -> (token: Self)
        ensures
            token == Token::nameless(),
            token.index() == 0,
    {
        Token(0)
    }

    /// Whether this is the token that names no key.
    pub fn is_zero(&self) -> (zero: bool)
        ensures
            zero == (*self == Token::nameless()),
            zero == (self.index() == 0),
    {
        self.0 == 0
    }

    /// The number of a token that names a key.
    pub fn value(&self) -> (value: Option<usize>)
        ensures
            value == (if self.index() == 0 {
                None
            } else {
                Some(self.index())
            }),
    {
        if self.0 == 0 {
            None
        } else {
            Some(self.0)
        }
    }

    pub(crate) fn number(&self) -> (number: usize)
        ensures
            number == self.index(),
    {
        self.0
    }
}

/// The token of the first key in `entries` that is equal to `key`.
pub open spec fn lookup<K: PartialEq>(entries: Seq<(K, Token)>, key: K) -> Option<Token>
    decreases entries.len(),
{
    if entries.len() == 0 {
        None
    } else if entries[0].0.eq_spec(&key) {
        Some(entries[0].1)
    } else {
        lookup(entries.skip(1), key)
    }
}

/// The number that follows `number`: 1 follows the largest, so 0 is never used.
pub open spec fn following(number: usize) -> usize {
    if number == usize::MAX {
        1
    } else {
        (number + 1) as usize
    }
}

/// Gives each key a token.
#[derive(Debug)]
pub struct TokenMap<K> {
    counter: usize,
    map: Vec<(K, Token)>,
}

impl<K> TokenMap<K> {
    /// The number of the next new token.
    pub closed spec fn upcoming(self) -> usize {
        self.counter
    }

    /// The keys with their tokens, in the order in which they came.
    pub closed spec fn entries(self) -> Seq<(K, Token)> {
        self.map@
    }

    /// Whether every token, and the next one, names a key.
    pub open spec fn valid(self) -> bool {
        &&& self.upcoming() > 0
        &&& forall|i: int|
            0 <= i < self.entries().len() ==> (#[trigger] self.entries()[i]).1.index() != 0
    }

    /// A map without keys, whose first token has the given number.
    pub fn starting_at(number: usize) -> (map: Self)
        requires
            number > 0,
        ensures
            map.valid(),
            map.upcoming() == number,
            map.entries() == Seq::<(K, Token)>::empty(),
    {
        TokenMap { counter: number, map: Vec::new() }
    }
}

impl<K> Default for TokenMap<K> {
    fn default() -> (map: Self)
        ensures
            map.valid(),
            map.upcoming() == 1,
            map.entries() == Seq::<(K, Token)>::empty(),
    {
        TokenMap { counter: 1, map: Vec::new() }
    }
}

impl<K: PartialEq> TokenMap<K> {
    /// What asking for the token of `key` makes of `before`: a key that is known
    /// has its token, and any other gets the next one.
    pub open spec fn inserted(before: Self, key: K, after: Self, token: Token) -> bool {
        match lookup(before.entries(), key) {
            Some(known) => {
                &&& token == known
                &&& after.entries() == before.entries()
                &&& after.upcoming() == before.upcoming()
            },
            None => {
                &&& token.index() == before.upcoming()
                &&& after.entries() == before.entries().push((key, token))
                &&& after.upcoming() == following(before.upcoming())
            },
        }
    }

    /// The token of `key`, which is made up where the key is new.
    pub fn insert(&mut self, key: K) -> (token: Token)
        requires
            old(self).valid(),
        ensures
            final(self).valid(),
            token.index() != 0,
            token != Token::nameless(),
            K::obeys_eq_spec() ==> Self::inserted(*old(self), key, *final(self), token),
    {
        let ghost before = *self;
        let mut i: usize = 0;
        assert(self.map@.skip(0) =~= self.map@);
        while i < self.map.len()
            invariant
                *self == before,
                before == *old(self),
                before.valid(),
                self.map@ == before.entries(),
                i <= self.map@.len(),
                K::obeys_eq_spec() ==> lookup(self.map@, key) == lookup(self.map@.skip(i as int), key),
            decreases self.map@.len() - i,
        {
            assert(self.map@.skip(i as int).skip(1) =~= self.map@.skip(i + 1));
            if self.map[i].0 == key {
                return self.map[i].1;
            }
            i = i + 1;
        }
        let token = Token(self.counter);
        self.counter = if self.counter == usize::MAX {
            1
        } else {
            self.counter + 1
        };
        self.map.push((key, token));
        token
    }
}

/// The URI used for connecting to a server is invalid.
#[derive(Debug)]
pub enum UriError {
    /// The connection string could not be parsed.
    InvalidUri(InvalidUri),
    /// The URI is missing a scheme.
    MissingScheme(Uri),
}

impl UriError {
    /// The error as text.
    pub fn to_string(&self) -> (shown: String)
        ensures
            shown@ == match self {
                UriError::InvalidUri(error) => "invalid uri: "@ + error.message@,
                UriError::MissingScheme(uri) => "missing scheme in uri: "@ + uri::written(uri@),
            },
    {
        match self {
            UriError::InvalidUri(error) => text::join("invalid uri: ", error.message.as_str()),
            UriError::MissingScheme(uri) => text::join(
                "missing scheme in uri: ",
                uri.to_string().as_str(),
            ),
        }
    }
}

/// What links a URI to a connection.
pub trait Key: Sized + Eq {
    /// Whether making a key for `uri` may give `outcome`.
    spec fn keys(uri: Uri, outcome: Result<Self, UriError>) -> bool;

    /// Makes the key for a request to `uri`.
    fn build_key(uri: &Uri) -> (outcome: Result<Self, UriError>)
        ensures
            Self::keys(*uri, outcome),
    ;
}

/// Pool key which is used to identify a connection - using scheme and authority.
#[derive(Debug)]
pub struct UriKey(pub Scheme, pub Option<Authority>);

/// How a key is written: the scheme, and the authority where there is one.
pub open spec fn key_text(scheme: Seq<char>, authority: Option<AuthorityParts>) -> Seq<char> {
    scheme + "://"@ + match authority {
        Some(authority) => authority.text,
        None => Seq::empty(),
    }
}

impl UriKey {
    /// The scheme and the authority.
    pub open spec fn parts(self) -> (Seq<char>, Option<AuthorityParts>) {
        (
            self.0@,
            match self.1 {
                Some(authority) => Some(authority@),
                None => None,
            },
        )
    }

    /// The key as text.
    pub fn to_string(&self) -> (shown: String)
        ensures
            shown@ == key_text(self.parts().0, self.parts().1),
    {
        let mut shown = text::join(self.0.as_str(), "://");
        if let Some(authority) = &self.1 {
            shown.append(authority.as_str());
        }
        assert(shown@ =~= key_text(self.parts().0, self.parts().1));
        shown
    }

    /// The key as text for a developer.
    pub fn debug_text(&self) -> (shown: String)
        ensures
            shown@ == "UriKey(\""@ + self.parts().0 + "\", "@ + match self.parts().1 {
                Some(authority) => "Some("@ + authority.text + ")"@,
                None => "None"@,
            } + ")"@,
    {
        let mut shown = text::join("UriKey(\"", self.0.as_str());
        shown.append("\", ");
        match &self.1 {
            Some(authority) => {
                shown.append(text::join(text::join("Some(", authority.as_str()).as_str(), ")").as_str());
            },
            None => {
                shown.append("None");
            },
        }
        shown.append(")");
        shown
    }

    /// Reads a URI and makes the key for it.
    pub fn parse(text: &str) -> (outcome: Result<Self, UriError>)
        ensures
            match uri::parsed_uri(text@) {
                Ok(parts) => match parts.scheme {
                    Some(scheme) => outcome matches Ok(key) && key.parts() == (
                        scheme,
                        parts.authority,
                    ),
                    None => outcome matches Err(UriError::MissingScheme(uri)) && uri@ == parts,
                },
                Err(message) => outcome matches Err(UriError::InvalidUri(error)) && error.message@
                    == message,
            },
    {
        match Uri::parse(text) {
            Ok(uri) => UriKey::try_from(uri),
            Err(error) => Err(UriError::InvalidUri(error)),
        }
    }
}

impl From<(Scheme, Authority)> for UriKey {
    fn from(value: (Scheme, Authority)) -> (key: Self) {
        UriKey(value.0, Some(value.1))
    }
}

impl FromSpecImpl<(Scheme, Authority)> for UriKey {
    open spec fn obeys_from_spec() -> bool {
        true
    }

    open spec fn from_spec(value: (Scheme, Authority)) -> Self {
        UriKey(value.0, Some(value.1))
    }
}

impl TryFrom<Uri> for UriKey {
    type Error = UriError;

    fn try_from(uri: Uri) -> (outcome: Result<Self, UriError>) {
        if uri.scheme.is_none() {
            return Err(UriError::MissingScheme(uri));
        }
        Ok(UriKey(uri.scheme.unwrap(), uri.authority))
    }
}

impl TryFromSpecImpl<Uri> for UriKey {
    open spec fn obeys_try_from_spec() -> bool {
        true
    }

    open spec fn try_from_spec(uri: Uri) -> Result<Self, UriError> {
        match uri.scheme {
            Some(scheme) => Ok(UriKey(scheme, uri.authority)),
            None => Err(UriError::MissingScheme(uri)),
        }
    }
}

impl Key for UriKey {
    open spec fn keys(uri: Uri, outcome: Result<Self, UriError>) -> bool {
        match uri@.scheme {
            Some(scheme) => outcome matches Ok(key) && key.parts() == (scheme, uri@.authority),
            None => outcome matches Err(UriError::MissingScheme(missing)) && missing@ == uri@,
        }
    }

    fn build_key(uri: &Uri) -> (outcome: Result<Self, UriError>) {
        UriKey::try_from(uri.clone())
    }
}

impl Clone for UriKey {
    fn clone(&self) -> (copy: Self)
        ensures
            copy.parts() == self.parts(),
    {
        UriKey(
            self.0.clone(),
            match &self.1 {
                Some(authority) => Some(authority.clone()),
                None => None,
            },
        )
    }
}

impl PartialEq for UriKey {
    fn eq(&self, other: &Self) -> (equal: bool) {
        self.0 == other.0 && match (&self.1, &other.1) {
            (Some(first), Some(second)) => *first == *second,
            (None, None) => true,
            _ => false,
        }
    }
}

impl Eq for UriKey {

}

impl PartialEqSpecImpl for UriKey {
    open spec fn obeys_eq_spec() -> bool {
        true
    }

    open spec fn eq_spec(&self, other: &Self) -> bool {
        uri::same_scheme(self.0@, other.0@) && match (self.1, other.1) {
            (Some(first), Some(second)) => text::lowered(first@.text) == text::lowered(second@.text),
            (None, None) => true,
            _ => false,
        }
    }
}

/// Two tokens with one number are the same token; so the one with the number 0 is the
/// one that names no key.
pub proof fn law_number_makes_the_token(first: Token, second: Token)
    ensures
        first.index() == second.index() <==> first == second,
        first.index() == 0 <==> first == Token::nameless(),
{
}

/// Whether `==` on keys goes both ways and carries over.
pub open spec fn equates<K: PartialEq>() -> bool {
    &&& forall|a: K, b: K| #[trigger] a.eq_spec(&b) ==> b.eq_spec(&a)
    &&& forall|a: K, b: K, c: K|
        #[trigger] a.eq_spec(&b) && #[trigger] b.eq_spec(&c) ==> a.eq_spec(&c)
}

/// A key that is known keeps its token, whatever was asked for in between: of any number
/// of keys that are asked for one after the other, each gets the token that an equal key
/// before it got, and the map does not change when it is asked for a key that it knows.
pub proof fn law_known_key_keeps_its_token<K: PartialEq>(
    maps: Seq<TokenMap<K>>,
    keys: Seq<K>,
    tokens: Seq<Token>,
    first: int,
    again: int,
)
    requires
        equates::<K>(),
        maps.len() == keys.len() + 1,
        tokens.len() == keys.len(),
        forall|i: int|
            0 <= i < keys.len() ==> #[trigger] TokenMap::inserted(
                maps[i],
                keys[i],
                maps[i + 1],
                tokens[i],
            ),
        0 <= first < again < keys.len(),
        keys[first].eq_spec(&keys[again]),
    ensures
        tokens[again] == tokens[first],
        maps[again + 1].entries() == maps[again].entries(),
        maps[again + 1].upcoming() == maps[again].upcoming(),
{
    let key = keys[first];
    assert(keys[again].eq_spec(&key));
    assert(key.eq_spec(&key));
    assert(TokenMap::inserted(maps[first], key, maps[first + 1], tokens[first]));
    if lookup(maps[first].entries(), key) is None {
        lemma_lookup_in_longer(maps[first].entries(), (key, tokens[first]), key);
    }
    lemma_known_after_more(maps, keys, tokens, first + 1, again, key);
    lemma_lookup_of_equal(maps[again].entries(), key, keys[again]);
    assert(TokenMap::inserted(maps[again], keys[again], maps[again + 1], tokens[again]));
}

/// What a map knows, it knows after it was asked for more.
proof fn lemma_known_after_more<K: PartialEq>(
    maps: Seq<TokenMap<K>>,
    keys: Seq<K>,
    tokens: Seq<Token>,
    start: int,
    end: int,
    key: K,
)
    requires
        maps.len() == keys.len() + 1,
        tokens.len() == keys.len(),
        forall|i: int|
            0 <= i < keys.len() ==> #[trigger] TokenMap::inserted(
                maps[i],
                keys[i],
                maps[i + 1],
                tokens[i],
            ),
        0 <= start <= end <= keys.len(),
        lookup(maps[start].entries(), key) is Some,
    ensures
        lookup(maps[end].entries(), key) == lookup(maps[start].entries(), key),
    decreases end - start,
{
    if start < end {
        lemma_known_after_more(maps, keys, tokens, start, end - 1, key);
        let before = maps[end - 1];
        assert(TokenMap::inserted(before, keys[end - 1], maps[end - 1 + 1], tokens[end - 1]));
        lemma_lookup_in_longer(before.entries(), (keys[end - 1], tokens[end - 1]), key);
    }
}

/// Equal keys are found alike.
proof fn lemma_lookup_of_equal<K: PartialEq>(entries: Seq<(K, Token)>, key: K, other: K)
    requires
        equates::<K>(),
        key.eq_spec(&other),
    ensures
        lookup(entries, key) == lookup(entries, other),
    decreases entries.len(),
{
    assert(other.eq_spec(&key));
    if entries.len() > 0 {
        assert(entries[0].0.eq_spec(&key) <==> entries[0].0.eq_spec(&other));
        lemma_lookup_of_equal(entries.skip(1), key, other);
    }
}

/// Keys of URIs are equal both ways, and equality carries over.
pub proof fn law_uri_keys_are_equated()
    ensures
        equates::<UriKey>(),
{
}

/// Looking a key up after an entry was added: what was found before is found
/// still, and otherwise the new entry decides.
proof fn lemma_lookup_in_longer<K: PartialEq>(entries: Seq<(K, Token)>, entry: (K, Token), key: K)
    ensures
        lookup(entries.push(entry), key) == match lookup(entries, key) {
            Some(token) => Some(token),
            None => if entry.0.eq_spec(&key) {
                Some(entry.1)
            } else {
                None
            },
        },
    decreases entries.len(),
{
    if entries.len() == 0 {
        assert(entries.push(entry).skip(1) =~= Seq::empty());
        assert(lookup(Seq::<(K, Token)>::empty(), key) is None);
    } else {
        assert(entries.push(entry).skip(1) =~= entries.skip(1).push(entry));
        lemma_lookup_in_longer(entries.skip(1), entry, key);
    }
}

/// Whether all tokens were handed out one after the other, without starting over.
pub open spec fn consecutive<K>(map: TokenMap<K>) -> bool {
    &&& map.upcoming() == map.entries().len() + 1
    &&& forall|i: int| 0 <= i < map.entries().len() ==> (#[trigger] map.entries()[i]).1.index() == i
        + 1
}

/// As long as the numbers have not started over, a key that is not in the map gets
/// a token that no other key has.
pub proof fn law_new_key_gets_new_token<K: PartialEq>(
    before: TokenMap<K>,
    key: K,
    after: TokenMap<K>,
    token: Token,
)
    requires
        consecutive(before),
        lookup(before.entries(), key) is None,
        TokenMap::inserted(before, key, after, token),
    ensures
        forall|i: int| 0 <= i < before.entries().len() ==> (#[trigger] before.entries()[i]).1 != token,
        before.upcoming() < usize::MAX ==> consecutive(after),
        token.index() != 0,
{
}

/// Keys that are equal are written alike: their schemes are the same but for the case of
/// letters, and the two schemes of the web to the letter; both have an authority or
/// neither has, and the authorities, as they are written, with host and port, are the
/// same but for the case of letters. Keys that are written the same are equal.
pub proof fn law_equal_keys_are_written_alike(first: UriKey, second: UriKey, equal: bool)
    requires
        call_ensures(UriKey::eq, (&first, &second), equal),
    ensures
        equal ==> first.0@.len() == second.0@.len(),
        equal ==> forall|i: int|
            0 <= i < first.0@.len() ==> {
                ||| #[trigger] first.0@[i] == second.0@[i]
                ||| 'A' <= first.0@[i] <= 'Z' && second.0@[i] as int == first.0@[i] as int + 32
                ||| 'A' <= second.0@[i] <= 'Z' && first.0@[i] as int == second.0@[i] as int + 32
            },
        equal && (first.0@ == "http"@ || first.0@ == "https"@) ==> second.0@ == first.0@,
        equal && (second.0@ == "http"@ || second.0@ == "https"@) ==> second.0@ == first.0@,
        equal ==> first.1 is Some == second.1 is Some,
        equal && first.1 is Some ==> {
            let one = first.1->0@.text;
            let two = second.1->0@.text;
            &&& one.len() == two.len()
            &&& forall|i: int|
                0 <= i < one.len() ==> {
                    ||| #[trigger] one[i] == two[i]
                    ||| 'A' <= one[i] <= 'Z' && two[i] as int == one[i] as int + 32
                    ||| 'A' <= two[i] <= 'Z' && one[i] as int == two[i] as int + 32
                }
        },
        first.0@ == second.0@ && first.1 is None && second.1 is None ==> equal,
        first.0@ == second.0@ && first.1 is Some && second.1 is Some && first.1->0@.text
            == second.1->0@.text ==> equal,
{
    if equal {
        if first.0@ != second.0@ {
            lemma_alike(first.0@, second.0@);
        }
        if first.1 is Some {
            lemma_alike(first.1->0@.text, second.1->0@.text);
        }
    }
}

/// What texts that are the same in lower case have in common.
proof fn lemma_alike(one: Seq<char>, two: Seq<char>)
    requires
        text::lowered(one) == text::lowered(two),
    ensures
        one.len() == two.len(),
        forall|i: int|
            0 <= i < one.len() ==> {
                ||| #[trigger] one[i] == two[i]
                ||| 'A' <= one[i] <= 'Z' && two[i] as int == one[i] as int + 32
                ||| 'A' <= two[i] <= 'Z' && one[i] as int == two[i] as int + 32
            },
{
    assert(text::lowered(one).len() == one.len());
    assert(text::lowered(two).len() == two.len());
    assert forall|i: int| 0 <= i < one.len() implies {
        ||| #[trigger] one[i] == two[i]
        ||| 'A' <= one[i] <= 'Z' && two[i] as int == one[i] as int + 32
        ||| 'A' <= two[i] <= 'Z' && one[i] as int == two[i] as int + 32
    } by {
        assert(text::lowered(one)[i] == text::ascii_lower(one[i]));
        assert(text::lowered(two)[i] == text::ascii_lower(two[i]));
    }
}

/// Keys for one host with different ports are not equal.
pub(crate) proof fn lemma_ports_differ(
    first: UriKey,
    second: UriKey,
    host: Seq<char>,
    same_host: Seq<char>,
    port: u16,
    other_port: u16,
)
    requires
        first.1 is Some,
        second.1 is Some,
        first.1->0@.text == host + seq![':'] + text::digits(port as nat),
        second.1->0@.text == same_host + seq![':'] + text::digits(other_port as nat),
        host.len() == same_host.len(),
        port != other_port,
    ensures
        !PartialEqSpec::eq_spec(&first, &second),
{
    if PartialEqSpec::eq_spec(&first, &second) {
        let one = first.1->0@.text;
        let two = second.1->0@.text;
        lemma_alike(one, two);
        let a = text::digits(port as nat);
        let b = text::digits(other_port as nat);
        text::law_decimal_reads_back(port as nat);
        text::law_decimal_reads_back(other_port as nat);
        assert(a.len() == b.len());
        assert forall|i: int| 0 <= i < a.len() implies a[i] == b[i] by {
            let at = host.len() + 1 + i;
            assert(one[at] == a[i] && two[at] == b[i]);
        }
        assert(a =~= b);
    }
}

/// Two keys for the same host with different ports are never equal.
pub proof fn law_ports_tell_keys_apart(
    first: UriKey,
    second: UriKey,
    equal: bool,
    host: Seq<char>,
    same_host: Seq<char>,
    port: u16,
    other_port: u16,
)
    requires
        call_ensures(UriKey::eq, (&first, &second), equal),
        first.1 is Some,
        second.1 is Some,
        first.1->0@.text == host + seq![':'] + text::digits(port as nat),
        second.1->0@.text == same_host + seq![':'] + text::digits(other_port as nat),
        host.len() == same_host.len(),
        port != other_port,
    ensures
        !equal,
{
    lemma_ports_differ(first, second, host, same_host, port, other_port);
}

/// Of any number of keys that a new map is asked for one after the other, two get the
/// same token exactly when they are equal.
pub proof fn law_tokens_tell_keys_apart<K: PartialEq>(
    maps: Seq<TokenMap<K>>,
    asked: Seq<&mut TokenMap<K>>,
    keys: Seq<K>,
    tokens: Seq<Token>,
    first: int,
    second: int,
)
    requires
        K::obeys_eq_spec(),
        equates::<K>(),
        forall|key: K| #[trigger] key.eq_spec(&key),
        maps.len() == keys.len() + 1,
        tokens.len() == keys.len(),
        keys.len() < usize::MAX,
        call_ensures(TokenMap::<K>::default, (), maps[0]),
        asked.len() == keys.len(),
        forall|i: int|
            0 <= i < keys.len() ==> *(#[trigger] asked[i]) == maps[i] && *final(asked[i]) == maps[i
                + 1] && call_ensures(TokenMap::<K>::insert, (asked[i], keys[i]), tokens[i]),
        0 <= first < second < keys.len(),
    ensures
        tokens[first] == tokens[second] <==> keys[first].eq_spec(&keys[second]),
        tokens[first] != Token::nameless(),
{
    lemma_tokens_of_keys(maps, asked, keys, tokens, keys.len() as int);
    let entries = maps[keys.len() as int].entries();
    assert(lookup(entries, keys[first]) == Some(tokens[first]));
    assert(lookup(entries, keys[second]) == Some(tokens[second]));
    if keys[first].eq_spec(&keys[second]) {
        lemma_lookup_of_equal(entries, keys[first], keys[second]);
    }
    lemma_found_key(entries, keys[first], tokens[first]);
    lemma_found_key(entries, keys[second], tokens[second]);
    let i = choose|i: int|
        0 <= i < entries.len() && (#[trigger] entries[i]).1 == tokens[first]
            && entries[i].0.eq_spec(&keys[first]);
    let j = choose|j: int|
        0 <= j < entries.len() && (#[trigger] entries[j]).1 == tokens[second]
            && entries[j].0.eq_spec(&keys[second]);
    assert(entries[i].1.index() == i + 1);
    assert(entries[j].1.index() == j + 1);
    if tokens[first] == tokens[second] {
        assert(i == j);
        assert(keys[first].eq_spec(&entries[i].0));
        assert(entries[i].0.eq_spec(&keys[second]));
    }
}

/// What a new map knows after it was asked for some keys.
proof fn lemma_tokens_of_keys<K: PartialEq>(
    maps: Seq<TokenMap<K>>,
    asked: Seq<&mut TokenMap<K>>,
    keys: Seq<K>,
    tokens: Seq<Token>,
    count: int,
)
    requires
        K::obeys_eq_spec(),
        equates::<K>(),
        forall|key: K| #[trigger] key.eq_spec(&key),
        maps.len() == keys.len() + 1,
        tokens.len() == keys.len(),
        keys.len() < usize::MAX,
        call_ensures(TokenMap::<K>::default, (), maps[0]),
        asked.len() == keys.len(),
        forall|i: int|
            0 <= i < keys.len() ==> *(#[trigger] asked[i]) == maps[i] && *final(asked[i]) == maps[i
                + 1] && call_ensures(TokenMap::<K>::insert, (asked[i], keys[i]), tokens[i]),
        0 <= count <= keys.len(),
    ensures
        consecutive(maps[count]),
        maps[count].valid(),
        maps[count].entries().len() <= count,
        forall|i: int|
            0 <= i < count ==> lookup(maps[count].entries(), #[trigger] keys[i]) == Some(tokens[i]),
    decreases count,
{
    if count > 0 {
        let last = count - 1;
        lemma_tokens_of_keys(maps, asked, keys, tokens, last);
        let key = keys[last];
        assert(*asked[last] == maps[last] && *final(asked[last]) == maps[last + 1]);
        assert(TokenMap::inserted(maps[last], key, maps[count], tokens[last]));
        assert(key.eq_spec(&key));
        let entry = (key, tokens[last]);
        assert forall|i: int| 0 <= i < count implies lookup(
            maps[count].entries(),
            #[trigger] keys[i],
        ) == Some(tokens[i]) by {
            lemma_lookup_in_longer(maps[last].entries(), entry, keys[i]);
        }
    }
}

/// What is found was found under an equal key.
proof fn lemma_found_key<K: PartialEq>(entries: Seq<(K, Token)>, key: K, token: Token)
    requires
        lookup(entries, key) == Some(token),
    ensures
        exists|i: int|
            0 <= i < entries.len() && (#[trigger] entries[i]).1 == token && entries[i].0.eq_spec(
                &key,
            ),
    decreases entries.len(),
{
    if entries[0].0.eq_spec(&key) {
        assert(entries[0].1 == token);
    } else {
        lemma_found_key(entries.skip(1), key, token);
        let i = choose|i: int|
            0 <= i < entries.skip(1).len() && (#[trigger] entries.skip(1)[i]).1 == token
                && entries.skip(1)[i].0.eq_spec(&key);
        assert(entries[i + 1] == entries.skip(1)[i]);
    }
}

/// Requests to one host on different ports get different tokens, whatever a map was asked
/// for before them and between them.
pub proof fn law_ports_have_tokens_of_their_own(
    maps: Seq<TokenMap<UriKey>>,
    asked: Seq<&mut TokenMap<UriKey>>,
    keys: Seq<UriKey>,
    tokens: Seq<Token>,
    first: int,
    second: int,
    host: Seq<char>,
    same_host: Seq<char>,
    port: u16,
    other_port: u16,
)
    requires
        maps.len() == keys.len() + 1,
        tokens.len() == keys.len(),
        keys.len() < usize::MAX,
        call_ensures(TokenMap::<UriKey>::default, (), maps[0]),
        asked.len() == keys.len(),
        forall|i: int|
            0 <= i < keys.len() ==> *(#[trigger] asked[i]) == maps[i] && *final(asked[i]) == maps[i
                + 1] && call_ensures(TokenMap::<UriKey>::insert, (asked[i], keys[i]), tokens[i]),
        0 <= first < second < keys.len(),
        keys[first].1 is Some,
        keys[second].1 is Some,
        keys[first].1->0@.text == host + seq![':'] + text::digits(port as nat),
        keys[second].1->0@.text == same_host + seq![':'] + text::digits(other_port as nat),
        host.len() == same_host.len(),
        port != other_port,
    ensures
        tokens[first] != tokens[second],
{
    law_uri_keys_are_equated();
    law_tokens_tell_keys_apart(maps, asked, keys, tokens, first, second);
    lemma_ports_differ(keys[first], keys[second], host, same_host, port, other_port);
}

/// The key for a request has the scheme and the authority of its URI, and nothing else
/// of it: a URI without a scheme has none.
pub proof fn law_key_is_scheme_and_authority(uri: Uri, outcome: Result<UriKey, UriError>)
    requires
        call_ensures(UriKey::build_key, (&uri,), outcome),
    ensures
        uri@.scheme is None <==> outcome is Err,
        outcome matches Ok(key) ==> {
            &&& uri@.scheme == Some(key.0@)
            &&& key.1 is Some <==> uri@.authority is Some
            &&& key.1 matches Some(authority) ==> uri@.authority == Some(authority@)
        },
        outcome matches Err(error) ==> (error matches UriError::MissingScheme(shown) && shown@
            == uri@),
{
}

/// Reading a key is reading a URI and making the key for it: what the text of a URI gives
/// as scheme and authority is what the key has.
pub proof fn law_read_key_is_the_key_of_the_uri(
    written: &str,
    read: Result<UriKey, UriError>,
    uri: Uri,
    made: Result<UriKey, UriError>,
)
    requires
        call_ensures(UriKey::parse, (written,), read),
        call_ensures(Uri::parse, (written,), Ok(uri)),
        call_ensures(UriKey::build_key, (&uri,), made),
    ensures
        read is Ok <==> made is Ok,
        read is Ok ==> {
            &&& read->Ok_0.0@ == made->Ok_0.0@
            &&& read->Ok_0.1 is Some <==> made->Ok_0.1 is Some
            &&& read->Ok_0.1 is Some ==> read->Ok_0.1->0@ == made->Ok_0.1->0@
        },
{
}

/// The token that names no key has no number, and every other has its own.
pub proof fn law_nameless_token_has_no_number(
    zero: Token,
    is_zero: bool,
    none: Option<usize>,
    token: Token,
    named: bool,
    value: Option<usize>,
)
    requires
        call_ensures(Token::zero, (), zero),
        call_ensures(Token::is_zero, (&zero,), is_zero),
        call_ensures(Token::value, (&zero,), none),
        call_ensures(Token::is_zero, (&token,), named),
        call_ensures(Token::value, (&token,), value),
    ensures
        is_zero,
        none is None,
        named <==> token == zero,
        value is None <==> token == zero,
        value matches Some(number) ==> number == token.index() && number != 0,
{
}

/// A key is written with its scheme, what marks its end, and its authority, and nothing else;
/// for a developer its parts are told apart.
pub proof fn law_key_is_written_from_its_parts(key: UriKey, shown: String, debug: String)
    requires
        call_ensures(UriKey::to_string, (&key,), shown),
        call_ensures(UriKey::debug_text, (&key,), debug),
    ensures
        key.1 is Some ==> shown@ == key.0@ + seq![':', '/', '/'] + key.1->0@.text && debug@
            == "UriKey(\""@ + key.0@ + "\", "@ + ("Some("@ + key.1->0@.text + ")"@) + ")"@,
        key.1 is None ==> shown@ == key.0@ + seq![':', '/', '/'] && debug@ == "UriKey(\""@ + key.0@
            + "\", "@ + "None"@ + ")"@,
{
    reveal_strlit("://");
    assert("://"@ =~= seq![':', '/', '/']);
    if key.1 is None {
        assert(shown@ =~= key.0@ + seq![':', '/', '/']);
    }
}

/// A target without a key is told with the reason: what is wrong with the text, or the whole
/// target that has no scheme.
pub proof fn law_key_error_tells_its_reason(error: UriError, shown: String, target: Uri, text: String)
    requires
        call_ensures(UriError::to_string, (&error,), shown),
        call_ensures(Uri::to_string, (&target,), text),
    ensures
        error matches UriError::InvalidUri(cause) ==> shown@ == "invalid uri: "@ + cause.message@,
        error == UriError::MissingScheme(target) ==> shown@ == "missing scheme in uri: "@ + text@,
{
}

/// A new map gives out the number that it starts at, and 1 where that is not said.
pub proof fn law_numbers_start_where_said<K: PartialEq>(
    start: usize,
    key: K,
    made: TokenMap<K>,
    token: Token,
    after: TokenMap<K>,
    plain: TokenMap<K>,
    first: Token,
    last: TokenMap<K>,
)
    requires
        K::obeys_eq_spec(),
        start > 0,
        call_ensures(TokenMap::<K>::starting_at, (start,), made),
        exists|m: &mut TokenMap<K>|
            *m == made && *final(m) == after && #[trigger] call_ensures(
                TokenMap::<K>::insert,
                (m, key),
                token,
            ),
        call_ensures(TokenMap::<K>::default, (), plain),
        exists|m: &mut TokenMap<K>|
            *m == plain && *final(m) == last && #[trigger] call_ensures(
                TokenMap::<K>::insert,
                (m, key),
                first,
            ),
    ensures
        token.index() == start,
        first.index() == 1,
{
}

/// A scheme and an authority make a key of the two, a copy of a key is written as the key,
/// and making the key of a URI gives what the URI is converted to.
pub proof fn law_key_is_made_of_its_parts(
    scheme: Scheme,
    authority: Authority,
    key: UriKey,
    copy: UriKey,
    uri: Uri,
    converted: Result<UriKey, UriError>,
    built: Result<UriKey, UriError>,
)
    requires
        call_ensures(UriKey::from, ((scheme, authority),), key),
        call_ensures(UriKey::clone, (&key,), copy),
        call_ensures(UriKey::try_from, (uri,), converted),
        call_ensures(UriKey::build_key, (&uri,), built),
    ensures
        key.0 == scheme && key.1 == Some(authority),
        copy.0@ == scheme@ && copy.1 is Some && copy.1->0@ == authority@,
        converted is Ok <==> uri.scheme is Some,
        converted matches Ok(made) ==> made.0 == uri.scheme->0 && made.1 == uri.authority,
        converted matches Err(error) ==> error == UriError::MissingScheme(uri),
        built is Ok <==> converted is Ok,
        built is Ok ==> built->Ok_0.0@ == uri.scheme->0@ && (built->Ok_0.1 is Some
            <==> uri.authority is Some) && (built->Ok_0.1 is Some ==> built->Ok_0.1->0@
            == uri.authority->0@),
{
    assert(copy.parts() == key.parts());
}

} // verus!
