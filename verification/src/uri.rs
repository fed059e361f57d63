//! Where a request goes: schemes, authorities, and whole URIs.

use vstd::prelude::*;
use vstd::std_specs::cmp::*;

use crate::text;

verus! {

/// A URI that could not be read, with the reason.
#[derive(Debug)]
pub struct InvalidUri {
    /// What is wrong with the URI.
    pub message: String,
}

/// The scheme of a URI, such as `http`.
#[derive(Debug)]
pub struct Scheme {
    text: String,
}

/// Whether this is one of the two schemes that have a fixed spelling.
pub open spec fn standard(scheme: Seq<char>) -> bool {
    scheme == "http"@ || scheme == "https"@
}

/// When two schemes are the same: the fixed ones to the letter, others without
/// regard to case.
pub open spec fn same_scheme(first: Seq<char>, second: Seq<char>) -> bool {
    if standard(first) || standard(second) {
        first == second
    } else {
        text::lowered(first) == text::lowered(second)
    }
}

impl View for Scheme {
    type V = Seq<char>;

    closed spec fn view(&self) -> Seq<char> {
        self.text@
    }
}

impl Scheme {
    /// The scheme `http`.
    pub fn http() -> (scheme: Self)
        ensures
            scheme@ == "http"@,
    {
        Scheme { text: "http".to_owned() }
    }

    /// The scheme `https`.
    pub fn https() -> (scheme: Self)
        ensures
            scheme@ == "https"@,
    {
        Scheme { text: "https".to_owned() }
    }

    /// The scheme spelled `text`.
    pub fn new(text: String) -> (scheme: Self)
        ensures
            scheme@ == text@,
    {
        Scheme { text }
    }

    /// How the scheme is spelled.
    pub fn as_str(&self) -> (text: &str)
        ensures
            text@ == self@,
    {
        self.text.as_str()
    }
}

impl Clone for Scheme {
    fn clone(&self) -> (copy: Self)
        ensures
            copy@ == self@,
    {
        Scheme { text: self.text.clone() }
    }
}

impl PartialEq for Scheme {
    fn eq(&self, other: &Self) -> (equal: bool) {
        let first = self.as_str();
        let second = other.as_str();
        if text::same(first, "http") || text::same(first, "https") || text::same(second, "http")
            || text::same(second, "https") {
            text::same(first, second)
        } else {
            text::same_ignoring_case(first, second)
        }
    }
}

impl Eq for Scheme {

}

impl PartialEqSpecImpl for Scheme {
    open spec fn obeys_eq_spec() -> bool {
        true
    }

    open spec fn eq_spec(&self, other: &Self) -> bool {
        same_scheme(self@, other@)
    }
}

/// What an [`Authority`] says.
pub struct AuthorityParts {
    /// The authority as it is written.
    pub text: Seq<char>,
    /// The host.
    pub host: Seq<char>,
    /// The port, where one is written.
    pub port: Option<u16>,
}

/// The authority of a URI, such as `localhost:8080`.
#[derive(Debug)]
pub struct Authority {
    text: String,
    host: String,
    port: Option<u16>,
}

impl View for Authority {
    type V = AuthorityParts;

    closed spec fn view(&self) -> AuthorityParts {
        AuthorityParts { text: self.text@, host: self.host@, port: self.port }
    }
}

/// What [`http::uri::Authority`] reads in a text: its parts, or why it is no
/// authority.
pub uninterp spec fn parsed_authority(text: Seq<char>) -> Result<AuthorityParts, Seq<char>>;

/// Reads an authority with [`http::uri::Authority`]'s `FromStr`, and takes down its
/// `as_str`, `host` and `port_u16`. The outcome depends on the text alone; what is
/// read back as text is what was given.
#[verifier::external_body]
fn parse_authority(text: &str) -> (outcome: Result<Authority, InvalidUri>)
    ensures
        match outcome {
            Ok(authority) => parsed_authority(text@) == Ok::<AuthorityParts, Seq<char>>(authority@)
                && authority@.text == text@,
            Err(error) => parsed_authority(text@) == Err::<AuthorityParts, Seq<char>>(
                error.message@,
            ),
        },
{
    match text.parse::<http::uri::Authority>() {
        Ok(found) => Ok(
            Authority {
                text: found.as_str().to_owned(),
                host: found.host().to_owned(),
                port: found.port_u16(),
            },
        ),
        Err(error) => Err(InvalidUri { message: error.to_string() }),
    }
}

impl Authority {
    /// Reads an authority.
    pub fn parse(text: &str) -> (outcome: Result<Self, InvalidUri>)
        ensures
            match outcome {
                Ok(authority) => parsed_authority(text@) == Ok::<AuthorityParts, Seq<char>>(
                    authority@,
                ) && authority@.text == text@,
                Err(error) => parsed_authority(text@) == Err::<AuthorityParts, Seq<char>>(
                    error.message@,
                ),
            },
    {
        parse_authority(text)
    }

    /// An authority with the given parts.
    pub fn from_parts(text: String, host: String, port: Option<u16>) -> (authority: Self)
        ensures
            authority@ == (AuthorityParts { text: text@, host: host@, port }),
    {
        Authority { text, host, port }
    }

    /// The authority as it is written.
    pub fn as_str(&self) -> (text: &str)
        ensures
            text@ == self@.text,
    {
        self.text.as_str()
    }

    /// The host.
    pub fn host(&self) -> (host: &str)
        ensures
            host@ == self@.host,
    {
        self.host.as_str()
    }

    /// The port, where one is written.
    pub fn port_u16(&self) -> (port: Option<u16>)
        ensures
            port == self@.port,
    {
        self.port
    }
}

impl Clone for Authority {
    fn clone(&self) -> (copy: Self)
        ensures
            copy@ == self@,
    {
        Authority { text: self.text.clone(), host: self.host.clone(), port: self.port }
    }
}

impl PartialEq for Authority {
    fn eq(&self, other: &Self) -> (equal: bool) {
        text::same_ignoring_case(self.as_str(), other.as_str())
    }
}

impl Eq for Authority {

}

impl PartialEqSpecImpl for Authority {
    open spec fn obeys_eq_spec() -> bool {
        true
    }

    open spec fn eq_spec(&self, other: &Self) -> bool {
        text::lowered(self@.text) == text::lowered(other@.text)
    }
}

/// What a [`Uri`] says.
pub struct UriParts {
    /// The scheme.
    pub scheme: Option<Seq<char>>,
    /// The authority.
    pub authority: Option<AuthorityParts>,
    /// The path.
    pub path: Seq<char>,
    /// What follows the question mark.
    pub query: Option<Seq<char>>,
}

/// A URI.
#[derive(Debug)]
pub struct Uri {
    /// The scheme.
    pub scheme: Option<Scheme>,
    /// The authority.
    pub authority: Option<Authority>,
    /// The path.
    pub path: String,
    /// What follows the question mark.
    pub query: Option<String>,
}

impl View for Uri {
    type V = UriParts;

    open spec fn view(&self) -> UriParts {
        UriParts {
            scheme: match self.scheme {
                Some(scheme) => Some(scheme@),
                None => None,
            },
            authority: match self.authority {
                Some(authority) => Some(authority@),
                None => None,
            },
            path: self.path@,
            query: match self.query {
                Some(query) => Some(query@),
                None => None,
            },
        }
    }
}

/// What [`http::Uri`] reads in a text: its parts, or why it is no URI.
pub uninterp spec fn parsed_uri(text: Seq<char>) -> Result<UriParts, Seq<char>>;

/// Reads a URI with [`http::Uri`]'s `FromStr`, and takes down its `scheme_str`,
/// `authority` (with its `as_str`, `host` and `port_u16`), `path` and `query`. The
/// outcome depends on the text alone.
#[verifier::external_body]
fn parse_uri(text: &str) -> (outcome: Result<Uri, InvalidUri>)
    ensures
        match outcome {
            Ok(uri) => parsed_uri(text@) == Ok::<UriParts, Seq<char>>(uri@),
            Err(error) => parsed_uri(text@) == Err::<UriParts, Seq<char>>(error.message@),
        },
{
    let found = text.parse::<http::Uri>().map_err(|e| InvalidUri { message: e.to_string() })?;
    let authority = found.authority().map(
        |a| Authority { text: a.as_str().to_owned(), host: a.host().to_owned(), port: a.port_u16() },
    );
    Ok(
        Uri {
            scheme: found.scheme_str().map(|s| Scheme { text: s.to_owned() }),
            authority,
            path: found.path().to_owned(),
            query: found.query().map(|q| q.to_owned()),
        },
    )
}

/// A text with something in front of it, where there is a text.
pub open spec fn prefixed(prefix: Seq<char>, text: Option<Seq<char>>) -> Seq<char> {
    match text {
        Some(text) => prefix + text,
        None => Seq::empty(),
    }
}

/// A text with something behind it, where there is a text.
pub open spec fn suffixed(text: Option<Seq<char>>, suffix: Seq<char>) -> Seq<char> {
    match text {
        Some(text) => text + suffix,
        None => Seq::empty(),
    }
}

/// A URI written out.
pub open spec fn written(uri: UriParts) -> Seq<char> {
    suffixed(uri.scheme, "://"@) + (match uri.authority {
        Some(authority) => authority.text,
        None => Seq::empty(),
    }) + uri.path + prefixed("?"@, uri.query)
}

impl Uri {
    /// Reads a URI.
    pub fn parse(text: &str) -> (outcome: Result<Self, InvalidUri>)
        ensures
            match outcome {
                Ok(uri) => parsed_uri(text@) == Ok::<UriParts, Seq<char>>(uri@),
                Err(error) => parsed_uri(text@) == Err::<UriParts, Seq<char>>(error.message@),
            },
    {
        parse_uri(text)
    }

    /// The scheme as text.
    pub fn scheme_str(&self) -> (scheme: Option<&str>)
        ensures
            scheme is Some <==> self@.scheme is Some,
            scheme matches Some(text) ==> text@ == self@.scheme->0,
    {
        match &self.scheme {
            Some(scheme) => Some(scheme.as_str()),
            None => None,
        }
    }

    /// The host, where there is an authority.
    pub fn host(&self) -> (host: Option<&str>)
        ensures
            host is Some <==> self@.authority is Some,
            host matches Some(text) ==> text@ == self@.authority->0.host,
    {
        match &self.authority {
            Some(authority) => Some(authority.host()),
            None => None,
        }
    }

    /// The port, where one is written.
    pub fn port_u16(&self) -> (port: Option<u16>)
        ensures
            port == match self@.authority {
                Some(authority) => authority.port,
                None => None,
            },
    {
        match &self.authority {
            Some(authority) => authority.port_u16(),
            None => None,
        }
    }

    /// The URI as text.
    pub fn to_string(&self) -> (shown: String)
        ensures
            shown@ == written(self@),
    {
        let mut shown = String::new();
        if let Some(scheme) = &self.scheme {
            shown.append(scheme.as_str());
            shown.append("://");
        }
        if let Some(authority) = &self.authority {
            shown.append(authority.as_str());
        }
        shown.append(self.path.as_str());
        if let Some(query) = &self.query {
            shown.append("?");
            shown.append(query.as_str());
        }
        assert(shown@ =~= written(self@));
        shown
    }
}

impl Clone for Uri {
    fn clone(&self) -> (copy: Self)
        ensures
            copy@ == self@,
    {
        Uri {
            scheme: match &self.scheme {
                Some(scheme) => Some(scheme.clone()),
                None => None,
            },
            authority: match &self.authority {
                Some(authority) => Some(authority.clone()),
                None => None,
            },
            path: self.path.clone(),
            query: match &self.query {
                Some(query) => Some(query.clone()),
                None => None,
            },
        }
    }
}

/// An authority says what it was made of, and so does a copy of it.
pub proof fn law_authority_says_its_parts(
    text: String,
    host: String,
    port: Option<u16>,
    authority: Authority,
    copy: Authority,
    said: Authority,
    said_text: &str,
    said_host: &str,
    said_port: Option<u16>,
)
    requires
        call_ensures(Authority::from_parts, (text, host, port), authority),
        call_ensures(Authority::clone, (&authority,), copy),
        said == authority || said == copy,
        call_ensures(Authority::as_str, (&said,), said_text),
        call_ensures(Authority::host, (&said,), said_host),
        call_ensures(Authority::port_u16, (&said,), said_port),
    ensures
        said_text@ == text@,
        said_host@ == host@,
        said_port == port,
{
}

/// A URI has the scheme, the host and the port of its parts, and a copy of it has the same.
pub proof fn law_uri_says_its_parts(
    scheme: String,
    made: Scheme,
    text: String,
    host: String,
    port: Option<u16>,
    authority: Authority,
    uri: Uri,
    copy: Uri,
    said: Uri,
    said_scheme: Option<&str>,
    said_host: Option<&str>,
    said_port: Option<u16>,
)
    requires
        call_ensures(Scheme::new, (scheme,), made),
        call_ensures(Authority::from_parts, (text, host, port), authority),
        uri.scheme == Some(made),
        uri.authority == Some(authority),
        call_ensures(Uri::clone, (&uri,), copy),
        said == uri || said == copy,
        call_ensures(Uri::scheme_str, (&said,), said_scheme),
        call_ensures(Uri::host, (&said,), said_host),
        call_ensures(Uri::port_u16, (&said,), said_port),
    ensures
        said_scheme matches Some(found) && found@ == scheme@,
        said_host matches Some(found) && found@ == host@,
        said_port == port,
        said.path@ == uri.path@,
        uri.query is None <==> said.query is None,
        uri.query is Some ==> said.query->0@ == uri.query->0@,
{
    assert(copy@.scheme == uri@.scheme);
    assert(copy@.authority == uri@.authority);
    assert(copy@.path == uri@.path);
    assert(copy@.query == uri@.query);
}

/// A URI without a scheme or an authority says so, and has no host and no port without an
/// authority.
pub proof fn law_missing_parts_are_missing(
    uri: Uri,
    scheme: Option<&str>,
    host: Option<&str>,
    port: Option<u16>,
)
    requires
        call_ensures(Uri::scheme_str, (&uri,), scheme),
        call_ensures(Uri::host, (&uri,), host),
        call_ensures(Uri::port_u16, (&uri,), port),
    ensures
        scheme is None <==> uri.scheme is None,
        host is None <==> uri.authority is None,
        uri.authority is None ==> port is None,
{
}

/// A URI is written as its parts in order: the scheme and what marks its end, the authority,
/// the path, and a question mark and the query; a part that is missing leaves nothing.
pub proof fn law_uri_is_written_in_order(
    scheme: String,
    made: Scheme,
    text: String,
    host: String,
    port: Option<u16>,
    authority: Authority,
    whole: Uri,
    written_whole: String,
    bare: Uri,
    written_bare: String,
)
    requires
        call_ensures(Scheme::new, (scheme,), made),
        call_ensures(Authority::from_parts, (text, host, port), authority),
        whole.scheme == Some(made),
        whole.authority == Some(authority),
        whole.query is Some,
        call_ensures(Uri::to_string, (&whole,), written_whole),
        bare.scheme is None,
        bare.authority is None,
        bare.query is None,
        call_ensures(Uri::to_string, (&bare,), written_bare),
    ensures
        written_whole@ == scheme@ + seq![':', '/', '/'] + text@ + whole.path@ + seq!['?']
            + whole.query->0@,
        written_bare@ == bare.path@,
{
    reveal_strlit("://");
    reveal_strlit("?");
    assert("://"@ =~= seq![':', '/', '/']);
    assert("?"@ =~= seq!['?']);
    assert(written_whole@ =~= scheme@ + seq![':', '/', '/'] + text@ + whole.path@ + seq!['?']
        + whole.query->0@);
    assert(written_bare@ =~= bare.path@);
}

proof fn lemma_lowered_alike(first: Seq<char>, second: Seq<char>)
    ensures
        text::lowered(first) == text::lowered(second) <==> {
            &&& first.len() == second.len()
            &&& forall|i: int|
                0 <= i < first.len() ==> {
                    ||| #[trigger] first[i] == second[i]
                    ||| 'A' <= first[i] <= 'Z' && second[i] as int == first[i] as int + 32
                    ||| 'A' <= second[i] <= 'Z' && first[i] as int == second[i] as int + 32
                }
        },
{
    let one = text::lowered(first);
    let other = text::lowered(second);
    assert(one.len() == first.len() && other.len() == second.len());
    assert(forall|i: int|
        0 <= i < first.len() ==> one[i] == text::ascii_lower(#[trigger] first[i]));
    assert(forall|i: int|
        0 <= i < second.len() ==> other[i] == text::ascii_lower(#[trigger] second[i]));
    if one == other {
        assert forall|i: int| 0 <= i < first.len() implies {
            ||| #[trigger] first[i] == second[i]
            ||| 'A' <= first[i] <= 'Z' && second[i] as int == first[i] as int + 32
            ||| 'A' <= second[i] <= 'Z' && first[i] as int == second[i] as int + 32
        } by {
            assert(one[i] == other[i]);
            assert(text::ascii_lower(first[i]) == text::ascii_lower(second[i]));
        }
    }
    if first.len() == second.len() && (forall|i: int|
        0 <= i < first.len() ==> {
            ||| #[trigger] first[i] == second[i]
            ||| 'A' <= first[i] <= 'Z' && second[i] as int == first[i] as int + 32
            ||| 'A' <= second[i] <= 'Z' && first[i] as int == second[i] as int + 32
        }) {
        assert forall|i: int| 0 <= i < one.len() implies one[i] == other[i] by {
            assert(one[i] == text::ascii_lower(first[i]));
            assert(other[i] == text::ascii_lower(second[i]));
        }
        assert(one =~= other);
    }
}

/// Two authorities are the same when they are written with the same characters, but for the
/// case of ASCII letters.
pub proof fn law_authorities_are_compared_as_written(
    first: (String, String, Option<u16>),
    second: (String, String, Option<u16>),
    one: Authority,
    other: Authority,
    equal: bool,
)
    requires
        call_ensures(Authority::from_parts, (first.0, first.1, first.2), one),
        call_ensures(Authority::from_parts, (second.0, second.1, second.2), other),
        call_ensures(Authority::eq, (&one, &other), equal),
    ensures
        equal <==> {
            &&& first.0@.len() == second.0@.len()
            &&& forall|i: int|
                0 <= i < first.0@.len() ==> {
                    ||| #[trigger] first.0@[i] == second.0@[i]
                    ||| 'A' <= first.0@[i] <= 'Z' && second.0@[i] as int == first.0@[i] as int + 32
                    ||| 'A' <= second.0@[i] <= 'Z' && first.0@[i] as int == second.0@[i] as int
                        + 32
                }
        },
{
    lemma_lowered_alike(first.0@, second.0@);
}

/// Two schemes are the same when they are written with the same characters. The two that
/// have a fixed spelling are the same as nothing else; for others the case of ASCII letters
/// does not count.
pub proof fn law_schemes_are_compared_as_written(
    first: String,
    second: String,
    one: Scheme,
    other: Scheme,
    equal: bool,
)
    requires
        call_ensures(Scheme::new, (first,), one),
        call_ensures(Scheme::new, (second,), other),
        call_ensures(Scheme::eq, (&one, &other), equal),
    ensures
        first@ == second@ ==> equal,
        first@ == seq!['h', 't', 't', 'p'] || first@ == seq!['h', 't', 't', 'p', 's'] || second@
            == seq!['h', 't', 't', 'p'] || second@ == seq!['h', 't', 't', 'p', 's'] ==> (equal
            <==> first@ == second@),
        equal ==> first@.len() == second@.len(),
        forall|i: int|
            equal && 0 <= i < first@.len() ==> {
                ||| #[trigger] first@[i] == second@[i]
                ||| 'A' <= first@[i] <= 'Z' && second@[i] as int == first@[i] as int + 32
                ||| 'A' <= second@[i] <= 'Z' && first@[i] as int == second@[i] as int + 32
            },
        !equal && first@.len() == second@.len() && !(first@ == seq!['h', 't', 't', 'p'] || first@
            == seq!['h', 't', 't', 'p', 's'] || second@ == seq!['h', 't', 't', 'p'] || second@
            == seq!['h', 't', 't', 'p', 's']) ==> exists|i: int|
            0 <= i < first@.len() && #[trigger] first@[i] != second@[i] && !('A' <= first@[i]
                <= 'Z' && second@[i] as int == first@[i] as int + 32) && !('A' <= second@[i] <= 'Z'
                && first@[i] as int == second@[i] as int + 32),
{
    reveal_strlit("http");
    reveal_strlit("https");
    assert("http"@ =~= seq!['h', 't', 't', 'p']);
    assert("https"@ =~= seq!['h', 't', 't', 'p', 's']);
    lemma_lowered_alike(first@, second@);
}

/// The schemes with a fixed spelling are spelled so.
pub proof fn law_fixed_schemes_are_spelled_so(http: Scheme, https: Scheme, one: &str, other: &str)
    requires
        call_ensures(Scheme::http, (), http),
        call_ensures(Scheme::https, (), https),
        call_ensures(Scheme::as_str, (&http,), one),
        call_ensures(Scheme::as_str, (&https,), other),
    ensures
        one@ == seq!['h', 't', 't', 'p'],
        other@ == seq!['h', 't', 't', 'p', 's'],
{
    reveal_strlit("http");
    reveal_strlit("https");
    assert(one@ =~= seq!['h', 't', 't', 'p']);
    assert(other@ =~= seq!['h', 't', 't', 'p', 's']);
}

/// What is read goes by the text alone: one text is read in one way, with the parts that
/// stand in it, and an authority is written as it was read.
pub proof fn law_reading_goes_by_the_text(
    text: &str,
    first: Result<Uri, InvalidUri>,
    second: Result<Uri, InvalidUri>,
    one: Result<Authority, InvalidUri>,
    other: Result<Authority, InvalidUri>,
)
    requires
        call_ensures(Uri::parse, (text,), first),
        call_ensures(Uri::parse, (text,), second),
        call_ensures(Authority::parse, (text,), one),
        call_ensures(Authority::parse, (text,), other),
    ensures
        first is Ok <==> parsed_uri(text@) is Ok,
        first is Ok <==> second is Ok,
        first is Ok ==> first->Ok_0@ == second->Ok_0@ && first->Ok_0@ == parsed_uri(text@)->Ok_0,
        first is Err ==> first->Err_0.message@ == parsed_uri(text@)->Err_0,
        one is Ok <==> parsed_authority(text@) is Ok,
        one is Ok <==> other is Ok,
        one is Ok ==> one->Ok_0@ == other->Ok_0@ && one->Ok_0@.text == text@ && one->Ok_0@
            == parsed_authority(text@)->Ok_0,
        one is Err ==> one->Err_0.message@ == parsed_authority(text@)->Err_0,
{
}

} // verus!
