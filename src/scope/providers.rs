//! The providers that each fill one part of the request context.
use vstd::prelude::*;

use crate::event::HeaderLine;
use crate::scope::{ProtocolVersion, RequestParts, Scope, ScopeError, SocketAddress};

verus! {

/// The kind of exchange a context describes.
#[derive(PartialEq, Eq, Structural, Clone, Copy, Debug)]
pub enum Type {
    HTTP,
}

impl Type {
    /// Records the kind of exchange.
    pub fn add_scope(&self, scope: &mut Scope)
        ensures
            final(scope).scope_type == Some(*self),
            *final(scope) == (Scope { scope_type: final(scope).scope_type, ..*old(scope) }),
    {
        scope.scope_type = Some(*self);
    }
}

/// Records the protocol-version metadata of the bridge.
pub struct AsgiVersion;

impl AsgiVersion {
    /// Sets the protocol-version tag, whether or not one was present.
    pub fn add_scope(&self, scope: &mut Scope)
        ensures
            final(scope).asgi_version matches Some(v) && v@ == "3.0"@,
            *final(scope) == (Scope { asgi_version: final(scope).asgi_version, ..*old(scope) }),
    {
        scope.asgi_version = Some("3.0".to_owned());
    }
}

/// The tag of a protocol version that the bridge serves.
pub open spec fn http_version_tag(v: ProtocolVersion) -> Option<Seq<char>> {
    match v {
        ProtocolVersion::Http10 => Some("1.0"@),
        ProtocolVersion::Http11 => Some("1.1"@),
        ProtocolVersion::H2 => Some("2"@),
        _ => None,
    }
}

/// Records the protocol version of the request.
pub struct HttpVersion;

impl HttpVersion {
    /// Records the version tag; a version the bridge does not serve is an
    /// error, and leaves the context as it was.
    pub fn add_scope(&self, parts: &RequestParts, scope: &mut Scope) -> (r: Result<(), ScopeError>)
        ensures
            match http_version_tag(parts.version) {
                Some(t) => r is Ok && (final(scope).http_version matches Some(v) && v@ == t),
                None => r == Err::<(), ScopeError>(ScopeError::UnsupportedHttpVersion)
                    && *final(scope) == *old(scope),
            },
            *final(scope) == (Scope { http_version: final(scope).http_version, ..*old(scope) }),
    {
        let tag = match parts.version {
            ProtocolVersion::Http10 => "1.0",
            ProtocolVersion::Http11 => "1.1",
            ProtocolVersion::H2 => "2",
            _ => {
                return Err(ScopeError::UnsupportedHttpVersion);
            },
        };
        scope.http_version = Some(tag.to_owned());
        Ok(())
    }
}

/// Whether `d` is `c` with an ASCII lower-case letter made upper case.
pub open spec fn upper_of(c: char, d: char) -> bool {
    if 'a' <= c && c <= 'z' {
        d as u32 == c as u32 - 32
    } else {
        d == c
    }
}

/// Whether `r` is `s` with every ASCII lower-case letter made upper case.
pub open spec fn ascii_upper(s: Seq<char>, r: Seq<char>) -> bool {
    r.len() == s.len() && forall|i: int| 0 <= i < s.len() ==> upper_of(s[i], #[trigger] r[i])
}

/// Relies on `str::to_ascii_uppercase`: ASCII letters 'a' to 'z' become 'A'
/// to 'Z', every other character is kept.
#[verifier::external_body]
fn to_ascii_uppercase(s: &str) -> (r: String)
    ensures
        ascii_upper(s@, r@),
{
    s.to_ascii_uppercase()
}

/// Records the request method, upper-cased.
pub struct HttpMethod;

impl HttpMethod {
    pub fn add_scope(&self, parts: &RequestParts, scope: &mut Scope)
        ensures
            final(scope).method matches Some(m) && ascii_upper(parts.method@, m@),
            *final(scope) == (Scope { method: final(scope).method, ..*old(scope) }),
    {
        scope.method = Some(to_ascii_uppercase(parts.method.as_str()));
    }
}

/// Records the scheme of the request, where it has one.
pub struct HttpScheme;

impl HttpScheme {
    pub fn add_scope(&self, parts: &RequestParts, scope: &mut Scope)
        ensures
            match parts.scheme {
                Some(s) => final(scope).scheme matches Some(t) && t@ == s@,
                None => final(scope).scheme == old(scope).scheme,
            },
            *final(scope) == (Scope { scheme: final(scope).scheme, ..*old(scope) }),
    {
        match &parts.scheme {
            Some(s) => {
                scope.scheme = Some(s.clone());
            },
            None => {},
        }
    }
}

/// Records the path of the request.
pub struct HttpPath;

impl HttpPath {
    pub fn add_scope(&self, parts: &RequestParts, scope: &mut Scope)
        ensures
            final(scope).path matches Some(p) && p@ == parts.path@,
            *final(scope) == (Scope { path: final(scope).path, ..*old(scope) }),
    {
        scope.path = Some(parts.path.clone());
    }
}

/// The percent-encoded form of a query string, in which every byte of its
/// UTF-8 encoding that is not an ASCII letter or digit is written `%XX`.
pub uninterp spec fn percent_encoded(query: Seq<char>) -> Seq<u8>;

/// Relies on `percent_encoding::utf8_percent_encode` with the
/// `NON_ALPHANUMERIC` set, whose output depends on the input alone; an empty
/// input gives an empty output.
#[verifier::external_body]
fn percent_encode(query: &str) -> (r: Vec<u8>)
    ensures
        r@ == percent_encoded(query@),
        query@.len() == 0 ==> r@.len() == 0,
{
    percent_encoding::utf8_percent_encode(query, percent_encoding::NON_ALPHANUMERIC).to_string().into_bytes()
}

/// Records the query component of the request, percent-encoded, where it
/// has one.
pub struct HttpQueryString;

impl HttpQueryString {
    pub fn add_scope(&self, parts: &RequestParts, scope: &mut Scope)
        ensures
            match parts.query {
                Some(q) => final(scope).query_string matches Some(b) && b@ == percent_encoded(q@),
                None => final(scope).query_string == old(scope).query_string,
            },
            *final(scope) == (Scope { query_string: final(scope).query_string, ..*old(scope) }),
    {
        match &parts.query {
            Some(q) => {
                scope.query_string = Some(percent_encode(q.as_str()));
            },
            None => {},
        }
    }
}

/// `b` with an ASCII upper-case letter made lower case.
pub open spec fn lower_byte(b: u8) -> u8 {
    if 65 <= b && b <= 90 {
        (b + 32) as u8
    } else {
        b
    }
}

/// `s` with every ASCII upper-case letter made lower case.
pub open spec fn lower_bytes(s: Seq<u8>) -> Seq<u8> {
    s.map_values(|b: u8| lower_byte(b))
}

/// The bytes of `s` with every ASCII upper-case letter made lower case.
pub fn to_lower_bytes(s: &Vec<u8>) -> (r: Vec<u8>)
    ensures
        r@ == lower_bytes(s@),
{
    let mut out: Vec<u8> = Vec::new();
    let mut i: usize = 0;
    while i < s.len()
        invariant
            i <= s.len(),
            out@ == lower_bytes(s@.take(i as int)),
        decreases s.len() - i,
    {
        let b = s[i];
        let l: u8 = if 65 <= b && b <= 90 {
            b + 32
        } else {
            b
        };
        out.push(l);
        assert(lower_bytes(s@.take(i as int + 1)) =~= lower_bytes(s@.take(i as int)).push(
            lower_byte(b),
        ));
        i += 1;
    }
    assert(s@.take(s.len() as int) =~= s@);
    out
}

/// The header lines of a request as the context holds them: names made
/// lower case, values kept.
pub open spec fn context_headers(hs: Seq<(Seq<u8>, Seq<u8>)>) -> Seq<(Seq<u8>, Seq<u8>)> {
    hs.map_values(|h: (Seq<u8>, Seq<u8>)| (lower_bytes(h.0), h.1))
}

/// Records the header lines of the request, names lower-cased.
pub struct HttpHeaders;

impl HttpHeaders {
    pub fn add_scope(&self, parts: &RequestParts, scope: &mut Scope)
        ensures
            final(scope).headers matches Some(hs) && crate::event::headers_view(hs@)
                == context_headers(crate::event::headers_view(parts.headers@)),
            *final(scope) == (Scope { headers: final(scope).headers, ..*old(scope) }),
    {
        let ghost src = crate::event::headers_view(parts.headers@);
        let mut out: Vec<HeaderLine> = Vec::new();
        let mut i: usize = 0;
        while i < parts.headers.len()
            invariant
                i <= parts.headers.len(),
                src == crate::event::headers_view(parts.headers@),
                crate::event::headers_view(out@) == context_headers(src.take(i as int)),
            decreases parts.headers.len() - i,
        {
            let name = to_lower_bytes(&parts.headers[i].0);
            let value = parts.headers[i].1.clone();
            assert(value@ =~= parts.headers[i as int].1@);
            let ghost before = out@;
            out.push((name, value));
            assert(src[i as int] == (parts.headers[i as int].0@, parts.headers[i as int].1@));
            assert(crate::event::headers_view(out@) =~= crate::event::headers_view(before).push(
                (name@, value@),
            ));
            assert(context_headers(src.take(i as int + 1)) =~= context_headers(src.take(i as int)).push(
                (lower_bytes(src[i as int].0), src[i as int].1),
            ));
            i += 1;
        }
        assert(src.take(parts.headers.len() as int) =~= src);
        scope.headers = Some(out);
    }
}

/// The client or server address of the exchange.
pub enum HttpAddress {
    ClientSocket(SocketAddress),
    ServerSocket(SocketAddress),
}

impl HttpAddress {
    /// Records the address under the client or the server field.
    pub fn add_scope(self, scope: &mut Scope)
        ensures
            match self {
                HttpAddress::ClientSocket(a) => final(scope).client == Some(a)
                    && *final(scope) == (Scope { client: Some(a), ..*old(scope) }),
                HttpAddress::ServerSocket(a) => final(scope).server == Some(a)
                    && *final(scope) == (Scope { server: Some(a), ..*old(scope) }),
            },
    {
        match self {
            HttpAddress::ClientSocket(a) => {
                scope.client = Some(a);
            },
            HttpAddress::ServerSocket(a) => {
                scope.server = Some(a);
            },
        }
    }
}

} // verus!
