//! The request context (the ASGI scope) handed to the application task.
pub mod providers;

use vstd::prelude::*;
use vstd::string::StringExecFns;

use crate::event::HeaderLine;
use crate::scope::providers::{
    ascii_upper, context_headers, http_version_tag, percent_encoded, AsgiVersion, HttpAddress,
    HttpHeaders, HttpMethod, HttpPath, HttpQueryString, HttpScheme, HttpVersion, Type,
};

verus! {

/// The protocol version of a request.
#[derive(PartialEq, Eq, Structural, Clone, Copy, Debug)]
pub enum ProtocolVersion {
    Http09,
    Http10,
    Http11,
    H2,
    H3,
}

/// A socket address: an IP address in text form and a port.
pub struct SocketAddress {
    pub ip: String,
    pub port: u16,
}

/// The metadata of a request, as the transport gives it.
pub struct RequestParts {
    pub method: String,
    pub version: ProtocolVersion,
    pub scheme: Option<String>,
    pub path: String,
    pub query: Option<String>,
    pub headers: Vec<HeaderLine>,
}

/// Why a context could not be built.
#[derive(PartialEq, Eq, Structural, Clone, Copy, Debug)]
pub enum ScopeError {
    /// The request's protocol version is not one the bridge serves.
    UnsupportedHttpVersion,
}

/// The request context. Each field is filled by one provider; a field that
/// no provider filled is absent.
pub struct Scope {
    pub scope_type: Option<Type>,
    pub asgi_version: Option<String>,
    pub http_version: Option<String>,
    pub method: Option<String>,
    pub scheme: Option<String>,
    pub path: Option<String>,
    pub query_string: Option<Vec<u8>>,
    pub headers: Option<Vec<HeaderLine>>,
    pub client: Option<SocketAddress>,
    pub server: Option<SocketAddress>,
}

impl Scope {
    /// A context with no field filled.
    pub fn new() -> (r: Scope)
        ensures
            r.scope_type.is_none(),
            r.asgi_version.is_none(),
            r.http_version.is_none(),
            r.method.is_none(),
            r.scheme.is_none(),
            r.path.is_none(),
            r.query_string.is_none(),
            r.headers.is_none(),
            r.client.is_none(),
            r.server.is_none(),
    {
        Scope {
            scope_type: None,
            asgi_version: None,
            http_version: None,
            method: None,
            scheme: None,
            path: None,
            query_string: None,
            headers: None,
            client: None,
            server: None,
        }
    }
}

/// The name of a protocol version, as it appears in a status line.
pub open spec fn version_name(v: ProtocolVersion) -> Seq<char> {
    match v {
        ProtocolVersion::Http09 => "0.9"@,
        ProtocolVersion::Http10 => "1.0"@,
        ProtocolVersion::Http11 => "1.1"@,
        ProtocolVersion::H2 => "2"@,
        ProtocolVersion::H3 => "3"@,
    }
}

/// The protocol version as it appears in a status line, such as `HTTP/1.1`.
pub fn version_as_string(version: &ProtocolVersion) -> (r: String)
    ensures
        r@ == "HTTP/"@ + version_name(*version),
{
    let name = match version {
        ProtocolVersion::Http09 => "0.9",
        ProtocolVersion::Http10 => "1.0",
        ProtocolVersion::Http11 => "1.1",
        ProtocolVersion::H2 => "2",
        ProtocolVersion::H3 => "3",
    };
    let mut r = "HTTP/".to_owned();
    r.append(name);
    r
}

/// Whether `s` is the context of a request with metadata `parts`, from
/// `client` to `server`.
pub open spec fn context_of(s: Scope, parts: RequestParts, client: SocketAddress, server: SocketAddress) -> bool {
    &&& s.scope_type == Some(Type::HTTP)
    &&& s.asgi_version matches Some(v) && v@ == "3.0"@
    &&& s.http_version matches Some(v) && http_version_tag(parts.version) == Some(v@)
    &&& s.method matches Some(m) && ascii_upper(parts.method@, m@)
    &&& match parts.scheme {
        Some(a) => s.scheme matches Some(b) && b@ == a@,
        None => s.scheme is None,
    }
    &&& s.path matches Some(p) && p@ == parts.path@
    &&& match parts.query {
        Some(q) => s.query_string matches Some(b) && b@ == percent_encoded(q@),
        None => s.query_string is None,
    }
    &&& s.headers matches Some(hs) && crate::event::headers_view(hs@) == context_headers(
        crate::event::headers_view(parts.headers@),
    )
    &&& s.client == Some(client)
    &&& s.server == Some(server)
}

/// Builds the context of a request: every provider fills its field in
/// turn. A protocol version that the bridge does not serve is an error.
pub fn build(parts: &RequestParts, client: SocketAddress, server: SocketAddress) -> (r: Result<Scope, ScopeError>)
    ensures
        r is Ok <==> http_version_tag(parts.version) is Some,
        r matches Err(e) ==> e == ScopeError::UnsupportedHttpVersion,
        r matches Ok(s) ==> context_of(s, *parts, client, server),
{
    let mut scope = Scope::new();
    Type::HTTP.add_scope(&mut scope);
    HttpAddress::ClientSocket(client).add_scope(&mut scope);
    HttpAddress::ServerSocket(server).add_scope(&mut scope);
    match HttpVersion.add_scope(parts, &mut scope) {
        Ok(()) => {},
        Err(e) => {
            return Err(e);
        },
    }
    HttpScheme.add_scope(parts, &mut scope);
    HttpMethod.add_scope(parts, &mut scope);
    HttpPath.add_scope(parts, &mut scope);
    HttpQueryString.add_scope(parts, &mut scope);
    HttpHeaders.add_scope(parts, &mut scope);
    AsgiVersion.add_scope(&mut scope);
    Ok(scope)
}

} // verus!
