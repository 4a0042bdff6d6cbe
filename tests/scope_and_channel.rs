use asgi_server::channel::{Mailbox, Offer, Take};
use asgi_server::event::{Event, EventKind};
use asgi_server::scope::providers::Type;
use asgi_server::scope::{build, version_as_string, ProtocolVersion, RequestParts, ScopeError, SocketAddress};

fn addr(ip: &str, port: u16) -> SocketAddress {
    SocketAddress { ip: ip.to_string(), port }
}

fn parts(version: ProtocolVersion, query: Option<&str>) -> RequestParts {
    RequestParts {
        method: "get".to_string(),
        version,
        scheme: Some("http".to_string()),
        path: "/a/b".to_string(),
        query: query.map(|q| q.to_string()),
        headers: vec![(b"Host".to_vec(), b"Example.com".to_vec())],
    }
}

#[test]
fn context_is_built_from_request_metadata() {
    let s = build(&parts(ProtocolVersion::Http11, Some("a=b c")), addr("10.0.0.1", 5000), addr("127.0.0.1", 3000)).ok().unwrap();
    assert_eq!(s.scope_type, Some(Type::HTTP));
    assert_eq!(s.asgi_version.as_deref(), Some("3.0"));
    assert_eq!(s.http_version.as_deref(), Some("1.1"));
    assert_eq!(s.method.as_deref(), Some("GET"));
    assert_eq!(s.scheme.as_deref(), Some("http"));
    assert_eq!(s.path.as_deref(), Some("/a/b"));
    assert_eq!(s.query_string, Some(b"a%3Db%20c".to_vec()));
    assert_eq!(s.headers, Some(vec![(b"host".to_vec(), b"Example.com".to_vec())]));
    assert_eq!(s.client.as_ref().map(|a| (a.ip.clone(), a.port)), Some(("10.0.0.1".to_string(), 5000)));
    assert_eq!(s.server.as_ref().map(|a| a.port), Some(3000));
}

#[test]
fn context_without_query() {
    let s = build(&parts(ProtocolVersion::H2, None), addr("::1", 1), addr("::1", 2)).ok().unwrap();
    assert_eq!(s.query_string, None);
    assert_eq!(s.http_version.as_deref(), Some("2"));
}

#[test]
fn unsupported_version_is_refused() {
    let r = build(&parts(ProtocolVersion::H3, None), addr("::1", 1), addr("::1", 2));
    assert_eq!(r.err(), Some(ScopeError::UnsupportedHttpVersion));
    let r = build(&parts(ProtocolVersion::Http09, None), addr("::1", 1), addr("::1", 2));
    assert_eq!(r.err(), Some(ScopeError::UnsupportedHttpVersion));
}

#[test]
fn version_strings() {
    assert_eq!(version_as_string(&ProtocolVersion::Http09), "HTTP/0.9");
    assert_eq!(version_as_string(&ProtocolVersion::Http10), "HTTP/1.0");
    assert_eq!(version_as_string(&ProtocolVersion::Http11), "HTTP/1.1");
    assert_eq!(version_as_string(&ProtocolVersion::H2), "HTTP/2");
    assert_eq!(version_as_string(&ProtocolVersion::H3), "HTTP/3");
}

#[test]
fn mailbox_holds_at_most_one_event() {
    let mut m = Mailbox::new();
    assert!(matches!(m.take(), Take::Empty));
    assert!(matches!(m.offer(Event::Disconnect), Offer::Accepted));
    assert!(matches!(m.offer(Event::Malformed), Offer::Full(Event::Malformed)));
    assert!(matches!(m.take(), Take::Item(Event::Disconnect)));
    assert!(matches!(m.offer(Event::Malformed), Offer::Accepted));
    m.close();
    assert!(matches!(m.offer(Event::Disconnect), Offer::Closed(Event::Disconnect)));
    assert!(matches!(m.take(), Take::Item(Event::Malformed)));
    assert!(matches!(m.take(), Take::Exhausted));
}

#[test]
fn message_types_round_trip() {
    for k in [EventKind::RequestBody, EventKind::Disconnect, EventKind::ResponseStart, EventKind::ResponseBody] {
        let name = k.message_type().unwrap();
        assert_eq!(EventKind::from_message_type(&name.to_string()), k);
    }
    assert_eq!(EventKind::ResponseStart.message_type(), Some("http.response.start"));
    assert_eq!(EventKind::from_message_type(&"lifespan.startup".to_string()), EventKind::Malformed);
    assert_eq!(EventKind::Malformed.message_type(), None);
    assert_eq!(Event::Disconnect.kind(), EventKind::Disconnect);
}
