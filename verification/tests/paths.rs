use packurl::dispatch::route_apex;
use packurl::dispatch::route_connection;
use packurl::dispatch::route_local;
use packurl::dispatch::ApexRequest;
use packurl::dispatch::LocalRequest;
use packurl::dispatch::Route;
use packurl::domains::DomainList;
use packurl::domains::APEX;
use packurl::domains::CDN;
use packurl::domains::LOCALHOST;
use packurl::domains::WWW;
use packurl::payloads::empty_object_payload;
use packurl::payloads::finalize_payload;
use packurl::payloads::new_account_payload;
use packurl::payloads::new_order_payload;
use packurl::uri::UriPath;

#[test]
fn uri_path_splits_and_normalizes() {
    let p = UriPath::new("/", "a//b/./c");
    assert_eq!(p.to_string(), "/a/b/c");
    let empty = UriPath::new("/", "");
    assert_eq!(empty.to_string(), "/");
    let dots = UriPath::new("/", "././");
    assert_eq!(dots.to_string(), "/");
}

#[test]
fn uri_path_join_and_parent() {
    let p = UriPath::new("/", "a/b");
    let q = p.join("c.html");
    assert_eq!(q.to_string(), "/a/b/c.html");
    let parent = q.parent().unwrap();
    assert_eq!(parent.to_string(), "/a/b");
    let single = UriPath::new("/", "only");
    assert!(single.parent().is_none());
}

#[test]
fn uri_path_from_requires_the_root() {
    let p = UriPath::from("/", "/home/www", "/home/www/site/index.html").unwrap();
    assert_eq!(p.to_string(), "/site/index.html");
    assert!(UriPath::from("/", "/home/www", "/etc/passwd").is_none());
}

#[test]
fn domain_list_membership() {
    let list = DomainList::new(vec![String::from("a.example"), String::from("b.example")]);
    assert!(list.find(&String::from("a.example")).is_some());
    assert!(list.find(&String::from("b.example")).is_some());
    assert!(list.find(&String::from("c.example")).is_none());
    assert_eq!(
        list.names(),
        vec![String::from("a.example"), String::from("b.example")]
    );
    let acme = DomainList::acme_domains();
    assert!(acme.find(&String::from(APEX)).is_some());
    assert!(acme.find(&String::from(WWW)).is_some());
    assert!(acme.find(&String::from(CDN)).is_none());
}

#[test]
fn connections_route_by_alpn_then_sni() {
    let acme_alpn = vec![b"h2".to_vec(), b"acme-tls/1".to_vec()];
    let plain = vec![b"http/1.1".to_vec()];
    let apex = String::from(APEX);
    let cdn = String::from(CDN);
    let local = String::from(LOCALHOST);
    let other = String::from("unknown.example");
    assert!(matches!(route_connection(None, Some(&plain)), Route::NoServerName));
    assert!(matches!(
        route_connection(Some(&cdn), Some(&acme_alpn)),
        Route::AcmeValidation
    ));
    assert!(matches!(route_connection(Some(&local), Some(&plain)), Route::Local));
    assert!(matches!(route_connection(Some(&cdn), Some(&plain)), Route::Cdn));
    assert!(matches!(route_connection(Some(&apex), Some(&plain)), Route::Apex));
    assert!(matches!(route_connection(Some(&apex), None), Route::Apex));
    assert!(matches!(
        route_connection(Some(&other), Some(&plain)),
        Route::Unrecognized
    ));
}

#[test]
fn apex_requests_route_by_prefix() {
    assert!(matches!(route_apex(b"GET / HTTP/1.1\r\n"), ApexRequest::Root));
    assert!(matches!(route_apex(b"GET /sw.mjs HTTP"), ApexRequest::ServiceWorker));
    assert!(matches!(route_apex(b"GET /pwa.json HT"), ApexRequest::Manifest));
    assert!(matches!(route_apex(b"GET /favicon.ico"), ApexRequest::Favicon));
    assert!(matches!(route_apex(b"GET /very-long-pa"), ApexRequest::UriTooLong));
    assert!(matches!(route_apex(b"POST / HTTP/1.1\r"), ApexRequest::MethodNotAllowed));
}

#[test]
fn local_requests_route_by_line() {
    assert!(matches!(
        route_local(b"GET /update HTTP/1.1\r\n"),
        LocalRequest::UpdateCache
    ));
    assert!(matches!(
        route_local(b"GET /uqdate HTTP/1.1\r\n"),
        LocalRequest::NotFound
    ));
}

#[test]
fn request_payloads_are_canonical() {
    assert_eq!(
        new_account_payload(&String::from("mailto:admin@a.example")),
        "{\"termsOfServiceAgreed\":true,\"contact\":[\"mailto:admin@a.example\"]}"
    );
    assert_eq!(
        new_order_payload(&vec![String::from("a.example"), String::from("b.example")]),
        "{\"identifiers\":[{\"type\":\"dns\",\"value\":\"a.example\"},\
{\"type\":\"dns\",\"value\":\"b.example\"}]}"
    );
    assert_eq!(new_order_payload(&vec![]), "{\"identifiers\":[]}");
    assert_eq!(finalize_payload(&String::from("CSR64")), "{\"csr\":\"CSR64\"}");
    assert_eq!(empty_object_payload(), "{}");
    let parsed: serde_json::Value =
        serde_json::from_str(&new_order_payload(&vec![String::from("x.example")])).unwrap();
    assert_eq!(parsed["identifiers"][0]["type"], "dns");
    assert_eq!(parsed["identifiers"][0]["value"], "x.example");
}
