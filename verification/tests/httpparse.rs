use packurl::content::cache_control_and_content_type;
use packurl::content::etag_value;
use packurl::content::should_replace_entry;
use packurl::content::str_ends_with;
use packurl::content::FileEntry;
use packurl::http::find_terminator;
use packurl::http::get_if_none_match;
use packurl::http::not_modified_for;
use packurl::http::parse_cdn_request;
use packurl::http::remove_all;
use packurl::http::CdnRequest;

#[test]
fn header_block_terminator_is_found() {
    assert_eq!(find_terminator(b"ab\r\n\r\ncd"), Some(2));
    assert_eq!(find_terminator(b"\r\n\r\n"), Some(0));
    assert_eq!(find_terminator(b"abc\r\nde"), None);
    assert_eq!(find_terminator(b""), None);
}

#[test]
fn if_none_match_is_extracted_case_insensitively() {
    let block = b"Host: example\r\nIF-None-Match:  0xab12 \r\nAccept: */*\r\n\r\n".to_vec();
    assert_eq!(get_if_none_match(&block), Some(b"0xab12".to_vec()));
}

#[test]
fn if_none_match_absent_is_none() {
    let block = b"Host: example\r\nAccept: */*\r\n\r\n".to_vec();
    assert_eq!(get_if_none_match(&block), None);
    let leading_empty_line = b"\r\nIf-None-Match: 0x1\r\n".to_vec();
    assert_eq!(get_if_none_match(&leading_empty_line), None);
    assert_eq!(get_if_none_match(&b"no headers here".to_vec()), None);
}

#[test]
fn cdn_request_line_is_parsed() {
    let req = b"GET /a/b.html HTTP/1.1\r\nHost: cdn\r\n\r\n".to_vec();
    match parse_cdn_request(&req) {
        CdnRequest::Get { path } => assert_eq!(path, b"/a/b.html".to_vec()),
        _ => panic!("expected a get"),
    }
    let post = b"POST /a/b.html HTTP/1.1\r\nHost: cdn\r\n\r\n".to_vec();
    assert!(matches!(parse_cdn_request(&post), CdnRequest::MethodNotAllowed));
    assert!(matches!(parse_cdn_request(&b"short".to_vec()), CdnRequest::BadRequest));
    let no_version = b"GET /abcdefghijklmnop\r\n\r\n".to_vec();
    assert!(matches!(parse_cdn_request(&no_version), CdnRequest::BadRequest));
}

#[test]
fn cdn_root_prefix_is_removed_everywhere() {
    let path = b"https://cdn.example/a".to_vec();
    let root = b"https://cdn.example".to_vec();
    assert_eq!(remove_all(&path, &root), b"/a".to_vec());
    let twice = b"https://cdn.example/ahttps://cdn.example/b".to_vec();
    assert_eq!(remove_all(&twice, &root), b"/a/b".to_vec());
    assert_eq!(remove_all(&b"/plain".to_vec(), &root), b"/plain".to_vec());
}

#[test]
fn conditional_requests_match_on_the_entity_tag() {
    let etag = String::from("0xff0x10");
    let matching = b"0xff0x10".to_vec();
    let other = b"0xff0x11".to_vec();
    assert!(not_modified_for(&etag, Some(&matching)));
    assert!(!not_modified_for(&etag, Some(&other)));
    assert!(!not_modified_for(&etag, None));
}

#[test]
fn etag_text_is_prefixed_hex_of_length_and_mtime() {
    assert_eq!(etag_value(255, 16), "0xff0x10");
    assert_eq!(etag_value(0, 0), "0x00x0");
    assert_eq!(etag_value(4096, 1700000000), "0x10000x6553f100");
}

#[test]
fn content_types_follow_the_suffix() {
    let html = cache_control_and_content_type(&String::from("index.html")).unwrap();
    assert_eq!(html, ("public,no-cache", "text/html"));
    let wasm = cache_control_and_content_type(&String::from("app.wasm")).unwrap();
    assert_eq!(wasm, ("public,max-age=31536000,immutable", "application/wasm"));
    let map = cache_control_and_content_type(&String::from("m.mjs.map")).unwrap();
    assert_eq!(map.1, "application/javascript");
    let sig = cache_control_and_content_type(&String::from("release.sig")).unwrap();
    assert_eq!(sig, ("no-store", "application/pgp-signature"));
    assert!(cache_control_and_content_type(&String::from("archive.zip")).is_none());
    assert!(cache_control_and_content_type(&String::from("")).is_none());
    assert!(str_ends_with("a.html", ".html"));
    assert!(!str_ends_with(".htm", ".html"));
}

#[test]
fn file_entry_replies_are_exact() {
    let entry = FileEntry::build(
        String::from("0xa0xb"),
        "public,no-cache",
        "text/html",
        false,
        b"hi".to_vec(),
    );
    let expected_ok = b"HTTP/1.1 200 OK\r\nCache-Control: public,no-cache\r\nConnection: close\r\n\
ETag: 0xa0xb\r\nContent-Type: text/html\r\nContent-Length: 2\r\n\r\nhi"
        .to_vec();
    assert_eq!(entry.ok, expected_ok);
    let expected_nm = b"HTTP/1.1 304 Not Modified\r\nCache-Control: public,no-cache\r\n\
Connection: close\r\nETag: 0xa0xb\r\n\r\n"
        .to_vec();
    assert_eq!(entry.not_modified, expected_nm);
    assert_eq!(entry.etag, "0xa0xb");
}

#[test]
fn compressed_file_entry_advertises_brotli() {
    let entry = FileEntry::build(
        String::from("0x10x2"),
        "no-store",
        "text/plain",
        true,
        b"xyz".to_vec(),
    );
    let expected_ok = b"HTTP/1.1 200 OK\r\nCache-Control: no-store\r\nConnection: close\r\n\
Content-Encoding: br\r\nETag: 0x10x2\r\nContent-Type: text/plain\r\nContent-Length: 3\r\n\r\nxyz"
        .to_vec();
    assert_eq!(entry.ok, expected_ok);
}

#[test]
fn cache_entries_replace_on_matching_etag() {
    let fresh = String::from("0xa0xb");
    assert!(should_replace_entry(None, &fresh));
    assert!(should_replace_entry(Some(&String::from("0xa0xb")), &fresh));
    assert!(!should_replace_entry(Some(&String::from("0xc0xd")), &fresh));
}
