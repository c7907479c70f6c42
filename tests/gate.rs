use haystack_gate::gate::{
    authorize, check_credentials, dispatch, extract_authorization, haystack_auth_header, hello,
    respond, route, Method, MAX_CREDENTIAL_LEN,
};
use haystack_gate::reply::{rejection_response, Rejection, Response};
use haystack_gate::shared::SharedStore;
use haystack_gate::store::{DemoAuthDetails, StaticAuthToken, UserAuthStore};

fn demo_store() -> SharedStore {
    SharedStore::new(Box::new(DemoAuthDetails::new()))
}

fn token_store(token: &str) -> SharedStore {
    SharedStore::new(Box::new(StaticAuthToken::new(token.to_string())))
}

fn get_hello(store: &SharedStore, header: Option<&[u8]>) -> Response {
    dispatch(Method::Get, b"/hello", header, store)
}

#[test]
fn demo_store_has_no_token() {
    assert_eq!(DemoAuthDetails::new().get_authtoken(), None);
}

#[test]
fn static_store_returns_its_token() {
    let s = StaticAuthToken::new("xyz".to_string());
    assert_eq!(s.get_authtoken(), Some("xyz".to_string()));
}

#[test]
fn shared_store_reads_active_store() {
    assert_eq!(demo_store().current_token(), None);
    assert_eq!(token_store("xyz").current_token(), Some("xyz".to_string()));
}

#[test]
fn demo_store_rejects_with_401() {
    let r = get_hello(&demo_store(), Some(b"abc"));
    assert_eq!(r.status, 401);
    assert_ne!(r.body, "Hello");
    assert_eq!(r.body, "Unauthorized");
}

#[test]
fn token_store_admits_with_hello() {
    let r = get_hello(&token_store("xyz"), Some(b"abc"));
    assert_eq!(r.status, 200);
    assert_eq!(r.body, "Hello");
}

#[test]
fn token_is_not_compared_with_header() {
    let r = get_hello(&token_store("xyz"), Some(b"something else"));
    assert_eq!(r.status, 200);
}

#[test]
fn missing_header_is_400_whatever_the_store() {
    for store in [demo_store(), token_store("xyz")] {
        let r = get_hello(&store, None);
        assert_eq!(r.status, 400);
        assert_eq!(r.body, "Missing request header \"Authorization\"");
    }
}

#[test]
fn empty_header_is_400() {
    for store in [demo_store(), token_store("xyz")] {
        let r = get_hello(&store, Some(b""));
        assert_eq!(r.status, 400);
        assert_ne!(r.body, "Hello");
    }
}

#[test]
fn non_utf8_header_is_400() {
    let r = get_hello(&token_store("xyz"), Some(&[0xff, 0xfe, 0x41]));
    assert_eq!(r.status, 400);
    assert_eq!(r.body, "Invalid request header \"Authorization\"");
}

#[test]
fn control_bytes_in_header_are_400() {
    let store = token_store("xyz");
    assert_eq!(get_hello(&store, Some(b"ab\ncd")).status, 400);
    assert_eq!(get_hello(&store, Some(&[b'a', 127])).status, 400);
    assert_eq!(get_hello(&store, Some(&[b'a', 0])).status, 400);
}

#[test]
fn tab_and_space_are_accepted() {
    let r = get_hello(&token_store("xyz"), Some(b"Bearer\tabc def~"));
    assert_eq!(r.status, 200);
}

#[test]
fn oversized_header_is_400() {
    let big = vec![b'a'; MAX_CREDENTIAL_LEN + 1];
    let r = get_hello(&token_store("xyz"), Some(&big));
    assert_eq!(r.status, 400);
    let largest = vec![b'a'; MAX_CREDENTIAL_LEN];
    assert_eq!(get_hello(&token_store("xyz"), Some(&largest)).status, 200);
}

#[test]
fn unknown_path_is_404() {
    let store = token_store("xyz");
    for path in [&b"/"[..], b"/hell", b"/hello//", b"/hello/x", b"/HELLO", b""] {
        let r = dispatch(Method::Get, path, Some(b"abc"), &store);
        assert_eq!(r.status, 404);
        assert_eq!(r.body, "Not Found");
    }
    assert_eq!(dispatch(Method::Get, b"/other", None, &store).status, 404);
}

#[test]
fn trailing_slash_is_served() {
    let r = dispatch(Method::Get, b"/hello/", Some(b"abc"), &token_store("xyz"));
    assert_eq!(r.status, 200);
    assert_eq!(r.body, "Hello");
    assert_eq!(route(Method::Post, b"/hello/"), Err(Rejection::MethodNotAllowed));
}

#[test]
fn other_method_is_405() {
    let store = token_store("xyz");
    for m in [Method::Post, Method::Head, Method::Put, Method::Delete, Method::Patch, Method::Options, Method::Other] {
        let r = dispatch(m, b"/hello", Some(b"abc"), &store);
        assert_eq!(r.status, 405);
        assert_eq!(r.body, "Method Not Allowed");
    }
}

#[test]
fn repeated_requests_get_the_same_status() {
    let demo = demo_store();
    let tok = token_store("xyz");
    for _ in 0..10 {
        assert_eq!(get_hello(&demo, Some(b"abc")).status, 401);
        assert_eq!(get_hello(&tok, Some(b"abc")).status, 200);
        assert_eq!(get_hello(&tok, None).status, 400);
    }
}

#[test]
fn swap_changes_the_active_store_for_every_handle() {
    let store = demo_store();
    let other = store.clone();
    assert_eq!(get_hello(&other, Some(b"abc")).status, 401);
    store.swap(Box::new(StaticAuthToken::new("xyz".to_string())));
    assert_eq!(get_hello(&other, Some(b"abc")).status, 200);
    store.swap(Box::new(DemoAuthDetails::new()));
    assert_eq!(get_hello(&other, Some(b"abc")).status, 401);
}

#[test]
fn concurrent_requests_all_succeed() {
    let rt = tokio::runtime::Builder::new_multi_thread()
        .worker_threads(4)
        .build()
        .unwrap();
    let store = token_store("xyz");
    let results = rt.block_on(async {
        let mut tasks = Vec::new();
        for _ in 0..200 {
            let s = store.clone();
            tasks.push(tokio::spawn(async move {
                get_hello(&s, Some(b"abc")).status
            }));
        }
        let mut out = Vec::new();
        for t in tasks {
            out.push(t.await.unwrap());
        }
        out
    });
    assert_eq!(results.len(), 200);
    assert!(results.iter().all(|s| *s == 200));
}

#[test]
fn filter_reads_header_before_store() {
    assert_eq!(
        haystack_auth_header(&demo_store(), None).err(),
        Some(Rejection::MissingHeader)
    );
    assert_eq!(
        haystack_auth_header(&demo_store(), Some(b"abc")).err(),
        Some(Rejection::HayStackAuthToken)
    );
    assert!(haystack_auth_header(&token_store("t"), Some(b"abc")).is_ok());
}

#[test]
fn credentials_against_given_token() {
    let some = Some("xyz".to_string());
    assert_eq!(check_credentials(Some(b"abc"), &some), Ok(()));
    assert_eq!(check_credentials(Some(b"abc"), &None), Err(Rejection::HayStackAuthToken));
    assert_eq!(check_credentials(None, &some), Err(Rejection::MissingHeader));
    assert_eq!(check_credentials(Some(b""), &some), Err(Rejection::InvalidHeader));
    assert_eq!(authorize(&some), Ok(()));
    assert_eq!(authorize(&None), Err(Rejection::HayStackAuthToken));
}

#[test]
fn extraction_outcomes() {
    assert_eq!(extract_authorization(None), Err(Rejection::MissingHeader));
    assert_eq!(extract_authorization(Some(b"")), Err(Rejection::InvalidHeader));
    assert_eq!(extract_authorization(Some(b"a")), Ok(()));
    assert_eq!(extract_authorization(Some(&[0x80])), Err(Rejection::InvalidHeader));
}

#[test]
fn routing_outcomes() {
    assert_eq!(route(Method::Get, b"/hello"), Ok(()));
    assert_eq!(route(Method::Post, b"/hello"), Err(Rejection::MethodNotAllowed));
    assert_eq!(route(Method::Post, b"/nope"), Err(Rejection::NotFound));
}

#[test]
fn respond_with_given_token() {
    let store = demo_store();
    let r = respond(Method::Get, b"/hello", Some(b"abc"), &store, &Some("xyz".to_string()));
    assert_eq!((r.status, r.body.as_str()), (200, "Hello"));
    let r = respond(Method::Get, b"/hello", Some(b"abc"), &store, &None);
    assert_eq!((r.status, r.body.as_str()), (401, "Unauthorized"));
    let r = respond(Method::Get, b"/hello", None, &store, &None);
    assert_eq!(r.status, 400);
}

#[test]
fn hello_handler_answers_200() {
    let r = hello(&demo_store());
    assert_eq!(r.status, 200);
    assert_eq!(r.body, "Hello");
}

#[test]
fn status_codes_are_checked() {
    assert!(Response::with_status("x", 99).is_none());
    assert!(Response::with_status("x", 1000).is_none());
    let r = Response::with_status("x", 100).unwrap();
    assert_eq!((r.status, r.body.as_str()), (100, "x"));
    assert!(Response::with_status("x", 999).is_some());
}

#[test]
fn each_rejection_has_its_response() {
    let cases = [
        (Rejection::MissingHeader, 400, "Missing request header \"Authorization\""),
        (Rejection::InvalidHeader, 400, "Invalid request header \"Authorization\""),
        (Rejection::HayStackAuthToken, 401, "Unauthorized"),
        (Rejection::NotFound, 404, "Not Found"),
        (Rejection::MethodNotAllowed, 405, "Method Not Allowed"),
    ];
    for (rej, status, body) in cases {
        let r = rejection_response(rej);
        assert_eq!(r.status, status);
        assert_eq!(r.body, body);
    }
}
