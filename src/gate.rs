use vstd::prelude::*;
use crate::reply::{
    Rejection, Response, hello_body, rejection_message, rejection_response, rejection_status,
};
use crate::shared::SharedStore;

verus! {

/// The longest `Authorization` value, in bytes, that the filter accepts.
pub const MAX_CREDENTIAL_LEN: usize = 8192;

/// The request method, as far as routing needs it.
#[derive(Clone, Copy, Debug, PartialEq, Eq, Structural)]
pub enum Method {
    Get,
    Head,
    Post,
    Put,
    Delete,
    Patch,
    Options,
    Other,
}

/// A byte that may stand in a header value that is read as text: a visible
/// ASCII character, a space or a tab.
pub open spec fn is_visible_ascii(b: u8) -> bool {
    (32 <= b && b < 127) || b == 9
}

/// An `Authorization` value that the filter reads as a credential.
pub open spec fn well_formed_credential(h: Seq<u8>) -> bool {
    &&& 0 < h.len() <= MAX_CREDENTIAL_LEN
    &&& forall|i: int| 0 <= i < h.len() ==> is_visible_ascii(#[trigger] h[i])
}

/// The one registered path, `/hello`.
pub open spec fn hello_path() -> Seq<u8> {
    seq![47u8, 104u8, 101u8, 108u8, 108u8, 111u8]
}

/// The header as the contracts see it: its bytes, if it is there.
pub open spec fn header_view(raw: Option<&[u8]>) -> Option<Seq<u8>> {
    match raw {
        Some(b) => Some(b@),
        None => None,
    }
}

/// The paths that the registered route serves: `/hello`, with or without one
/// trailing slash.
pub open spec fn is_hello_route(path: Seq<u8>) -> bool {
    path == hello_path() || path == hello_path().push(47u8)
}

/// Routing: the path must be the registered one and the method `GET`.
pub open spec fn route_outcome(method: Method, path: Seq<u8>) -> Result<(), Rejection> {
    if !is_hello_route(path) {
        Err(Rejection::NotFound)
    } else if method != Method::Get {
        Err(Rejection::MethodNotAllowed)
    } else {
        Ok(())
    }
}

/// Extraction: the header must be present and well formed.
pub open spec fn header_outcome(header: Option<Seq<u8>>) -> Result<(), Rejection> {
    match header {
        None => Err(Rejection::MissingHeader),
        Some(h) => if well_formed_credential(h) {
            Ok(())
        } else {
            Err(Rejection::InvalidHeader)
        },
    }
}

/// The filter: extraction first, then the store must hold a token. The
/// credential itself is not compared with the token.
pub open spec fn filter_outcome(header: Option<Seq<u8>>, has_token: bool) -> Result<
    (),
    Rejection,
> {
    match header_outcome(header) {
        Err(rej) => Err(rej),
        Ok(()) => if has_token {
            Ok(())
        } else {
            Err(Rejection::HayStackAuthToken)
        },
    }
}

/// The whole pipeline: routing, then the filter.
pub open spec fn request_outcome(
    method: Method,
    path: Seq<u8>,
    header: Option<Seq<u8>>,
    has_token: bool,
) -> Result<(), Rejection> {
    match route_outcome(method, path) {
        Err(rej) => Err(rej),
        Ok(()) => filter_outcome(header, has_token),
    }
}

/// The response that the pipeline gives: the handler's on success, else the
/// rejection's.
pub open spec fn response_for(
    method: Method,
    path: Seq<u8>,
    header: Option<Seq<u8>>,
    has_token: bool,
) -> (u16, Seq<char>) {
    match request_outcome(method, path, header, has_token) {
        Ok(()) => (200, hello_body()),
        Err(rej) => (rejection_status(rej), rejection_message(rej)),
    }
}

/// Matches a request against the one registered route.
pub fn route(method: Method, path: &[u8]) -> (r: Result<(), Rejection>)
    ensures
        r == route_outcome(method, path@),
{
    let n = path.len();
    let prefix = n >= 6 && path[0] == 47u8 && path[1] == 104u8 && path[2] == 101u8 && path[3]
        == 108u8 && path[4] == 108u8 && path[5] == 111u8;
    let is_hello = prefix && (n == 6 || (n == 7 && path[6] == 47u8));
    proof {
        let h = hello_path();
        let hs = hello_path().push(47u8);
        assert(h[0] == 47u8 && h[1] == 104u8 && h[2] == 101u8 && h[3] == 108u8 && h[4] == 108u8
            && h[5] == 111u8);
        assert(hs[0] == 47u8 && hs[1] == 104u8 && hs[2] == 101u8 && hs[3] == 108u8 && hs[4]
            == 108u8 && hs[5] == 111u8 && hs[6] == 47u8);
        if is_hello {
            if n == 6 {
                assert(path@ =~= h);
            } else {
                assert(path@ =~= hs);
            }
        }
    }
    if !is_hello {
        Err(Rejection::NotFound)
    } else {
        match method {
            Method::Get => Ok(()),
            _ => Err(Rejection::MethodNotAllowed),
        }
    }
}

/// Reads the `Authorization` header: it must be present, non-empty, at most
/// `MAX_CREDENTIAL_LEN` bytes long, and visible ASCII throughout.
pub fn extract_authorization(raw: Option<&[u8]>) -> (r: Result<(), Rejection>)
    ensures
        r == header_outcome(header_view(raw)),
{
    match raw {
        None => Err(Rejection::MissingHeader),
        Some(b) => {
            if b.len() == 0 || b.len() > MAX_CREDENTIAL_LEN {
                return Err(Rejection::InvalidHeader);
            }
            let mut i: usize = 0;
            while i < b.len()
                invariant
                    0 <= i <= b@.len(),
                    0 < b@.len() <= MAX_CREDENTIAL_LEN,
                    header_view(raw) == Some(b@),
                    forall|j: int| 0 <= j < i ==> is_visible_ascii(#[trigger] b@[j]),
                decreases b@.len() - i,
            {
                let c = b[i];
                if !((32u8 <= c && c < 127u8) || c == 9u8) {
                    assert(!is_visible_ascii(b@[i as int]));
                    assert(!well_formed_credential(b@));
                    return Err(Rejection::InvalidHeader);
                }
                i = i + 1;
            }
            Ok(())
        },
    }
}

/// The store's part of the filter: a request is admitted only while the
/// store holds a token.
pub fn authorize(token: &Option<String>) -> (r: Result<(), Rejection>)
    ensures
        r == (if token is Some {
            Ok(())
        } else {
            Err(Rejection::HayStackAuthToken)
        }),
{
    match token {
        Some(_) => Ok(()),
        None => Err(Rejection::HayStackAuthToken),
    }
}

/// The filter given the store's answer `token`: exactly `filter_outcome`.
pub fn check_credentials(raw: Option<&[u8]>, token: &Option<String>) -> (r: Result<(), Rejection>)
    ensures
        r == filter_outcome(header_view(raw), token is Some),
{
    match extract_authorization(raw) {
        Err(rej) => Err(rej),
        Ok(()) => authorize(token),
    }
}

/// The filter in front of a handler: reads the header, then asks the store for
/// its token under a read lock, and hands a handle to the store on.
///
/// The store is only asked once the header has been read. What it answers is
/// up to the store, so on a well-formed header the result is either a handle
/// or `HayStackAuthToken`.
pub fn haystack_auth_header(store: &SharedStore, raw: Option<&[u8]>) -> (r: Result<
    SharedStore,
    Rejection,
>)
    ensures
        header_outcome(header_view(raw)) is Err ==> r == Err::<SharedStore, Rejection>(
            header_outcome(header_view(raw))->Err_0,
        ),
        header_outcome(header_view(raw)) is Ok ==> (r is Ok || r == Err::<SharedStore, Rejection>(
            Rejection::HayStackAuthToken,
        )),
        r is Ok ==> r->Ok_0 == *store,
{
    match extract_authorization(raw) {
        Err(rej) => Err(rej),
        Ok(()) => {
            let token = store.current_token();
            match authorize(&token) {
                Ok(()) => Ok(store.clone()),
                Err(rej) => Err(rej),
            }
        },
    }
}

/// The handler behind the filter: it only runs on an admitted request.
pub fn hello(store: &SharedStore) -> (r: Response)
    ensures
        r@ == (200u16, hello_body()),
{
    match Response::with_status("Hello", 200) {
        Some(r) => r,
        None => vstd::pervasive::unreached(),
    }
}

/// The pipeline given the store's answer `token`: routing, the filter, then
/// the handler or the rejection's response.
pub fn respond(
    method: Method,
    path: &[u8],
    raw: Option<&[u8]>,
    store: &SharedStore,
    token: &Option<String>,
) -> (r: Response)
    ensures
        r@ == response_for(method, path@, header_view(raw), token is Some),
{
    match route(method, path) {
        Err(rej) => rejection_response(rej),
        Ok(()) => match check_credentials(raw, token) {
            Err(rej) => rejection_response(rej),
            Ok(()) => hello(store),
        },
    }
}

/// Serves one request: routing, then `haystack_auth_header`, then `hello` or
/// the rejection's response. The response is the pipeline's for whichever
/// answer the store gave.
pub fn dispatch(method: Method, path: &[u8], raw: Option<&[u8]>, store: &SharedStore) -> (r:
    Response)
    ensures
        r@ == response_for(method, path@, header_view(raw), false) || r@ == response_for(
            method,
            path@,
            header_view(raw),
            true,
        ),
{
    match route(method, path) {
        Err(rej) => rejection_response(rej),
        Ok(()) => match haystack_auth_header(store, raw) {
            Err(rej) => rejection_response(rej),
            Ok(handle) => hello(&handle),
        },
    }
}

} // verus!
