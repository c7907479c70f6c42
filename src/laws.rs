use vstd::prelude::*;
use crate::gate::{
    Method, hello_path, request_outcome, response_for, route_outcome, well_formed_credential,
};
use crate::reply::{Rejection, hello_body, rejection_message, rejection_status};

verus! {

/// Every rejection is answered with a client-error status, and never with
/// the handler's body.
pub proof fn lemma_rejection_is_client_error(rej: Rejection)
    ensures
        400 <= rejection_status(rej) < 500,
        rejection_message(rej) != hello_body(),
{
    reveal_strlit("Hello");
    reveal_strlit("Missing request header \"Authorization\"");
    reveal_strlit("Invalid request header \"Authorization\"");
    reveal_strlit("Unauthorized");
    reveal_strlit("Not Found");
    reveal_strlit("Method Not Allowed");
    assert(rejection_message(rej).len() != hello_body().len());
}

/// A request without an `Authorization` header never reaches the handler,
/// whatever the store holds; on the registered route it is answered 400.
pub proof fn lemma_missing_header_rejected(method: Method, path: Seq<u8>, has_token: bool)
    ensures
        request_outcome(method, path, None, has_token) is Err,
        response_for(method, path, None, has_token).1 != hello_body(),
        route_outcome(method, path) is Ok ==> response_for(method, path, None, has_token).0
            == 400,
{
    lemma_rejection_is_client_error(request_outcome(method, path, None, has_token)->Err_0);
}

/// On the registered route, a request with a well-formed `Authorization`
/// header is answered 401, not with the handler's body, while the store holds
/// no token.
pub proof fn lemma_no_token_rejected(header: Seq<u8>)
    requires
        well_formed_credential(header),
    ensures
        response_for(Method::Get, hello_path(), Some(header), false).0 == 401,
        response_for(Method::Get, hello_path(), Some(header), false).1 != hello_body(),
{
    lemma_rejection_is_client_error(Rejection::HayStackAuthToken);
}

/// On the registered route, a request with a well-formed `Authorization`
/// header is answered 200 with body `Hello` while the store holds a token,
/// whatever that token is.
pub proof fn lemma_token_admits(header: Seq<u8>)
    requires
        well_formed_credential(header),
    ensures
        response_for(Method::Get, hello_path(), Some(header), true) == (200u16, hello_body()),
{
}

/// A malformed `Authorization` header (empty, too long, or not visible
/// ASCII) is answered with a client error on any request, whatever the store
/// holds, and never reaches the handler.
pub proof fn lemma_malformed_header_rejected(
    method: Method,
    path: Seq<u8>,
    header: Seq<u8>,
    has_token: bool,
)
    requires
        !well_formed_credential(header),
    ensures
        request_outcome(method, path, Some(header), has_token) is Err,
        400 <= response_for(method, path, Some(header), has_token).0 < 500,
        response_for(method, path, Some(header), has_token).1 != hello_body(),
{
    lemma_rejection_is_client_error(request_outcome(method, path, Some(header), has_token)->Err_0);
}

/// The same request against stores in the same state (both holding some
/// token, or both holding none) gets the same response, whichever tokens
/// they hold.
pub proof fn lemma_same_state_same_response(
    method: Method,
    path: Seq<u8>,
    header: Option<Seq<u8>>,
    token1: Option<Seq<char>>,
    token2: Option<Seq<char>>,
)
    requires
        token1 is Some == token2 is Some,
    ensures
        response_for(method, path, header, token1 is Some) == response_for(
            method,
            path,
            header,
            token2 is Some,
        ),
{
}

} // verus!
