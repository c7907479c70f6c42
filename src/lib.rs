//! A request gate that admits a call to `GET /hello` only when the request
//! carries an `Authorization` header and the server holds a current token.

pub mod store;
pub mod shared;
pub mod reply;
pub mod gate;
pub mod laws;
