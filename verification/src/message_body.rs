//! The body of a message as the client and the server handle it.

use vstd::prelude::*;

use crate::request::Request;
use crate::response::Response;
use crate::user::User;

verus! {

/// What a message carries.
#[derive(Clone, Debug)]
pub enum MessageBody {
    Text(String),
    File(Vec<u8>),
    User(User),
    Request(Request),
    Response(Response),
}

} // verus!
