//! Wire format of a small chat protocol: variable-length integers, node
//! names, the data carried in the login and communication states, and the
//! length-prefixed message that frames them.

pub mod communication_state_data;
pub mod decode;
pub mod display;
pub mod encode;
pub mod login_state_data;
pub mod message;
pub mod message_body;
pub mod message_builder;
pub mod message_data;
pub mod node;
pub mod request;
pub mod response;
pub mod routing;
pub mod source_or_destination;
pub mod text;
pub mod user;
pub mod varuint;

use vstd::prelude::*;

verus! {

/// The state byte that encoders and decoders ignore.
pub const NO_STATE: u8 = 0;

} // verus!
