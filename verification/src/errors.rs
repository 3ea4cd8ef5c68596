//! Errors of the capture side as a whole.

use vstd::prelude::*;

use crate::api::ApiError;
use crate::protocol::ProtocolError;
use crate::sniffer::SnifferError;

verus! {

/// Any failure of the capture side.
#[derive(Debug, PartialEq)]
pub enum BackendError {
    Api(ApiError),
    Sniffer(SnifferError),
    Protocol(ProtocolError),
}

} // verus!
