//! Pairing and extension-field multiplication host operations for the
//! BLS12-377 curve family: coordinate decoding and validation, pairing
//! evaluation, and degree-12 extension-field multiplication, with a
//! canonical byte codec for every value that crosses the boundary.

use vstd::prelude::*;

pub mod codec;
pub mod decimal;
pub mod ext_field;
pub mod field;
pub mod host;
pub mod laws;
pub mod points;

verus! {

/// The single error kind surfaced to callers: some input failed to decode
/// into a canonical field element or had the wrong length. No positional
/// detail is reported.
#[derive(Clone, Copy, Debug, PartialEq, Eq, Structural)]
pub enum HostError {
    InvalidInput,
}

/// Maps a discarded lower-level decode failure to the host's uniform
/// input-validation error.
pub fn to_host_error(_e: ()) -> (r: HostError)
    ensures
        r == HostError::InvalidInput,
{
    HostError::InvalidInput
}

} // verus!

