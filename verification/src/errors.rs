//! Error type of the encoder wrapper.

use vstd::prelude::*;

verus! {

/// Errors raised by the wrapper itself, as opposed to raw native result codes.
#[derive(Clone, Copy, Debug, PartialEq, Eq, Structural)]
pub enum Av1Errors {
    ConfigError,
}

} // verus!
