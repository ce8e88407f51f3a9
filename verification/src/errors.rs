//! The error type of the service layer as a whole.
use vstd::prelude::*;

pub use crate::services::Error as AuthError;

verus! {

/// Any error of the service layer.
#[derive(Clone, Copy, Debug, PartialEq, Eq, Structural)]
pub enum Error {
    Auth(AuthError),
}

} // verus!
