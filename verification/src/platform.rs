//! The operating systems the application runs on.

use vstd::prelude::*;

verus! {

/// The family of the operating system underneath.
#[derive(Clone, Copy, Debug, PartialEq, Eq, Structural)]
pub enum Platform {
    MacOs,
    Linux,
    Windows,
}

} // verus!
