//! The systems that the program runs on.
use vstd::prelude::*;

verus! {

/// The system that the program was built for.
#[derive(Debug, Clone, Copy, PartialEq, Eq, Structural)]
pub enum Platform {
    Windows,
    MacOs,
    Linux,
}

}
