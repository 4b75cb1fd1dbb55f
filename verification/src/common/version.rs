//! The language version a source file declares, which can change how all
//! of its subsequent tokens are lexed and parsed.

use vstd::prelude::*;

verus! {

/// A declared language version: a major and a minor component.
#[derive(Clone, Copy, Debug, Hash, PartialEq, Eq, Structural)]
pub struct Version {
    pub major: u64,
    pub minor: u64,
}

} // verus!
