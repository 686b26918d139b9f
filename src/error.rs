use vstd::prelude::*;

verus! {

/// The one failure that a fill request reports. What went wrong underneath
/// (which stage, which OS error code) is deliberately not kept.
#[derive(Debug, Clone, Copy, PartialEq, Eq)]
pub enum Error {
    Unknown,
}

} // verus!
