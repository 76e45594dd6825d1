use vstd::prelude::*;

verus! {

/// The operating system's cryptographically secure RNG, as exposed by the
/// backend. It holds no state: every request fills the caller's buffer.
#[derive(Debug, Clone, Copy, PartialEq, Eq)]
pub struct SystemRng;

} // verus!
