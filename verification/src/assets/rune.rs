//! Rune assets, keyed by the rune's numeric id.
use vstd::prelude::*;

verus! {

/// A rune's asset id.
#[derive(Debug, Clone, Copy, PartialEq, Eq, Hash, Structural)]
pub struct Id(pub u16);

} // verus!
