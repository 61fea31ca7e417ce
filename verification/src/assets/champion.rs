//! Champion assets, keyed by the champion's numeric id.
use vstd::prelude::*;
use crate::text::{parse_u16, parse_u16_spec};

verus! {

/// A champion's asset id.
#[derive(Debug, Clone, Copy, PartialEq, Eq, Hash, Structural)]
pub struct Id(pub u16);

impl Id {
    /// The id of a champion's `key` in the asset index: its numeric id in decimal.
    pub fn from_key(key: &String) -> (id: Id)
        requires
            parse_u16_spec(key@) is Some,
        ensures
            Some(id.0) == parse_u16_spec(key@),
    {
        match parse_u16(key.as_str()) {
            Some(v) => Id(v),
            None => Id(0),
        }
    }
}

} // verus!
