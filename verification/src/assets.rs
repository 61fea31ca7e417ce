//! Asset ids and images.
pub mod champion;
pub mod emblem;
pub mod rune;

use vstd::prelude::*;

verus! {

/// An encoded image.
#[derive(Debug, Clone)]
pub struct Image(pub Vec<u8>);

impl Image {
    pub fn from_bytes(bytes: Vec<u8>) -> (i: Image)
        ensures
            i.0@ == bytes@,
    {
        Image(bytes)
    }

    pub fn as_bytes(&self) -> (b: &[u8])
        ensures
            b@ == self.0@,
    {
        self.0.as_slice()
    }
}

} // verus!
