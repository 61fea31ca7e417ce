//! The texts of a player's result and vision in the game views.
use vstd::prelude::*;
use crate::formatting::win_text;
use crate::game::Result;
use crate::text::decimal;

verus! {

pub fn win(result: Result) -> (s: String)
    ensures
        s@ == win_text(result),
{
    crate::formatting::win(result)
}

pub fn vision_score(score: u32) -> (s: String)
    ensures
        s@ == decimal(score as nat) + " vision"@,
{
    crate::formatting::vision_score(score)
}

} // verus!
