//! Summoners: the account with its level and icon, and the data that the viewer
//! shows of a summoner.
pub mod league;

use vstd::prelude::*;
use crate::account::{Account, text_or};
use crate::assets::Image;
use crate::game::Game;
pub use crate::summoner::league::{Division, League, Tier};

verus! {

/// A summoner: the account, level, icon and the time its profile last changed.
#[derive(Debug, Clone)]
pub struct Summoner {
    pub account: Account,
    pub level: i64,
    pub icon_id: i32,
    pub last_modified: i64,
}

impl Summoner {
    /// The Riot ID as `name#tagline`, a missing part left empty.
    pub fn name(&self) -> (s: String)
        ensures
            s@ == text_or(self.account.riot_id.name.deep_view(), Seq::empty()) + "#"@ + text_or(
                self.account.riot_id.tagline.deep_view(),
                Seq::empty(),
            ),
    {
        let mut s = match &self.account.riot_id.name {
            Some(name) => name.clone(),
            None => String::new(),
        };
        s.append("#");
        match &self.account.riot_id.tagline {
            Some(tagline) => s.append(tagline.as_str()),
            None => {},
        }
        s
    }

    pub fn puuid(&self) -> (s: &str)
        ensures
            s@ == self.account.puuid@,
    {
        self.account.puuid.as_str()
    }
}

/// What the viewer shows of a summoner: icon, summoner, rankings and recent games.
#[derive(Debug, Clone)]
pub struct Data {
    pub icon: Image,
    pub summoner: Summoner,
    pub leagues: Vec<League>,
    pub games: Vec<Game>,
}

} // verus!
