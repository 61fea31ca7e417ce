//! The search bar: the Riot ID being typed and the region picked, and the search
//! request that pressing the button makes.
use vstd::prelude::*;
use crate::Region;

verus! {

/// What happens in the search bar.
#[derive(Debug, Clone)]
pub enum SearchMessage {
    TextChanged(String),
    SearchPressed,
    RegionSelected(Region),
}

/// A search for a summoner by Riot ID on a region.
#[derive(Debug, Clone)]
pub struct SearchRequest {
    pub riot_id: String,
    pub region: Region,
}

/// The search bar's state.
#[derive(Debug, Clone)]
pub struct SearchBar {
    pub text: String,
    pub region: Region,
}

/// The search bar's state after a message, and the search it requests, if any.
pub open spec fn search_step(s: SearchBar, m: SearchMessage, t: SearchBar, r: Option<SearchRequest>) -> bool {
    match m {
        SearchMessage::TextChanged(text) => {
            &&& t == (SearchBar { text, ..s })
            &&& r is None
        },
        SearchMessage::SearchPressed => {
            &&& t == s
            &&& r matches Some(req)
            &&& req.riot_id@ == s.text@
            &&& req.region == s.region
        },
        SearchMessage::RegionSelected(region) => {
            &&& t == (SearchBar { region, ..s })
            &&& r is None
        },
    }
}

impl SearchBar {
    /// An empty search bar on the default region, Brazil.
    pub fn new() -> (b: SearchBar)
        ensures
            b.text@ == Seq::<char>::empty(),
            b.region@ == 16,
    {
        SearchBar { text: String::new(), region: Region::default() }
    }

    /// Takes a message: updates the text or region, or requests a search.
    pub fn update(&mut self, message: SearchMessage) -> (r: Option<SearchRequest>)
        ensures
            search_step(*old(self), message, *final(self), r),
    {
        match message {
            SearchMessage::TextChanged(text) => {
                self.text = text;
                None
            },
            SearchMessage::SearchPressed => Some(SearchRequest { riot_id: self.text.clone(), region: self.region }),
            SearchMessage::RegionSelected(region) => {
                self.region = region;
                None
            },
        }
    }
}

} // verus!
