//! The pieces that the game views of the desktop viewer are built from: roles,
//! champions, items and summoner names as the views keep them.
pub mod formatting;
pub mod summoner;

use vstd::prelude::*;
use crate::game;

verus! {

/// A role as the game views show it.
#[derive(Debug, Clone, Copy, PartialEq, Eq, Hash, Structural)]
pub enum Role {
    Bottom,
    Jungle,
    Mid,
    Support,
    Top,
}

/// The view's role of a player's role; a player without a role has none.
pub open spec fn view_role(role: Option<game::Role>) -> Option<Role> {
    match role {
        Some(game::Role::Bottom) => Some(Role::Bottom),
        Some(game::Role::Jungle) => Some(Role::Jungle),
        Some(game::Role::Mid) => Some(Role::Mid),
        Some(game::Role::Support) => Some(Role::Support),
        Some(game::Role::Top) => Some(Role::Top),
        None => None,
    }
}

/// The name of a role.
pub open spec fn role_name(role: Role) -> Seq<char> {
    match role {
        Role::Bottom => "Bottom"@,
        Role::Jungle => "Jungle"@,
        Role::Mid => "Mid"@,
        Role::Support => "Support"@,
        Role::Top => "Top"@,
    }
}

impl Role {
    pub fn try_from(role: Option<game::Role>) -> (r: Result<Role, ()>)
        ensures
            r is Ok <==> role is Some,
            r matches Ok(v) ==> view_role(role) == Some(v),
    {
        match role {
            Some(game::Role::Bottom) => Ok(Role::Bottom),
            Some(game::Role::Jungle) => Ok(Role::Jungle),
            Some(game::Role::Mid) => Ok(Role::Mid),
            Some(game::Role::Support) => Ok(Role::Support),
            Some(game::Role::Top) => Ok(Role::Top),
            None => Err(()),
        }
    }

    pub fn to_string(&self) -> (s: String)
        ensures
            s@ == role_name(*self),
    {
        let name = match self {
            Role::Bottom => "Bottom",
            Role::Jungle => "Jungle",
            Role::Mid => "Mid",
            Role::Support => "Support",
            Role::Top => "Top",
        };
        String::from_str(name)
    }
}

/// A champion as a view keeps it.
#[derive(Debug, Clone)]
pub struct Champion(pub u16);

/// An item as a view keeps it.
#[derive(Debug, Clone, Copy)]
pub struct Item(pub u16);

/// The six item slots as a view keeps them.
#[derive(Debug, Clone)]
pub struct Inventory(pub [Option<Item>; 6]);

/// A summoner's name as a view keeps it.
#[derive(Debug, Clone)]
pub struct Summoner(pub String);

impl Summoner {
    pub fn to_string(&self) -> (s: String)
        ensures
            s@ == self.0@,
    {
        self.0.clone()
    }
}

} // verus!
