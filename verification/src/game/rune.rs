//! Rune pages: the keystone of the primary path and the path of the secondary one.
use vstd::prelude::*;

verus! {

/// A rune or rune path, by its id.
#[derive(Debug, Clone, Copy, PartialEq, Eq, Hash, Structural)]
pub struct Keystone(pub u32);

impl Keystone {
    pub fn new(id: u32) -> (k: Keystone)
        ensures
            k.0 == id,
    {
        Keystone(id)
    }
}

#[derive(Debug, Clone, Copy)]
pub struct Primary {
    pub keystone: Keystone,
}

impl Primary {
    pub fn keystone(&self) -> (k: Keystone)
        ensures
            k == self.keystone,
    {
        self.keystone
    }
}

#[derive(Debug, Clone, Copy)]
pub struct Secondary {
    pub lesser: [Keystone; 2],
}

/// The rune path that a lesser rune belongs to: its id with the last two digits
/// zeroed, except for the runes whose ids do not follow that numbering (Hail of
/// Blades belongs to Domination, 8100; Overheal, Triumph and the Legend runes to
/// Precision, 8000).
pub open spec fn path_of(id: u32) -> u32 {
    if id == 9923 {
        8100
    } else if id == 9101 || id == 9111 || id == 9104 || id == 9105 || id == 9103 {
        8000
    } else {
        ((id / 100) * 100) as u32
    }
}

impl Secondary {
    /// The path of the secondary runes, from the first lesser rune.
    pub fn keystone(&self) -> (k: Keystone)
        ensures
            k.0 == path_of(self.lesser@[0].0),
    {
        let id = self.lesser[0].0;
        if id == 9923 {
            Keystone(8100)
        } else if id == 9101 || id == 9111 || id == 9104 || id == 9105 || id == 9103 {
            Keystone(8000)
        } else {
            Keystone((id / 100) * 100)
        }
    }
}

/// A path id is a whole hundred, never above the rune id it comes from.
pub proof fn lemma_path_is_hundred(id: u32)
    ensures
        path_of(id) % 100 == 0,
        path_of(id) <= id,
{
}

#[derive(Debug, Clone, Copy)]
pub struct Page {
    pub primary: Primary,
    pub secondary: Secondary,
}


/// The rune chosen at `selection` in style `style` of a rune page's styles (each the
/// list of its chosen rune ids, in order); 0 where there is none.
pub open spec fn perk_at(styles: Seq<Seq<i32>>, style: int, selection: int) -> Keystone {
    if 0 <= style < styles.len() && 0 <= selection < styles[style].len() {
        Keystone(styles[style][selection] as u32)
    } else {
        Keystone(0)
    }
}

fn perk(styles: &Vec<Vec<i32>>, style: usize, selection: usize) -> (k: Keystone)
    ensures
        k == perk_at(styles@.map_values(|v: Vec<i32>| v@), style as int, selection as int),
{
    if style < styles.len() && selection < styles[style].len() {
        Keystone(styles[style][selection] as u32)
    } else {
        Keystone(0)
    }
}

impl Page {
    /// The page of a participant's rune styles: the keystone is the primary style's
    /// first rune, the lesser runes the secondary style's first two.
    pub fn from_styles(styles: &Vec<Vec<i32>>) -> (p: Page)
        ensures
            p.primary.keystone == perk_at(styles@.map_values(|v: Vec<i32>| v@), 0, 0),
            p.secondary.lesser@[0] == perk_at(styles@.map_values(|v: Vec<i32>| v@), 1, 0),
            p.secondary.lesser@[1] == perk_at(styles@.map_values(|v: Vec<i32>| v@), 1, 1),
    {
        Page {
            primary: Primary { keystone: perk(styles, 0, 0) },
            secondary: Secondary { lesser: [perk(styles, 1, 0), perk(styles, 1, 1)] },
        }
    }
}

} // verus!
