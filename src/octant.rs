use vstd::prelude::*;

verus! {

/// One of the eight 45° compass sectors, each centred on its direction.
#[derive(Debug, Clone, Copy, PartialEq, Eq, Structural)]
pub enum Octant {
    North,
    NorthEast,
    East,
    SouthEast,
    South,
    SouthWest,
    West,
    NorthWest,
}

/// The octant of a sector index counted clockwise from north; indices wrap
/// every eight sectors.
pub open spec fn sector_octant(sector: int) -> Octant {
    let k = sector % 8;
    if k == 0 {
        Octant::North
    } else if k == 1 {
        Octant::NorthEast
    } else if k == 2 {
        Octant::East
    } else if k == 3 {
        Octant::SouthEast
    } else if k == 4 {
        Octant::South
    } else if k == 5 {
        Octant::SouthWest
    } else if k == 6 {
        Octant::West
    } else {
        Octant::NorthWest
    }
}

impl Octant {
    /// The label of the octant built from the four base tokens; a combined
    /// label puts the north or south token before the east or west token.
    pub open spec fn label_of(
        self,
        n: Seq<char>,
        e: Seq<char>,
        s: Seq<char>,
        w: Seq<char>,
    ) -> Seq<char> {
        match self {
            Octant::North => n,
            Octant::NorthEast => n + e,
            Octant::East => e,
            Octant::SouthEast => s + e,
            Octant::South => s,
            Octant::SouthWest => s + w,
            Octant::West => w,
            Octant::NorthWest => n + w,
        }
    }

    /// The octant of a sector index counted clockwise from north.
    pub fn from_sector(sector: u32) -> (r: Octant)
        ensures
            r == sector_octant(sector as int),
    {
        let k: u32 = sector % 8;
        if k == 0 {
            Octant::North
        } else if k == 1 {
            Octant::NorthEast
        } else if k == 2 {
            Octant::East
        } else if k == 3 {
            Octant::SouthEast
        } else if k == 4 {
            Octant::South
        } else if k == 5 {
            Octant::SouthWest
        } else if k == 6 {
            Octant::West
        } else {
            Octant::NorthWest
        }
    }

    /// The label of the octant built from the four base tokens.
    pub fn label(&self, n: &str, e: &str, s: &str, w: &str) -> (r: String)
        ensures
            r@ == self.label_of(n@, e@, s@, w@),
    {
        match self {
            Octant::North => n.to_owned(),
            Octant::NorthEast => n.to_owned().concat(e),
            Octant::East => e.to_owned(),
            Octant::SouthEast => s.to_owned().concat(e),
            Octant::South => s.to_owned(),
            Octant::SouthWest => s.to_owned().concat(w),
            Octant::West => w.to_owned(),
            Octant::NorthWest => n.to_owned().concat(w),
        }
    }
}

/// The label of the sector with the given index, counted clockwise from
/// north in steps of 45°, built from the four base tokens.
pub fn octant_label(sector: u32, n: &str, e: &str, s: &str, w: &str) -> (r: String)
    ensures
        r@ == sector_octant(sector as int).label_of(n@, e@, s@, w@),
{
    Octant::from_sector(sector).label(n, e, s, w)
}

} // verus!
