//! The orientation value type and its classification predicates.

use vstd::prelude::*;

pub use crate::tracker::Tracker;

verus! {

/// Device orientation as computed from accelerometer data.
///
/// Exactly one variant is active at a time; `Unknown` stands for "no
/// classification possible" and belongs to none of the three categories.
#[derive(Copy, Clone, Debug, PartialEq, Eq, Structural)]
pub enum Orientation {
    /// Unable to determine the orientation from current data
    Unknown,
    /// Device is in portrait mode in whatever way is considered "up"
    PortraitUp,
    /// Device is in portrait mode in whatever way is considered "down"
    PortraitDown,
    /// Device is in landscape mode in whatever way is considered "up"
    LandscapeUp,
    /// Device is in landscape mode in whatever way is considered "down"
    LandscapeDown,
    /// Device is parallel to the ground, facing up
    FaceUp,
    /// Device is parallel to the ground, facing down
    FaceDown,
}

impl Orientation {
    /// The flat orientations: `FaceUp` and `FaceDown`.
    pub open spec fn flat(self) -> bool {
        self == Orientation::FaceUp || self == Orientation::FaceDown
    }

    /// The landscape orientations: `LandscapeUp` and `LandscapeDown`.
    pub open spec fn landscape(self) -> bool {
        self == Orientation::LandscapeUp || self == Orientation::LandscapeDown
    }

    /// The portrait orientations: `PortraitUp` and `PortraitDown`.
    pub open spec fn portrait(self) -> bool {
        self == Orientation::PortraitUp || self == Orientation::PortraitDown
    }

    /// The variant's name, as a sequence of characters.
    pub open spec fn name_chars(self) -> Seq<char> {
        match self {
            Orientation::Unknown => "Unknown"@,
            Orientation::PortraitUp => "PortraitUp"@,
            Orientation::PortraitDown => "PortraitDown"@,
            Orientation::LandscapeUp => "LandscapeUp"@,
            Orientation::LandscapeDown => "LandscapeDown"@,
            Orientation::FaceUp => "FaceUp"@,
            Orientation::FaceDown => "FaceDown"@,
        }
    }

    /// Is this orientation considered to be flat?
    pub fn is_flat(self) -> (flat: bool)
        ensures
            flat == self.flat(),
    {
        match self {
            Orientation::FaceUp | Orientation::FaceDown => true,
            _ => false,
        }
    }

    /// Is the device in a landscape orientation?
    pub fn is_landscape(self) -> (landscape: bool)
        ensures
            landscape == self.landscape(),
    {
        match self {
            Orientation::LandscapeUp | Orientation::LandscapeDown => true,
            _ => false,
        }
    }

    /// Is the device in a portrait orientation?
    pub fn is_portrait(self) -> (portrait: bool)
        ensures
            portrait == self.portrait(),
    {
        match self {
            Orientation::PortraitUp | Orientation::PortraitDown => true,
            _ => false,
        }
    }

    /// The variant's name as text, for diagnostics.
    pub fn name(self) -> (text: &'static str)
        ensures
            text@ == self.name_chars(),
    {
        match self {
            Orientation::Unknown => "Unknown",
            Orientation::PortraitUp => "PortraitUp",
            Orientation::PortraitDown => "PortraitDown",
            Orientation::LandscapeUp => "LandscapeUp",
            Orientation::LandscapeDown => "LandscapeDown",
            Orientation::FaceUp => "FaceUp",
            Orientation::FaceDown => "FaceDown",
        }
    }

    /// Every orientation other than `Unknown` falls in exactly one of the
    /// three categories flat, landscape and portrait; `Unknown` falls in none.
    pub proof fn categories_partition(self)
        ensures
            self == Orientation::Unknown <==> !self.flat() && !self.landscape() && !self.portrait(),
            !(self.flat() && self.landscape()),
            !(self.flat() && self.portrait()),
            !(self.landscape() && self.portrait()),
    {
    }

    /// Two orientations with the same name are the same orientation.
    pub proof fn names_are_distinct(self, other: Orientation)
        requires
            self.name_chars() == other.name_chars(),
        ensures
            self == other,
    {
        reveal_strlit("Unknown");
        reveal_strlit("PortraitUp");
        reveal_strlit("PortraitDown");
        reveal_strlit("LandscapeUp");
        reveal_strlit("LandscapeDown");
        reveal_strlit("FaceUp");
        reveal_strlit("FaceDown");
        let a = self.name_chars();
        let b = other.name_chars();
        assert(a.len() == b.len());
    }
}

} // verus!
