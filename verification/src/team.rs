//! Teams and the optional team: the answer to "who holds the win".

use vstd::prelude::*;

verus! {

/// The discriminant of an optional value that crosses the boundary.
#[derive(Clone, Copy, Debug, PartialEq, Eq, Structural)]
pub enum OptionEnum {
    /// There is a value.
    Present,
    /// There is none.
    Absent,
}

/// One of the two sides of a game, as the engine names them.
#[derive(Clone, Copy, Debug, PartialEq, Eq, Structural)]
pub enum Equipo {
    Nosotros,
    Ellos,
}

/// One of the two sides of a game, as it crosses the boundary.
#[derive(Clone, Copy, Debug, PartialEq, Eq, Structural)]
pub enum CEquipo {
    Nosotros,
    Ellos,
}

impl CEquipo {
    /// The boundary's name for the engine's team.
    pub open spec fn of(eq: Equipo) -> CEquipo {
        match eq {
            Equipo::Nosotros => CEquipo::Nosotros,
            Equipo::Ellos => CEquipo::Ellos,
        }
    }

    /// Encodes a team.
    #[must_use]
    pub fn new(eq: Equipo) -> (c: Self)
        ensures
            c == CEquipo::of(eq),
    {
        match eq {
            Equipo::Nosotros => CEquipo::Nosotros,
            Equipo::Ellos => CEquipo::Ellos,
        }
    }
}

/// A team or none: a tag and, under it, a team.
///
/// Where the tag is `Absent` the team is a filler, always `Ellos`, and means
/// nothing.
#[derive(Clone, Copy, Debug)]
pub struct COptionEquipo {
    tag: OptionEnum,
    some: CEquipo,
}

impl View for COptionEquipo {
    type V = Option<CEquipo>;

    closed spec fn view(&self) -> Option<CEquipo> {
        match self.tag {
            OptionEnum::Present => Some(self.some),
            OptionEnum::Absent => None,
        }
    }
}

impl COptionEquipo {
    /// The tag as stored.
    pub closed spec fn spec_tag(&self) -> OptionEnum {
        self.tag
    }

    /// The team as stored, filler or not.
    pub closed spec fn spec_some(&self) -> CEquipo {
        self.some
    }

    /// Encodes the winner, if there is one.
    #[must_use]
    pub fn new(og: Option<Equipo>) -> (r: Self)
        ensures
            og matches Some(eq) ==> r@ == Some(CEquipo::of(eq)) && r.spec_tag()
                == OptionEnum::Present && r.spec_some() == CEquipo::of(eq),
            og is None ==> r@ is None && r.spec_tag() == OptionEnum::Absent && r.spec_some()
                == CEquipo::Ellos,
    {
        let (tag, some) = match og {
            Some(eq) => (OptionEnum::Present, CEquipo::new(eq)),
            None => (OptionEnum::Absent, CEquipo::Ellos),
        };
        Self { tag, some }
    }

    /// The tag. It is `Present` exactly when a team holds the win.
    #[verifier::when_used_as_spec(spec_tag)]
    pub fn tag(&self) -> (t: OptionEnum)
        ensures
            t == self.spec_tag(),
            t == OptionEnum::Present <==> self@ is Some,
    {
        self.tag
    }

    /// The team under the tag; it means something only where the tag is
    /// `Present`.
    #[verifier::when_used_as_spec(spec_some)]
    pub fn some(&self) -> (c: CEquipo)
        ensures
            c == self.spec_some(),
            self@ matches Some(team) ==> c == team,
    {
        self.some
    }
}

} // verus!
