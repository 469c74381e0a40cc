//! The game builder as an explicit state machine.
//!
//! A builder is in one of fourteen states: a threshold is set or not, and
//! zero to six players have been added. Every operation is defined in every
//! state; where it does not apply it leaves the builder as it was. Only
//! `build` can fail, and it then hands the builder back.

use crate::envelope::ResultEnum;
use crate::text::string_from_utf8;
use vstd::prelude::*;
use vstd::utf8::{decode_utf8, valid_utf8};

verus! {

/// A builder: the tag tells whether a threshold is set (`Con`) or not (`Sin`)
/// and how many players were added; the fields hold the names in the order
/// in which they were added and, once set, the threshold.
#[derive(Clone, Debug, PartialEq, Eq)]
pub enum TrucoBuilderEnum {
    SinCero(Vec<String>),
    SinUno(Vec<String>),
    SinDos(Vec<String>),
    SinTres(Vec<String>),
    SinCuatro(Vec<String>),
    SinCinco(Vec<String>),
    SinSeis(Vec<String>),
    ConCero(Vec<String>, u8),
    ConUno(Vec<String>, u8),
    ConDos(Vec<String>, u8),
    ConTres(Vec<String>, u8),
    ConCuatro(Vec<String>, u8),
    ConCinco(Vec<String>, u8),
    ConSeis(Vec<String>, u8),
}

/// What a builder stands for.
pub struct BuilderModel {
    /// The threshold, once it is set.
    pub threshold: Option<u8>,
    /// How many players the state counts.
    pub count: nat,
    /// The names, first added first.
    pub roster: Seq<Seq<char>>,
}

impl BuilderModel {
    /// The state of a new builder.
    pub open spec fn fresh() -> BuilderModel {
        BuilderModel { threshold: None, count: 0, roster: Seq::empty() }
    }

    /// The state counts as many players as it holds names, six at most.
    pub open spec fn wf(self) -> bool {
        self.count <= 6 && self.roster.len() == self.count
    }

    /// The state after one more player, if there is room for one.
    pub open spec fn add_player(self, name: Seq<char>) -> BuilderModel {
        if self.count < 6 {
            BuilderModel { count: self.count + 1, roster: self.roster.push(name), ..self }
        } else {
            self
        }
    }

    /// The state after a threshold is given: only the first one counts.
    pub open spec fn hasta(self, value: u8) -> BuilderModel {
        if self.threshold is None {
            BuilderModel { threshold: Some(value), ..self }
        } else {
            self
        }
    }

    /// A game can be built: a threshold is set and two, four or six play.
    pub open spec fn ready(self) -> bool {
        self.threshold is Some && (self.count == 2 || self.count == 4 || self.count == 6)
    }

    /// The state after the players `names` were added one by one, in order.
    pub open spec fn add_players(self, names: Seq<Seq<char>>) -> BuilderModel
        decreases names.len(),
    {
        if names.len() == 0 {
            self
        } else {
            self.add_players(names.drop_last()).add_player(names.last())
        }
    }
}

/// Adding players counts them up to six and no further: after `names` were
/// added to a state that counts `c`, the state counts `c + names.len()` or
/// six, whichever is less; it holds the old names followed by those of
/// `names` for which there was room; and the threshold is what it was.
pub proof fn lemma_add_players_counts_to_six(state: BuilderModel, names: Seq<Seq<char>>)
    requires
        state.wf(),
    ensures
        state.add_players(names).wf(),
        state.add_players(names).count == if state.count + names.len() <= 6 {
            state.count + names.len()
        } else {
            6
        },
        state.add_players(names).roster == state.roster + names.take(
            if state.count + names.len() <= 6 {
                names.len() as int
            } else {
                6 - state.count
            },
        ),
        state.add_players(names).threshold == state.threshold,
    decreases names.len(),
{
    if names.len() > 0 {
        lemma_add_players_counts_to_six(state, names.drop_last());
    }
}

/// A full state takes no further player: it stays the state it was.
pub proof fn lemma_seventh_player_changes_nothing(state: BuilderModel, name: Seq<char>)
    requires
        state.count >= 6,
    ensures
        state.add_player(name) == state,
{
}

/// The first threshold settles the mode and touches nothing else; a second
/// one is dropped.
pub proof fn lemma_threshold_is_set_once(state: BuilderModel, first: u8, second: u8)
    requires
        state.threshold is None,
    ensures
        state.hasta(first).threshold == Some(first),
        state.hasta(first).count == state.count,
        state.hasta(first).roster == state.roster,
        state.hasta(first).hasta(second) == state.hasta(first),
{
}

/// No step goes back: a player more or none, never one fewer, and a
/// threshold that is set stays set at its value.
pub proof fn lemma_steps_never_go_back(state: BuilderModel, name: Seq<char>, value: u8)
    ensures
        state.count <= state.add_player(name).count <= state.count + 1,
        state.add_player(name).threshold == state.threshold,
        state.hasta(value).count == state.count,
        state.hasta(value).roster == state.roster,
        state.hasta(value).threshold is Some,
        state.threshold is Some ==> state.hasta(value) == state,
{
}

/// Of the fourteen states exactly three are ready to build: those with a
/// threshold and two, four or six players.
pub proof fn lemma_three_states_are_ready(builder: TrucoBuilderEnum)
    ensures
        builder@.ready() <==> builder is ConDos || builder is ConCuatro || builder is ConSeis,
        builder@.count <= 6,
{
}

impl TrucoBuilderEnum {
    /// The names held, as stored.
    pub open spec fn spec_players(&self) -> &Vec<String> {
        match self {
            TrucoBuilderEnum::SinCero(p)
            | TrucoBuilderEnum::SinUno(p)
            | TrucoBuilderEnum::SinDos(p)
            | TrucoBuilderEnum::SinTres(p)
            | TrucoBuilderEnum::SinCuatro(p)
            | TrucoBuilderEnum::SinCinco(p)
            | TrucoBuilderEnum::SinSeis(p)
            | TrucoBuilderEnum::ConCero(p, _)
            | TrucoBuilderEnum::ConUno(p, _)
            | TrucoBuilderEnum::ConDos(p, _)
            | TrucoBuilderEnum::ConTres(p, _)
            | TrucoBuilderEnum::ConCuatro(p, _)
            | TrucoBuilderEnum::ConCinco(p, _)
            | TrucoBuilderEnum::ConSeis(p, _) => p,
        }
    }

    /// The threshold that the tag carries.
    pub open spec fn spec_threshold(&self) -> Option<u8> {
        match *self {
            TrucoBuilderEnum::ConCero(_, h)
            | TrucoBuilderEnum::ConUno(_, h)
            | TrucoBuilderEnum::ConDos(_, h)
            | TrucoBuilderEnum::ConTres(_, h)
            | TrucoBuilderEnum::ConCuatro(_, h)
            | TrucoBuilderEnum::ConCinco(_, h)
            | TrucoBuilderEnum::ConSeis(_, h) => Some(h),
            _ => None,
        }
    }

    /// The number of players that the tag names.
    pub open spec fn spec_count(&self) -> usize {
        match *self {
            TrucoBuilderEnum::SinCero(_) | TrucoBuilderEnum::ConCero(_, _) => 0,
            TrucoBuilderEnum::SinUno(_) | TrucoBuilderEnum::ConUno(_, _) => 1,
            TrucoBuilderEnum::SinDos(_) | TrucoBuilderEnum::ConDos(_, _) => 2,
            TrucoBuilderEnum::SinTres(_) | TrucoBuilderEnum::ConTres(_, _) => 3,
            TrucoBuilderEnum::SinCuatro(_) | TrucoBuilderEnum::ConCuatro(_, _) => 4,
            TrucoBuilderEnum::SinCinco(_) | TrucoBuilderEnum::ConCinco(_, _) => 5,
            TrucoBuilderEnum::SinSeis(_) | TrucoBuilderEnum::ConSeis(_, _) => 6,
        }
    }

    /// The tag agrees with the names held.
    pub open spec fn wf(&self) -> bool {
        self@.wf()
    }

    /// The names of the players, first added first.
    #[verifier::when_used_as_spec(spec_players)]
    pub fn players(&self) -> (names: &Vec<String>)
        ensures
            names == self.spec_players(),
            names.deep_view() == self@.roster,
    {
        match self {
            TrucoBuilderEnum::SinCero(p)
            | TrucoBuilderEnum::SinUno(p)
            | TrucoBuilderEnum::SinDos(p)
            | TrucoBuilderEnum::SinTres(p)
            | TrucoBuilderEnum::SinCuatro(p)
            | TrucoBuilderEnum::SinCinco(p)
            | TrucoBuilderEnum::SinSeis(p)
            | TrucoBuilderEnum::ConCero(p, _)
            | TrucoBuilderEnum::ConUno(p, _)
            | TrucoBuilderEnum::ConDos(p, _)
            | TrucoBuilderEnum::ConTres(p, _)
            | TrucoBuilderEnum::ConCuatro(p, _)
            | TrucoBuilderEnum::ConCinco(p, _)
            | TrucoBuilderEnum::ConSeis(p, _) => p,
        }
    }

    /// The threshold, once it is set.
    #[verifier::when_used_as_spec(spec_threshold)]
    pub fn threshold(&self) -> (value: Option<u8>)
        ensures
            value == self.spec_threshold(),
            value == self@.threshold,
    {
        match self {
            TrucoBuilderEnum::ConCero(_, h)
            | TrucoBuilderEnum::ConUno(_, h)
            | TrucoBuilderEnum::ConDos(_, h)
            | TrucoBuilderEnum::ConTres(_, h)
            | TrucoBuilderEnum::ConCuatro(_, h)
            | TrucoBuilderEnum::ConCinco(_, h)
            | TrucoBuilderEnum::ConSeis(_, h) => Some(*h),
            _ => None,
        }
    }

    /// The number of players that the state counts, zero to six.
    #[verifier::when_used_as_spec(spec_count)]
    pub fn count(&self) -> (n: usize)
        ensures
            n == self.spec_count(),
            n == self@.count,
            n <= 6,
    {
        match self {
            TrucoBuilderEnum::SinCero(_) | TrucoBuilderEnum::ConCero(_, _) => 0,
            TrucoBuilderEnum::SinUno(_) | TrucoBuilderEnum::ConUno(_, _) => 1,
            TrucoBuilderEnum::SinDos(_) | TrucoBuilderEnum::ConDos(_, _) => 2,
            TrucoBuilderEnum::SinTres(_) | TrucoBuilderEnum::ConTres(_, _) => 3,
            TrucoBuilderEnum::SinCuatro(_) | TrucoBuilderEnum::ConCuatro(_, _) => 4,
            TrucoBuilderEnum::SinCinco(_) | TrucoBuilderEnum::ConCinco(_, _) => 5,
            TrucoBuilderEnum::SinSeis(_) | TrucoBuilderEnum::ConSeis(_, _) => 6,
        }
    }
}

impl View for TrucoBuilderEnum {
    type V = BuilderModel;

    open spec fn view(&self) -> BuilderModel {
        BuilderModel {
            threshold: self.spec_threshold(),
            count: self.spec_count() as nat,
            roster: self.spec_players().deep_view(),
        }
    }
}

/// A builder in its first state: no threshold, no players.
pub fn new_truco_builder() -> (builder: TrucoBuilderEnum)
    ensures
        builder is SinCero,
        builder@ == BuilderModel::fresh(),
{
    let builder = TrucoBuilderEnum::SinCero(Vec::new());
    assert(builder@.roster =~= Seq::empty());
    builder
}

/// Adds the player whose name `player` holds, in place.
///
/// A name that is not valid UTF-8 is dropped without a word, and so is a
/// seventh player: the builder then stays exactly as it was.
pub fn add_player(builder: &mut TrucoBuilderEnum, player: Vec<u8>)
    ensures
        valid_utf8(player@) ==> final(builder)@ == old(builder)@.add_player(decode_utf8(player@)),
        !valid_utf8(player@) || old(builder).count() == 6 ==> *final(builder) == *old(builder),
        old(builder).wf() ==> final(builder).wf(),
{
    if let Ok(name) = string_from_utf8(player) {
        let mut current = TrucoBuilderEnum::SinCero(Vec::new());
        core::mem::swap(builder, &mut current);
        let ghost before = current.players().deep_view();
        let next = match current {
            TrucoBuilderEnum::SinCero(mut p) => {
                p.push(name);
                TrucoBuilderEnum::SinUno(p)
            },
            TrucoBuilderEnum::SinUno(mut p) => {
                p.push(name);
                TrucoBuilderEnum::SinDos(p)
            },
            TrucoBuilderEnum::SinDos(mut p) => {
                p.push(name);
                TrucoBuilderEnum::SinTres(p)
            },
            TrucoBuilderEnum::SinTres(mut p) => {
                p.push(name);
                TrucoBuilderEnum::SinCuatro(p)
            },
            TrucoBuilderEnum::SinCuatro(mut p) => {
                p.push(name);
                TrucoBuilderEnum::SinCinco(p)
            },
            TrucoBuilderEnum::SinCinco(mut p) => {
                p.push(name);
                TrucoBuilderEnum::SinSeis(p)
            },
            TrucoBuilderEnum::SinSeis(p) => TrucoBuilderEnum::SinSeis(p),
            TrucoBuilderEnum::ConCero(mut p, h) => {
                p.push(name);
                TrucoBuilderEnum::ConUno(p, h)
            },
            TrucoBuilderEnum::ConUno(mut p, h) => {
                p.push(name);
                TrucoBuilderEnum::ConDos(p, h)
            },
            TrucoBuilderEnum::ConDos(mut p, h) => {
                p.push(name);
                TrucoBuilderEnum::ConTres(p, h)
            },
            TrucoBuilderEnum::ConTres(mut p, h) => {
                p.push(name);
                TrucoBuilderEnum::ConCuatro(p, h)
            },
            TrucoBuilderEnum::ConCuatro(mut p, h) => {
                p.push(name);
                TrucoBuilderEnum::ConCinco(p, h)
            },
            TrucoBuilderEnum::ConCinco(mut p, h) => {
                p.push(name);
                TrucoBuilderEnum::ConSeis(p, h)
            },
            TrucoBuilderEnum::ConSeis(p, h) => TrucoBuilderEnum::ConSeis(p, h),
        };
        assert(old(builder).count() < 6 ==> next.players().deep_view() =~= before.push(name@));
        *builder = next;
    }
}

/// Sets the threshold, in place. Only the first threshold counts: once one
/// is set, the builder stays exactly as it was and `hasta` is dropped.
pub fn hasta(builder: &mut TrucoBuilderEnum, hasta: u8)
    ensures
        final(builder)@ == old(builder)@.hasta(hasta),
        old(builder).threshold() is Some ==> *final(builder) == *old(builder),
        old(builder).wf() ==> final(builder).wf(),
{
    let mut current = TrucoBuilderEnum::SinCero(Vec::new());
    core::mem::swap(builder, &mut current);
    let next = match current {
        TrucoBuilderEnum::SinCero(p) => TrucoBuilderEnum::ConCero(p, hasta),
        TrucoBuilderEnum::SinUno(p) => TrucoBuilderEnum::ConUno(p, hasta),
        TrucoBuilderEnum::SinDos(p) => TrucoBuilderEnum::ConDos(p, hasta),
        TrucoBuilderEnum::SinTres(p) => TrucoBuilderEnum::ConTres(p, hasta),
        TrucoBuilderEnum::SinCuatro(p) => TrucoBuilderEnum::ConCuatro(p, hasta),
        TrucoBuilderEnum::SinCinco(p) => TrucoBuilderEnum::ConCinco(p, hasta),
        TrucoBuilderEnum::SinSeis(p) => TrucoBuilderEnum::ConSeis(p, hasta),
        TrucoBuilderEnum::ConCero(p, h) => TrucoBuilderEnum::ConCero(p, h),
        TrucoBuilderEnum::ConUno(p, h) => TrucoBuilderEnum::ConUno(p, h),
        TrucoBuilderEnum::ConDos(p, h) => TrucoBuilderEnum::ConDos(p, h),
        TrucoBuilderEnum::ConTres(p, h) => TrucoBuilderEnum::ConTres(p, h),
        TrucoBuilderEnum::ConCuatro(p, h) => TrucoBuilderEnum::ConCuatro(p, h),
        TrucoBuilderEnum::ConCinco(p, h) => TrucoBuilderEnum::ConCinco(p, h),
        TrucoBuilderEnum::ConSeis(p, h) => TrucoBuilderEnum::ConSeis(p, h),
    };
    *builder = next;
}

/// What the engine needs to start a game: who plays, in seating order, and
/// the score at which the game is decided.
#[derive(Clone, Debug, PartialEq, Eq)]
pub struct GameSetup {
    pub players: Vec<String>,
    pub hasta: u8,
}

/// What `build` hands over: the game to start, or the builder it was given.
#[derive(Debug)]
pub enum ResultTruco {
    Value(GameSetup),
    Error(TrucoBuilderEnum),
}

/// The outcome of `build`: a tag and, under it, the matching content.
///
/// The tag is `Success` exactly when the content is a game to start. The
/// fields are private and `build` is the only source of such values.
#[derive(Debug)]
pub struct CResultTruco {
    tag: ResultEnum,
    content: ResultTruco,
}

impl CResultTruco {
    /// The tag as stored.
    pub closed spec fn spec_tag(&self) -> ResultEnum {
        self.tag
    }

    /// The content as stored.
    pub closed spec fn content(&self) -> ResultTruco {
        self.content
    }

    /// The tag tells which content there is.
    #[verifier::type_invariant]
    pub open spec fn wf(&self) -> bool {
        self.spec_tag() == ResultEnum::Success <==> self.content() is Value
    }

    /// The tag.
    pub fn tag(&self) -> (t: ResultEnum)
        ensures
            t == self.spec_tag(),
            t == ResultEnum::Success <==> self.content() is Value,
    {
        proof {
            use_type_invariant(self);
        }
        self.tag
    }

    /// Gives up the content: the game to start on success, the builder on
    /// failure.
    pub fn into_content(self) -> (c: ResultTruco)
        ensures
            c == self.content(),
            c is Value <==> self.spec_tag() == ResultEnum::Success,
    {
        proof {
            use_type_invariant(&self);
        }
        self.content
    }
}

/// Builds the game if the builder is ready for it, and hands the builder
/// back untouched if it is not.
pub fn build(builder: TrucoBuilderEnum) -> (r: CResultTruco)
    ensures
        r.wf(),
        builder@.ready() ==> r.spec_tag() == ResultEnum::Success && r.content()
            == ResultTruco::Value(
            GameSetup { players: *builder.players(), hasta: builder.threshold().unwrap() },
        ),
        !builder@.ready() ==> r.spec_tag() == ResultEnum::Failure && r.content()
            == ResultTruco::Error(builder),
{
    match builder {
        TrucoBuilderEnum::SinCero(_)
        | TrucoBuilderEnum::SinUno(_)
        | TrucoBuilderEnum::SinDos(_)
        | TrucoBuilderEnum::SinTres(_)
        | TrucoBuilderEnum::SinCuatro(_)
        | TrucoBuilderEnum::SinCinco(_)
        | TrucoBuilderEnum::SinSeis(_)
        | TrucoBuilderEnum::ConCero(_, _)
        | TrucoBuilderEnum::ConUno(_, _)
        | TrucoBuilderEnum::ConTres(_, _)
        | TrucoBuilderEnum::ConCinco(_, _) => CResultTruco {
            tag: ResultEnum::Failure,
            content: ResultTruco::Error(builder),
        },
        TrucoBuilderEnum::ConDos(players, hasta) => CResultTruco {
            tag: ResultEnum::Success,
            content: ResultTruco::Value(GameSetup { players, hasta }),
        },
        TrucoBuilderEnum::ConCuatro(players, hasta) => CResultTruco {
            tag: ResultEnum::Success,
            content: ResultTruco::Value(GameSetup { players, hasta }),
        },
        TrucoBuilderEnum::ConSeis(players, hasta) => CResultTruco {
            tag: ResultEnum::Success,
            content: ResultTruco::Value(GameSetup { players, hasta }),
        },
    }
}

} // verus!
