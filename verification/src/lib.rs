//! A boundary layer for a turn-based card-game engine.
//!
//! Everything that crosses the boundary is plain data: byte buffers come in,
//! tagged results, optional teams and string lists go out. The game itself is
//! played by an engine that the host owns; this crate decides what is asked
//! of that engine and how its answers are encoded.

pub mod array;
pub mod builder;
pub mod envelope;
pub mod game;
pub mod team;
pub mod text;

pub use array::{free_string_array, CStringArray};
pub use builder::{
    add_player, build, hasta, new_truco_builder, BuilderModel, CResultTruco, GameSetup, ResultTruco,
    TrucoBuilderEnum,
};
pub use envelope::{CResult, Envelope, ResultEnum};
pub use game::{
    cantar_envido, cantar_falta_envido, cantar_no_quiero, cantar_quiero, cantar_re_truco,
    cantar_real_envido, cantar_truco, cantar_vale_cuatro, irse_al_maso, print_player, tirar_carta,
    valid_commands, Operation, Request,
};
pub use team::{CEquipo, COptionEquipo, Equipo, OptionEnum};
