//! Play: what each entry of the boundary asks of the engine.
//!
//! An entry reads the player's name from the bytes it was given. If they are
//! text, it tells the host what to ask of the engine for that player; if
//! not, it answers at once and the engine is never asked. What the engine
//! then says is encoded by [`CResult::new`], [`CResult::from_text`] and
//! [`CStringArray::from_vec`].

use crate::array::CStringArray;
use crate::envelope::{CResult, Envelope};
use crate::text::{string_from_utf8, utf8_error_text};
use vstd::prelude::*;
use vstd::utf8::{decode_utf8, valid_utf8};

verus! {

/// An operation of the engine that is carried out for one player.
#[derive(Clone, Copy, Debug, PartialEq, Eq, Structural)]
pub enum Operation {
    /// Withdraw from the round.
    IrseAlMaso,
    /// Accept the raise on the table.
    CantarQuiero,
    /// Decline the raise on the table.
    CantarNoQuiero,
    /// The three bets before the tricks, in rising order.
    CantarEnvido,
    CantarRealEnvido,
    CantarFaltaEnvido,
    /// The three bets on the tricks, in rising order.
    CantarTruco,
    CantarReTruco,
    CantarValeCuatro,
    /// Play the card at this index of the player's hand, counted from zero.
    TirarCarta(usize),
}

/// What the host is to ask of the engine: an operation and the player it is
/// for.
#[derive(Clone, Debug)]
pub struct Request {
    pub operation: Operation,
    pub player: String,
}

/// The request for `operation` on behalf of the player named by `bytes`.
pub open spec fn names(request: Request, operation: Operation, bytes: Seq<u8>) -> bool {
    request.operation == operation && request.player@ == decode_utf8(bytes)
}

/// What an entry that answers with a tagged result gives for `bytes`: the
/// request if they are text, and else the failure that says why not.
pub open spec fn asks(
    outcome: Result<Request, CResult>,
    operation: Operation,
    bytes: Seq<u8>,
) -> bool {
    match outcome {
        Ok(request) => valid_utf8(bytes) && names(request, operation, bytes),
        Err(failure) => !valid_utf8(bytes) && failure@ == Envelope::Failure(
            utf8_error_text(bytes),
        ),
    }
}

/// What an entry that only needs the player gives for `bytes`: the name if
/// they are text, and else an answer of its own.
pub open spec fn reads<R>(outcome: Result<String, R>, bytes: Seq<u8>) -> bool {
    match outcome {
        Ok(name) => valid_utf8(bytes) && name@ == decode_utf8(bytes),
        Err(_) => !valid_utf8(bytes),
    }
}

/// Reads the player's name and pairs it with the operation, or packs the
/// reason why the name cannot be read as a failure.
fn request(operation: Operation, player: Vec<u8>) -> (outcome: Result<Request, CResult>)
    ensures
        asks(outcome, operation, player@),
{
    match string_from_utf8(player) {
        Ok(name) => Ok(Request { operation, player: name }),
        Err(reason) => Err(CResult::new(Err(reason.as_str()))),
    }
}

/// The player withdraws from the round.
pub fn irse_al_maso(player: Vec<u8>) -> (outcome: Result<Request, CResult>)
    ensures
        asks(outcome, Operation::IrseAlMaso, player@),
{
    request(Operation::IrseAlMaso, player)
}

/// The player accepts the raise.
pub fn cantar_quiero(player: Vec<u8>) -> (outcome: Result<Request, CResult>)
    ensures
        asks(outcome, Operation::CantarQuiero, player@),
{
    request(Operation::CantarQuiero, player)
}

/// The player declines the raise.
pub fn cantar_no_quiero(player: Vec<u8>) -> (outcome: Result<Request, CResult>)
    ensures
        asks(outcome, Operation::CantarNoQuiero, player@),
{
    request(Operation::CantarNoQuiero, player)
}

/// The player calls envido.
pub fn cantar_envido(player: Vec<u8>) -> (outcome: Result<Request, CResult>)
    ensures
        asks(outcome, Operation::CantarEnvido, player@),
{
    request(Operation::CantarEnvido, player)
}

/// The player calls real envido.
pub fn cantar_real_envido(player: Vec<u8>) -> (outcome: Result<Request, CResult>)
    ensures
        asks(outcome, Operation::CantarRealEnvido, player@),
{
    request(Operation::CantarRealEnvido, player)
}

/// The player calls falta envido.
pub fn cantar_falta_envido(player: Vec<u8>) -> (outcome: Result<Request, CResult>)
    ensures
        asks(outcome, Operation::CantarFaltaEnvido, player@),
{
    request(Operation::CantarFaltaEnvido, player)
}

/// The player calls truco.
pub fn cantar_truco(player: Vec<u8>) -> (outcome: Result<Request, CResult>)
    ensures
        asks(outcome, Operation::CantarTruco, player@),
{
    request(Operation::CantarTruco, player)
}

/// The player calls re truco.
pub fn cantar_re_truco(player: Vec<u8>) -> (outcome: Result<Request, CResult>)
    ensures
        asks(outcome, Operation::CantarReTruco, player@),
{
    request(Operation::CantarReTruco, player)
}

/// The player calls vale cuatro.
pub fn cantar_vale_cuatro(player: Vec<u8>) -> (outcome: Result<Request, CResult>)
    ensures
        asks(outcome, Operation::CantarValeCuatro, player@),
{
    request(Operation::CantarValeCuatro, player)
}

/// The player plays the card at index `card` of the hand.
pub fn tirar_carta(player: Vec<u8>, card: usize) -> (outcome: Result<Request, CResult>)
    ensures
        asks(outcome, Operation::TirarCarta(card), player@),
{
    request(Operation::TirarCarta(card), player)
}

/// The view of the game is asked for the player whose name this reads; the
/// engine's answer goes through [`CResult::from_text`].
pub fn print_player(player: Vec<u8>) -> (outcome: Result<String, CResult>)
    ensures
        reads(outcome, player@),
        outcome matches Err(failure) ==> failure@ == Envelope::Failure(utf8_error_text(player@)),
{
    match string_from_utf8(player) {
        Ok(name) => Ok(name),
        Err(reason) => Err(CResult::new(Err(reason.as_str()))),
    }
}

/// The legal moves are asked for the player whose name this reads; the
/// engine's answer goes through [`CStringArray::from_vec`]. A name that
/// cannot be read is answered with a list of one string, the reason.
pub fn valid_commands(player: Vec<u8>) -> (outcome: Result<String, CStringArray>)
    ensures
        reads(outcome, player@),
        outcome matches Err(list) ==> list@ == seq![utf8_error_text(player@)],
{
    match string_from_utf8(player) {
        Ok(name) => Ok(name),
        Err(reason) => {
            let mut reasons: Vec<String> = Vec::new();
            reasons.push(reason);
            assert(reasons.deep_view() =~= seq![utf8_error_text(player@)]);
            Err(CStringArray::from_vec(reasons))
        },
    }
}

} // verus!
