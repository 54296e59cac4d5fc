//! The command bridge: the operations that the user interface may invoke.
//!
//! Every operation starts from the live answer to "is the game attached?".
//! The bridge keeps no copy of that answer between calls, because the game
//! may start or exit at any moment: the host asks the process watcher anew
//! for each command and passes the answer in.

use vstd::prelude::*;

verus! {

/// A logical region of the game's memory, known by name.
///
/// The bridge never holds an address. The host resolves the region when it
/// carries out a request, once per request, so that addresses may change from
/// one game session to the next.
#[derive(Clone, Copy, Debug, PartialEq, Eq, Structural)]
pub enum MemoryRegion {
    /// The buffer that holds the world map's message data.
    WorldMesData,
}

/// An instruction to the host: write `bytes` at the start of `region`.
#[derive(Clone, Debug, PartialEq, Eq)]
pub struct WriteRequest {
    pub region: MemoryRegion,
    pub bytes: Vec<u8>,
}

/// The mathematical content of a [`WriteRequest`].
pub struct WriteRequestView {
    pub region: MemoryRegion,
    pub bytes: Seq<u8>,
}

impl View for WriteRequest {
    type V = WriteRequestView;

    open spec fn view(&self) -> WriteRequestView {
        WriteRequestView { region: self.region, bytes: self.bytes@ }
    }
}

/// The text of the error that a command returns when it needs the game and
/// the game is not attached.
pub open spec fn not_running_message() -> Seq<char> {
    "FF7 is not running"@
}

/// What `update_mes_data` decides: with the game attached, one write of the
/// whole buffer to the world message data; without it, the error, and no
/// write.
pub open spec fn mes_data_decision(attached: bool, data: Seq<u8>) -> Result<
    WriteRequestView,
    Seq<char>,
> {
    if attached {
        Ok(WriteRequestView { region: MemoryRegion::WorldMesData, bytes: data })
    } else {
        Err(not_running_message())
    }
}

/// The view of a decision of `update_mes_data`.
pub open spec fn decision_view(decision: Result<WriteRequest, String>) -> Result<
    WriteRequestView,
    Seq<char>,
> {
    match decision {
        Ok(request) => Ok(request@),
        Err(message) => Err(message@),
    }
}

/// Reports whether the game is running.
///
/// `attached` is the process watcher's answer at the time of the call. The
/// command hands it on as it is: it cannot fail and it changes nothing.
pub fn is_ff7_running(attached: bool) -> (running: bool)
    ensures
        running == attached,
{
    attached
}

/// Decides what becomes of a request to replace the world message data.
///
/// `attached` is the process watcher's answer at the time of the call. If the
/// game is attached, the result is the one write that the host must attempt:
/// all of `data`, unchanged, to [`MemoryRegion::WorldMesData`]. If it is not,
/// the result is the error for the caller; it carries no request, so nothing
/// is written.
///
/// The host reports how the write went to [`mes_data_written`], which gives
/// the command's final result.
pub fn update_mes_data(attached: bool, data: Vec<u8>) -> (decision: Result<WriteRequest, String>)
    ensures
        decision_view(decision) == mes_data_decision(attached, data@),
{
    if attached {
        Ok(WriteRequest { region: MemoryRegion::WorldMesData, bytes: data })
    } else {
        Err("FF7 is not running".to_string())
    }
}

/// Gives the final result of `update_mes_data` once the host has attempted
/// the write.
///
/// The write is fire-and-forget: the command succeeds whether or not the
/// write did. A game that exits between the attachment check and the write
/// therefore passes unnoticed, and the caller is not told of any other write
/// failure either.
pub fn mes_data_written<E>(outcome: Result<(), E>) -> (result: Result<(), String>)
    ensures
        result is Ok,
{
    Ok(())
}

/// Hands the outcome of the host's game-state read to the caller.
///
/// Reading and decoding the game's memory belongs to the host, and so does
/// the check that the game is attached. A snapshot comes back as it was read,
/// and an error with the text that the read gave it.
pub fn read_ff7_data<S>(outcome: Result<S, String>) -> (result: Result<S, String>)
    ensures
        result == outcome,
{
    outcome
}

} // verus!
