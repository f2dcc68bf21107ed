use vstd::prelude::*;

use crate::channel::{CommandQueue, SendError};
use crate::command::{action_name, Action, Command};
use crate::marshal::{int_error, int_fits, to_u16, MarshalError, ScriptValue};

verus! {

/// The pause, in milliseconds, after each emitted command in normal use.
pub const ACTUATION_DELAY_MS: u64 = 1000;

/// Settings of the native functions that scripts call.
pub struct NativeSurface {
    actuation_delay_ms: u64,
}

impl NativeSurface {
    pub closed spec fn delay(&self) -> u64 {
        self.actuation_delay_ms
    }

    /// A surface that pauses `actuation_delay_ms` after each command.
    pub fn new(actuation_delay_ms: u64) -> (r: NativeSurface)
        ensures
            r.delay() == actuation_delay_ms,
    {
        NativeSurface { actuation_delay_ms }
    }

    /// A surface with the usual one-second actuation delay.
    pub fn standard() -> (r: NativeSurface)
        ensures
            r.delay() == ACTUATION_DELAY_MS,
    {
        NativeSurface { actuation_delay_ms: ACTUATION_DELAY_MS }
    }

    /// How long the calling script is held after each emitted command.
    pub fn actuation_delay_ms(&self) -> (r: u64)
        ensures
            r == self.delay(),
    {
        self.actuation_delay_ms
    }
}

/// Sends the command that names `action`; the queue's contract decides
/// whether it is accepted.
pub fn emit_command(queue: &mut CommandQueue, action: Action) -> (r: Result<(), SendError>)
    ensures
        final(queue).producer_open() == old(queue).producer_open(),
        final(queue).consumer_open() == old(queue).consumer_open(),
        (old(queue).producer_open() && old(queue).consumer_open()) <==> r is Ok,
        r is Ok ==> final(queue).pending().len() == old(queue).pending().len() + 1
            && final(queue).pending().drop_last() == old(queue).pending()
            && final(queue).pending().last()@ == action_name(action),
        r is Err ==> final(queue).pending() == old(queue).pending(),
        !old(queue).producer_open() ==> r == Err::<(), SendError>(SendError::ProducerClosed),
        old(queue).producer_open() && !old(queue).consumer_open() ==> r == Err::<(), SendError>(
            SendError::ConsumerGone,
        ),
{
    let command = Command::for_action(action);
    let r = queue.send(command);
    proof {
        if r is Ok {
            assert(final(queue).pending().drop_last() =~= old(queue).pending());
        }
    }
    r
}

/// Stores a new rotation angle into the shared cell with relaxed ordering.
pub fn rotate_cube(rotation: &std::sync::atomic::AtomicU16, angle: u16) {
    rotation.store(angle, std::sync::atomic::Ordering::Relaxed);
}

/// Converts the script's argument to an angle and, only if it is a `u16`
/// exactly, stores it; the angle stored is returned.
pub fn rotate_cube_from_script(rotation: &std::sync::atomic::AtomicU16, angle: &ScriptValue) -> (r:
    Result<u16, MarshalError>)
    ensures
        int_fits(angle, 0, u16::MAX as int) ==> r == Ok::<u16, MarshalError>(angle->Int_0 as u16),
        !int_fits(angle, 0, u16::MAX as int) ==> r == Err::<u16, MarshalError>(int_error(angle)),
{
    let a = to_u16(angle)?;
    rotate_cube(rotation, a);
    Ok(a)
}

/// The rotation angle currently in the shared cell.
pub fn current_rotation(rotation: &std::sync::atomic::AtomicU16) -> u16 {
    rotation.load(std::sync::atomic::Ordering::Relaxed)
}

} // verus!
