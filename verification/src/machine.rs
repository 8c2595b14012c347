//! The decisions of the worker that runs the CPU.
//!
//! The worker runs guest code until the CPU executes a wait instruction,
//! parks until the host wakes it, and then either resumes the guest or, if
//! the host has asked for a stop in the meantime, ends. The worker itself,
//! the CPU engine and the wake-up signal belong to the host program; what
//! the worker does next is decided here.

use crate::mem::BOOT_ROM_BEGIN;
use vstd::prelude::*;

verus! {

/// The interrupt number under which the CPU engine reports a software
/// interrupt.
pub const INTR_SWI: u32 = 2;

/// Size of one instruction in bytes.
pub const INSTRUCTION_SIZE: u64 = 4;

/// Where the worker stands.
#[derive(Clone, Copy, Debug, PartialEq, Eq, Structural)]
pub enum WorkerState {
    /// The CPU executes guest code.
    Running,
    /// The CPU has executed a wait instruction and the worker is parked. The
    /// guest goes on at `pc` when the worker is woken.
    Waiting { pc: u64 },
    /// The worker has ended.
    Stopped,
}

/// What has happened to the worker.
#[derive(Clone, Copy, Debug, PartialEq, Eq, Structural)]
pub enum WorkerEvent {
    /// The CPU's execution call has returned, with the program counter at
    /// `pc`.
    CpuYielded { pc: u64 },
    /// The wake-up signal has released the worker. `stop` is the stop flag as
    /// the worker read it after that.
    Woken { stop: bool },
}

/// What the worker is to do next.
#[derive(Clone, Copy, Debug, PartialEq, Eq, Structural)]
pub enum WorkerAction {
    /// Run the CPU from `pc` until it executes a wait instruction.
    Execute { pc: u64 },
    /// Wait for the wake-up signal.
    Park,
    /// End the worker.
    Exit,
}

/// The transition that an event causes in a state, with the action that
/// follows, or `None` for an event that cannot happen in that state.
///
/// A running CPU can only yield, and the worker then parks. A parked
/// worker can only be woken: it ends if the stop flag is set and resumes the
/// guest where it stopped if not. The stop flag counts at no other moment.
/// Nothing happens to a worker that has ended.
pub open spec fn step(state: WorkerState, event: WorkerEvent) -> Option<
    (WorkerState, WorkerAction),
> {
    match (state, event) {
        (WorkerState::Running, WorkerEvent::CpuYielded { pc }) => Some(
            (WorkerState::Waiting { pc }, WorkerAction::Park),
        ),
        (WorkerState::Waiting { pc }, WorkerEvent::Woken { stop }) => if stop {
            Some((WorkerState::Stopped, WorkerAction::Exit))
        } else {
            Some((WorkerState::Running, WorkerAction::Execute { pc }))
        },
        _ => None,
    }
}

/// The state in which the worker starts and its first action: it runs the
/// guest from the start of the boot ROM.
pub fn worker_start() -> (r: (WorkerState, WorkerAction))
    ensures
        r == (WorkerState::Running, WorkerAction::Execute { pc: BOOT_ROM_BEGIN as u64 }),
{
    (WorkerState::Running, WorkerAction::Execute { pc: BOOT_ROM_BEGIN as u64 })
}

/// Decides what the worker does after `event`.
pub fn worker_step(state: WorkerState, event: WorkerEvent) -> (r: Option<
    (WorkerState, WorkerAction),
>)
    ensures
        r == step(state, event),
{
    match state {
        WorkerState::Running => match event {
            WorkerEvent::CpuYielded { pc } => Some((WorkerState::Waiting { pc }, WorkerAction::Park)),
            WorkerEvent::Woken { stop } => None,
        },
        WorkerState::Waiting { pc } => match event {
            WorkerEvent::Woken { stop } => if stop {
                Some((WorkerState::Stopped, WorkerAction::Exit))
            } else {
                Some((WorkerState::Running, WorkerAction::Execute { pc }))
            },
            WorkerEvent::CpuYielded { pc } => None,
        },
        WorkerState::Stopped => None,
    }
}

/// The address of the instruction that raised interrupt `intr`, where `pc`
/// is the program counter that the engine reports: for a software
/// interrupt, the instruction before `pc`. `None` for any other interrupt,
/// and where no instruction lies before `pc`.
pub open spec fn trap_address(intr: u32, pc: u64) -> Option<u64> {
    if intr == INTR_SWI && pc >= INSTRUCTION_SIZE {
        Some((pc - INSTRUCTION_SIZE) as u64)
    } else {
        None
    }
}

/// Finds the instruction that raised interrupt `intr`.
pub fn trapping_instruction(intr: u32, pc: u64) -> (addr: Option<u64>)
    ensures
        addr == trap_address(intr, pc),
{
    if intr == INTR_SWI && pc >= INSTRUCTION_SIZE {
        Some(pc - INSTRUCTION_SIZE)
    } else {
        None
    }
}

/// The number of a software interrupt: the lowest byte of the instruction
/// that raised it, which is the first of its bytes in memory.
pub fn swi_number(instruction: &[u8; 4]) -> (number: u8)
    ensures
        number == instruction@[0],
{
    instruction[0]
}

/// The worker together with what it shares with the host: the wake-up
/// signal, which remembers at most one wake-up, and the stop flag.
pub struct RunModel {
    pub worker: WorkerState,
    /// The worker has been released by the signal and has not read the stop
    /// flag yet.
    pub released: bool,
    /// The signal is set: a wake-up is pending.
    pub wake_pending: bool,
    pub stop_requested: bool,
}

/// The host raises the wake-up signal.
pub open spec fn raise_signal(m: RunModel) -> RunModel {
    RunModel { wake_pending: true, ..m }
}

/// The host sets the stop flag.
pub open spec fn set_stop_flag(m: RunModel) -> RunModel {
    RunModel { stop_requested: true, ..m }
}

/// The host asks for a stop: it sets the stop flag and then raises the
/// wake-up signal.
pub open spec fn request_stop(m: RunModel) -> RunModel {
    raise_signal(set_stop_flag(m))
}

/// Whether the worker is parked with no wake-up pending, so that it cannot
/// move until the host raises the signal.
pub open spec fn parked(m: RunModel) -> bool {
    m.worker is Waiting && !m.released && !m.wake_pending
}

/// The next move of the worker. If the CPU is running, it yields at `pc`.
/// A parked worker takes a pending wake-up, which resets the signal, and
/// stays parked if there is none. A worker that was released reads the stop
/// flag and goes where `step` says.
pub open spec fn worker_move(m: RunModel, pc: u64) -> RunModel {
    match m.worker {
        WorkerState::Running => RunModel {
            worker: step(m.worker, WorkerEvent::CpuYielded { pc }).unwrap().0,
            released: false,
            ..m
        },
        WorkerState::Waiting { pc: resume } => if m.released {
            RunModel {
                worker: step(m.worker, WorkerEvent::Woken { stop: m.stop_requested }).unwrap().0,
                released: false,
                ..m
            }
        } else if m.wake_pending {
            RunModel { released: true, wake_pending: false, ..m }
        } else {
            m
        },
        WorkerState::Stopped => m,
    }
}

/// A stop always gets through.
///
/// Once the host has asked for a stop, the worker is never left parked:
/// whatever it was doing, and a worker that was parked too, it ends within
/// its next three moves, and none of these moves finds it parked without a
/// wake-up. This is said of every move that the worker makes; that a
/// running CPU comes to yield is the guest's doing and is taken for granted.
pub proof fn lemma_stop_gets_through(m: RunModel, pc1: u64, pc2: u64, pc3: u64)
    ensures
        !parked(request_stop(m)),
        !parked(worker_move(request_stop(m), pc1)),
        !parked(worker_move(worker_move(request_stop(m), pc1), pc2)),
        worker_move(worker_move(worker_move(request_stop(m), pc1), pc2), pc3).worker
            == WorkerState::Stopped,
{
}

/// The flag comes before the signal. Were the signal raised first, a
/// parked worker could take the wake-up, find that no stop is asked for, run
/// the guest to its next wait and park again, and the flag that is set
/// after that would leave it parked.
pub proof fn lemma_flag_comes_before_signal()
    ensures
        exists|m: RunModel, pc: u64|
            parked(
                #[trigger] set_stop_flag(
                    worker_move(worker_move(worker_move(raise_signal(m), pc), pc), pc),
                ),
            ),
{
    let m = RunModel {
        worker: WorkerState::Waiting { pc: 0 },
        released: false,
        wake_pending: false,
        stop_requested: false,
    };
    assert(parked(
        set_stop_flag(worker_move(worker_move(worker_move(raise_signal(m), 0), 0), 0)),
    ));
}

/// The signal does not count: raising it twice before the worker takes the
/// wake-up is the same as raising it once.
pub proof fn lemma_wakeups_coalesce(m: RunModel)
    ensures
        raise_signal(raise_signal(m)) == raise_signal(m),
{
}

/// A parked worker moves only when the host wakes it, and one wake-up
/// releases it once: after it has taken the wake-up and gone on, the signal
/// is reset.
pub proof fn lemma_wakeup_releases_once(m: RunModel, pc: u64)
    requires
        parked(m),
        !m.stop_requested,
    ensures
        worker_move(m, pc) == m,
        worker_move(worker_move(raise_signal(m), pc), pc).worker == WorkerState::Running,
        !worker_move(worker_move(raise_signal(m), pc), pc).wake_pending,
{
}

} // verus!
