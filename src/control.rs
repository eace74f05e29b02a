//! Pausing, resuming and terminating a running guest from another thread.
//!
//! The controller never touches the guest's state. It raises the engine's
//! epoch, which makes the guest trap into a deadline callback at its next
//! checkpoint, and it sends operations over a channel that the deadline
//! callback reads.
use std::sync::mpsc::Sender;
use vstd::prelude::*;
use wasmtime::Engine;

verus! {

/// The message that a blocked deadline callback waits for.
#[derive(Clone, Copy, Debug, PartialEq, Eq, Structural)]
pub enum ProgramOperation {
    /// Resume the program
    Resume,
    /// Terminate the program
    Terminate,
}

/// The states of a controlled guest.
#[derive(Clone, Copy, Debug, PartialEq, Eq, Structural)]
pub enum ControlState {
    Running,
    Paused,
    Terminated,
}

/// What the controller did outside itself.
#[derive(Clone, Copy, Debug, PartialEq, Eq, Structural)]
pub enum ControlAction {
    /// Raised the engine's epoch.
    IncrementEpoch,
    /// Sent an operation to the executing thread; whether it was delivered.
    Send(ProgramOperation, bool),
}

/// A control operation asked for in a state that does not allow it, or one
/// whose message found no receiver.
#[derive(Clone, Copy, Debug, PartialEq, Eq, Structural)]
pub enum ControlError {
    /// `pause` while paused.
    AlreadyPaused,
    /// `resume` while running.
    AlreadyRunning,
    /// Any operation after `terminate`.
    AlreadyTerminated,
    /// The executing thread is gone, so the operation could not be delivered.
    ChannelClosed,
}

/// Why guest execution stopped at an epoch deadline.
#[derive(Clone, Copy, Debug, PartialEq, Eq, Structural)]
pub enum ExecError {
    /// The controller terminated the program.
    Terminated,
    /// The controller went away while the program was paused.
    ControllerGone,
}

/// The model of a program handle: its state and every outside action taken.
pub struct HandleModel {
    pub state: ControlState,
    pub actions: Seq<ControlAction>,
}

/// `pause`: valid only while running; raises the epoch.
pub open spec fn pause_model(m: HandleModel) -> (HandleModel, Result<(), ControlError>) {
    match m.state {
        ControlState::Running => (
            HandleModel { state: ControlState::Paused, actions: m.actions.push(ControlAction::IncrementEpoch) },
            Ok(()),
        ),
        ControlState::Paused => (m, Err(ControlError::AlreadyPaused)),
        ControlState::Terminated => (m, Err(ControlError::AlreadyTerminated)),
    }
}

/// `resume`: valid only while paused; sends `Resume`, and the program runs
/// again once the message was delivered (`sent`, which the log records).
pub open spec fn resume_model(m: HandleModel, sent: bool) -> (HandleModel, Result<(), ControlError>) {
    match m.state {
        ControlState::Paused => {
            let actions = m.actions.push(ControlAction::Send(ProgramOperation::Resume, sent));
            if sent {
                (HandleModel { state: ControlState::Running, actions }, Ok(()))
            } else {
                (HandleModel { state: ControlState::Paused, actions }, Err(ControlError::ChannelClosed))
            }
        },
        ControlState::Running => (m, Err(ControlError::AlreadyRunning)),
        ControlState::Terminated => (m, Err(ControlError::AlreadyTerminated)),
    }
}

/// `terminate`: valid while running or paused; raises the epoch, so that a
/// running program traps, then sends `Terminate`. The handle is terminated
/// whether or not the message was delivered (`sent`, which the log records).
pub open spec fn terminate_model(m: HandleModel, sent: bool) -> (HandleModel, Result<(), ControlError>) {
    match m.state {
        ControlState::Terminated => (m, Err(ControlError::AlreadyTerminated)),
        _ => (
            HandleModel {
                state: ControlState::Terminated,
                actions: m.actions.push(ControlAction::IncrementEpoch).push(
                    ControlAction::Send(ProgramOperation::Terminate, sent),
                ),
            },
            if sent {
                Ok(())
            } else {
                Err(ControlError::ChannelClosed)
            },
        ),
    }
}

/// What the deadline callback does with the operation it received (`None`
/// where the channel is closed): the guest goes on for one more epoch, or
/// stops.
pub open spec fn deadline_outcome(op: Option<ProgramOperation>) -> Result<u64, ExecError> {
    match op {
        Some(ProgramOperation::Resume) => Ok(1),
        Some(ProgramOperation::Terminate) => Err(ExecError::Terminated),
        None => Err(ExecError::ControllerGone),
    }
}

/// Decides, in the deadline callback, what a received operation means for
/// the guest: the epochs to run on before the next deadline, or why it stops.
pub fn on_epoch_deadline(op: Option<ProgramOperation>) -> (r: Result<u64, ExecError>)
    ensures
        r == deadline_outcome(op),
{
    match op {
        Some(ProgramOperation::Resume) => Ok(1),
        Some(ProgramOperation::Terminate) => Err(ExecError::Terminated),
        None => Err(ExecError::ControllerGone),
    }
}

#[verifier::external_type_specification]
#[verifier::external_body]
pub struct ExEngine(Engine);

#[verifier::external_type_specification]
#[verifier::external_body]
#[verifier::reject_recursive_types(T)]
pub struct ExSender<T>(Sender<T>);

/// A handle to a running guest program, for the thread that supervises it.
/// `actions` logs what the handle did outside; only the two methods that
/// act outside write it.
pub struct WasmProgramHandle {
    operation_tx: Sender<ProgramOperation>,
    state: ControlState,
    engine: Engine,
    actions: Ghost<Seq<ControlAction>>,
}

impl View for WasmProgramHandle {
    type V = HandleModel;

    closed spec fn view(&self) -> HandleModel {
        HandleModel { state: self.state, actions: self.actions@ }
    }
}

impl WasmProgramHandle {
    /// Relies on `wasmtime::Engine::increment_epoch`: it raises the engine's
    /// epoch counter, and nothing else; the log records the raise.
    #[verifier::external_body]
    fn raise_epoch(&mut self)
        ensures
            final(self)@ == (HandleModel {
                state: old(self)@.state,
                actions: old(self)@.actions.push(ControlAction::IncrementEpoch),
            }),
    {
        self.engine.increment_epoch()
    }

    /// Relies on `std::sync::mpsc::Sender::send`: it fails only where the
    /// receiver is gone, which cannot be known here. The log records the
    /// operation and whether it was delivered.
    #[verifier::external_body]
    fn send_operation(&mut self, op: ProgramOperation) -> (sent: bool)
        ensures
            final(self)@ == (HandleModel {
                state: old(self)@.state,
                actions: old(self)@.actions.push(ControlAction::Send(op, sent)),
            }),
    {
        self.operation_tx.send(op).is_ok()
    }

    /// A handle for a program that runs, with the send side of its operation
    /// channel and its engine.
    pub fn new(operation_tx: Sender<ProgramOperation>, engine: Engine) -> (r: Self)
        ensures
            r@.state == ControlState::Running,
            r@.actions == Seq::<ControlAction>::empty(),
    {
        WasmProgramHandle {
            operation_tx,
            state: ControlState::Running,
            engine,
            actions: Ghost(Seq::empty()),
        }
    }

    /// The state of the program, as far as this handle drove it.
    pub fn state(&self) -> (r: ControlState)
        ensures
            r == self@.state,
    {
        self.state
    }

    /// Pauses the program: it traps at its next checkpoint and waits there.
    /// Fails, doing nothing, unless the program is running.
    pub fn pause(&mut self) -> (r: Result<(), ControlError>)
        ensures
            (final(self)@, r) == pause_model(old(self)@),
    {
        match self.state {
            ControlState::Running => {
                self.raise_epoch();
                self.state = ControlState::Paused;
                Ok(())
            },
            ControlState::Paused => Err(ControlError::AlreadyPaused),
            ControlState::Terminated => Err(ControlError::AlreadyTerminated),
        }
    }

    /// Resumes a paused program by sending `Resume`. Fails, doing nothing,
    /// unless the program is paused; fails with `ChannelClosed`, staying
    /// paused, where the message could not be delivered. The log's last entry
    /// says which.
    pub fn resume(&mut self) -> (r: Result<(), ControlError>)
        ensures
            exists|sent: bool| (final(self)@, r) == resume_model(old(self)@, sent),
    {
        match self.state {
            ControlState::Paused => {
                let sent = self.send_operation(ProgramOperation::Resume);
                if sent {
                    self.state = ControlState::Running;
                    assert((self@, Ok::<(), ControlError>(())) == resume_model(old(self)@, true));
                    Ok(())
                } else {
                    assert((self@, Err::<(), ControlError>(ControlError::ChannelClosed)) == resume_model(
                        old(self)@,
                        false,
                    ));
                    Err(ControlError::ChannelClosed)
                }
            },
            ControlState::Running => {
                assert((self@, Err::<(), ControlError>(ControlError::AlreadyRunning)) == resume_model(
                    old(self)@,
                    true,
                ));
                Err(ControlError::AlreadyRunning)
            },
            ControlState::Terminated => {
                assert((self@, Err::<(), ControlError>(ControlError::AlreadyTerminated))
                    == resume_model(old(self)@, true));
                Err(ControlError::AlreadyTerminated)
            },
        }
    }

    /// Terminates the program, running or paused: it raises the epoch, so a
    /// running program traps, then sends `Terminate`, on which the execution
    /// ends with `ExecError::Terminated`. A second call fails with
    /// `AlreadyTerminated`; `ChannelClosed` says the program was already gone.
    pub fn terminate(&mut self) -> (r: Result<(), ControlError>)
        ensures
            exists|sent: bool| (final(self)@, r) == terminate_model(old(self)@, sent),
    {
        match self.state {
            ControlState::Terminated => {
                assert((self@, Err::<(), ControlError>(ControlError::AlreadyTerminated))
                    == terminate_model(old(self)@, true));
                Err(ControlError::AlreadyTerminated)
            },
            _ => {
                self.raise_epoch();
                let sent = self.send_operation(ProgramOperation::Terminate);
                self.state = ControlState::Terminated;
                if sent {
                    assert((self@, Ok::<(), ControlError>(())) == terminate_model(old(self)@, true));
                    Ok(())
                } else {
                    assert((self@, Err::<(), ControlError>(ControlError::ChannelClosed))
                        == terminate_model(old(self)@, false));
                    Err(ControlError::ChannelClosed)
                }
            },
        }
    }
}

} // verus!
