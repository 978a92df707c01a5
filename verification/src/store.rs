//! Storing a record, as a machine that decides and leaves the work on files
//! to its driver.
//!
//! Storing resolves the file's place, makes sure that its directory is there,
//! opens the file empty, encodes the record and writes the text.
//!
//! The driver asks the machine what to do next (`pending`), does it, and
//! reports how it went (`step`), until the machine asks it to finish. The
//! machine neither reads nor writes the text that passes through it, so it
//! takes any type `S` for it.

use crate::error::FondantError;
use vstd::prelude::*;

verus! {

/// How far storing has come.
#[derive(Debug)]
pub enum StoreState<S> {
    /// Nothing has been done; the file's place is to be resolved.
    Start,
    /// The place is known; its directory is to be made sure of.
    Preparing,
    /// The directory is there; the file is to be opened for writing.
    Opening,
    /// The file is open and empty; the record is to be encoded.
    Encoding,
    /// The record is encoded; its text is to be written.
    Writing(S),
    /// The text has been written.
    Stored,
    /// Storing ended with an error.
    Failed(FondantError),
}

/// What the driver reports back.
#[derive(Debug)]
pub enum StoreEvent<S> {
    /// The file's place was resolved.
    Located,
    /// The place could not be resolved for want of a home directory.
    HomeDirUnknown,
    /// The directory exists, with all that leads to it.
    DirReady,
    /// The directory could not be created.
    DirFailed(std::io::Error),
    /// The file was opened for writing, created or emptied.
    Opened,
    /// The file could not be opened or created.
    OpenFailed,
    /// The record was encoded to this text.
    Encoded(S),
    /// The record could not be encoded.
    EncodeFailed,
    /// The text was written in full.
    Written,
    /// The text could not be written.
    WriteFailed,
}

/// What the machine asks of the driver.
#[derive(Debug)]
pub enum StoreAction<'a, S> {
    /// Resolve the file's place.
    Resolve,
    /// Create the file's directory and all that leads to it, unless it is
    /// there.
    EnsureDir,
    /// Open the file for writing: create it if it is missing, empty it if it
    /// is there.
    OpenForWrite,
    /// Encode the record in the file's format.
    Encode,
    /// Write this text to the open file.
    Write(&'a S),
    /// Nothing is left to do: take the outcome.
    Finish,
}

impl<S> StoreEvent<S> {
    /// The state that storing is in once this event was waited for and came:
    /// a success leads one step on, a refusal to its error.
    pub open spec fn leads_to(self) -> StoreState<S> {
        match self {
            StoreEvent::Located => StoreState::Preparing,
            StoreEvent::HomeDirUnknown => StoreState::Failed(FondantError::InvalidHomeDir),
            StoreEvent::DirReady => StoreState::Opening,
            StoreEvent::DirFailed(cause) => StoreState::Failed(FondantError::DirCreateErr(cause)),
            StoreEvent::Opened => StoreState::Encoding,
            StoreEvent::OpenFailed => StoreState::Failed(FondantError::FileOpenError),
            StoreEvent::Encoded(text) => StoreState::Writing(text),
            StoreEvent::EncodeFailed => StoreState::Failed(FondantError::ConfigParseError),
            StoreEvent::Written => StoreState::Stored,
            StoreEvent::WriteFailed => StoreState::Failed(FondantError::FileWriteError),
        }
    }
}

impl<S> StoreState<S> {
    /// Whether the state waits for `event`.
    pub open spec fn awaits(&self, event: StoreEvent<S>) -> bool {
        match self {
            StoreState::Start => event is Located || event is HomeDirUnknown,
            StoreState::Preparing => event is DirReady || event is DirFailed,
            StoreState::Opening => event is Opened || event is OpenFailed,
            StoreState::Encoding => event is Encoded || event is EncodeFailed,
            StoreState::Writing(_) => event is Written || event is WriteFailed,
            StoreState::Stored => false,
            StoreState::Failed(_) => false,
        }
    }

    /// The state after `event`: where the state waits for the event, the
    /// state that the event leads to; otherwise the state as it is.
    pub open spec fn next(self, event: StoreEvent<S>) -> StoreState<S> {
        if self.awaits(event) {
            event.leads_to()
        } else {
            self
        }
    }

    /// What the state asks of the driver.
    pub open spec fn action(&self) -> StoreAction<'_, S> {
        match self {
            StoreState::Start => StoreAction::Resolve,
            StoreState::Preparing => StoreAction::EnsureDir,
            StoreState::Opening => StoreAction::OpenForWrite,
            StoreState::Encoding => StoreAction::Encode,
            StoreState::Writing(text) => StoreAction::Write(text),
            StoreState::Stored => StoreAction::Finish,
            StoreState::Failed(_) => StoreAction::Finish,
        }
    }

    /// How storing ended, once it has.
    pub open spec fn outcome(self) -> Option<Result<(), FondantError>> {
        match self {
            StoreState::Stored => Some(Ok(())),
            StoreState::Failed(e) => Some(Err(e)),
            _ => None,
        }
    }

    /// Whether storing has ended.
    pub open spec fn is_done(&self) -> bool {
        self is Stored || self is Failed
    }

    /// How many steps storing is from its end, at most.
    pub open spec fn rank(&self) -> nat {
        match self {
            StoreState::Start => 5,
            StoreState::Preparing => 4,
            StoreState::Opening => 3,
            StoreState::Encoding => 2,
            StoreState::Writing(_) => 1,
            StoreState::Stored => 0,
            StoreState::Failed(_) => 0,
        }
    }

    /// The state that storing is in after these reports, from the start.
    pub open spec fn after(events: Seq<StoreEvent<S>>) -> StoreState<S>
        decreases events.len(),
    {
        if events.len() == 0 {
            StoreState::Start
        } else {
            Self::after(events.drop_last()).next(events.last())
        }
    }

    /// The state in which storing begins.
    pub fn new() -> (state: StoreState<S>)
        ensures
            state is Start,
    {
        StoreState::Start
    }

    /// Takes the driver's report and moves on.
    pub fn step(self, event: StoreEvent<S>) -> (state: StoreState<S>)
        ensures
            state == self.next(event),
    {
        match (self, event) {
            (StoreState::Start, StoreEvent::Located) => StoreState::Preparing,
            (StoreState::Start, StoreEvent::HomeDirUnknown) => StoreState::Failed(
                FondantError::InvalidHomeDir,
            ),
            (StoreState::Preparing, StoreEvent::DirReady) => StoreState::Opening,
            (StoreState::Preparing, StoreEvent::DirFailed(cause)) => StoreState::Failed(
                FondantError::DirCreateErr(cause),
            ),
            (StoreState::Opening, StoreEvent::Opened) => StoreState::Encoding,
            (StoreState::Opening, StoreEvent::OpenFailed) => StoreState::Failed(
                FondantError::FileOpenError,
            ),
            (StoreState::Encoding, StoreEvent::Encoded(text)) => StoreState::Writing(text),
            (StoreState::Encoding, StoreEvent::EncodeFailed) => StoreState::Failed(
                FondantError::ConfigParseError,
            ),
            (StoreState::Writing(_), StoreEvent::Written) => StoreState::Stored,
            (StoreState::Writing(_), StoreEvent::WriteFailed) => StoreState::Failed(
                FondantError::FileWriteError,
            ),
            (state, _) => state,
        }
    }

    /// What the driver is to do next.
    pub fn pending(&self) -> (action: StoreAction<'_, S>)
        ensures
            action == self.action(),
    {
        match self {
            StoreState::Start => StoreAction::Resolve,
            StoreState::Preparing => StoreAction::EnsureDir,
            StoreState::Opening => StoreAction::OpenForWrite,
            StoreState::Encoding => StoreAction::Encode,
            StoreState::Writing(text) => StoreAction::Write(text),
            StoreState::Stored => StoreAction::Finish,
            StoreState::Failed(_) => StoreAction::Finish,
        }
    }

    /// The outcome of storing; `None` while it has not ended.
    pub fn finish(self) -> (outcome: Option<Result<(), FondantError>>)
        ensures
            outcome == self.outcome(),
    {
        match self {
            StoreState::Stored => Some(Ok(())),
            StoreState::Failed(e) => Some(Err(e)),
            _ => None,
        }
    }
}

/// Whether the driver has reported the directory ready.
pub open spec fn saw_dir_ready<S>(events: Seq<StoreEvent<S>>) -> bool {
    exists|i: int| 0 <= i < events.len() && (#[trigger] events[i]) is DirReady
}

/// Whatever the driver reports, the file is opened, and so written, only
/// after its directory was reported ready.
pub proof fn lemma_opens_only_after_directory<S>(events: Seq<StoreEvent<S>>)
    ensures
        ({
            let state = StoreState::after(events);
            state is Opening || state is Encoding || state is Writing || state is Stored
                ==> saw_dir_ready(events)
        }),
    decreases events.len(),
{
    if events.len() > 0 {
        let before = events.drop_last();
        lemma_opens_only_after_directory(before);
        if saw_dir_ready(before) {
            let i: int = choose|i: int|
                0 <= i < before.len() && (#[trigger] before[i]) is DirReady;
            assert(events[i] is DirReady);
        }
        if StoreState::after(before) is Preparing && events.last() is DirReady {
            assert(events[events.len() - 1] is DirReady);
        }
    }
}

/// An event that the state waits for brings storing nearer to its end; any
/// other changes nothing. So a state that has ended stays as it is, and
/// storing ends after five reports that it waited for, at most.
pub proof fn lemma_store_progress<S>(state: StoreState<S>, event: StoreEvent<S>)
    ensures
        state.awaits(event) ==> state.next(event).rank() < state.rank(),
        !state.awaits(event) ==> state.next(event) == state,
        state.is_done() <==> state.rank() == 0,
        state.is_done() <==> state.outcome() is Some,
        state.is_done() <==> state.action() is Finish,
{
}

/// Each error of storing comes from one refusal: of the home directory, of
/// creating the directory, of opening the file, of encoding, or of writing.
pub proof fn lemma_store_errors<S>(state: StoreState<S>, event: StoreEvent<S>)
    requires
        !state.is_done(),
    ensures
        match state.next(event) {
            StoreState::Failed(e) => {
                ||| state is Start && event is HomeDirUnknown && e == FondantError::InvalidHomeDir
                ||| state is Preparing && event is DirFailed && e == FondantError::DirCreateErr(
                    event->DirFailed_0,
                )
                ||| state is Opening && event is OpenFailed && e == FondantError::FileOpenError
                ||| state is Encoding && event is EncodeFailed && e
                    == FondantError::ConfigParseError
                ||| state is Writing && event is WriteFailed && e == FondantError::FileWriteError
            },
            StoreState::Stored => state is Writing && event is Written,
            _ => true,
        },
{
}

} // verus!
