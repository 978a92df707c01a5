//! Loading a record, as a machine that decides and leaves the work on files
//! to its driver.
//!
//! Loading opens the file and decodes what it holds. Where the file is
//! missing it makes sure that the directory is there, builds the default
//! record, stores it as `store` does and hands it out. The machine holds the record `T` and
//! the text `S` without looking into either.

use crate::error::FondantError;
use crate::store::{StoreAction, StoreEvent, StoreState};
use vstd::prelude::*;

verus! {

/// How far loading has come.
#[derive(Debug)]
pub enum LoadState<T, S> {
    /// Nothing has been done; the file's place is to be resolved.
    Start,
    /// The place is known; the file is to be opened for reading.
    Opening,
    /// The file is open; its contents are to be read.
    Found,
    /// The contents are read; they are to be decoded.
    Decoding(S),
    /// There is no file; its directory is to be made sure of.
    NotFound,
    /// The directory is there; the default record is to be built.
    Defaulting,
    /// The default record is being stored.
    Storing(T, StoreState<S>),
    /// The record was decoded from the file.
    Loaded(T),
    /// The default record was stored.
    Stored(T),
    /// Loading ended with an error.
    LoadFailed(FondantError),
}

/// What the driver reports back.
#[derive(Debug)]
pub enum LoadEvent<T, S> {
    /// The file's place was resolved.
    Located,
    /// The place could not be resolved for want of a home directory.
    HomeDirUnknown,
    /// The file was opened for reading.
    Opened,
    /// The file does not exist.
    Missing,
    /// The file could not be opened for another reason.
    OpenFailed,
    /// The file's contents were read in full.
    Read(S),
    /// The file's contents could not be read.
    ReadFailed,
    /// The contents were decoded to this record.
    Decoded(T),
    /// The contents are not a record in the file's format.
    DecodeFailed,
    /// The directory exists, with all that leads to it.
    DirReady,
    /// The directory could not be created.
    DirFailed(std::io::Error),
    /// The default record was built.
    Defaulted(T),
    /// A step of storing the default record went this way.
    Store(StoreEvent<S>),
}

/// What the machine asks of the driver.
#[derive(Debug)]
pub enum LoadAction<'a, T, S> {
    /// Resolve the file's place.
    Resolve,
    /// Open the file for reading.
    OpenForRead,
    /// Read the open file to its end.
    Read,
    /// Decode this text in the file's format.
    Decode(&'a S),
    /// Create the file's directory and all that leads to it, unless it is
    /// there.
    EnsureDir,
    /// Build the default record.
    BuildDefault,
    /// Do this step of storing this record.
    Store(&'a T, StoreAction<'a, S>),
    /// Nothing is left to do: take the outcome.
    Finish,
}

impl<T, S> LoadState<T, S> {
    /// Whether the state waits for `event`. While the default record is
    /// being stored, the state waits for what storing waits for; should
    /// storing have ended already, any report of it ends loading too.
    pub open spec fn awaits(&self, event: LoadEvent<T, S>) -> bool {
        match self {
            LoadState::Start => event is Located || event is HomeDirUnknown,
            LoadState::Opening => event is Opened || event is Missing || event is OpenFailed,
            LoadState::Found => event is Read || event is ReadFailed,
            LoadState::Decoding(_) => event is Decoded || event is DecodeFailed,
            LoadState::NotFound => event is DirReady || event is DirFailed,
            LoadState::Defaulting => event is Defaulted,
            LoadState::Storing(_, store) => event matches LoadEvent::Store(event) && (store.awaits(
                event,
            ) || store.is_done()),
            LoadState::Loaded(_) => false,
            LoadState::Stored(_) => false,
            LoadState::LoadFailed(_) => false,
        }
    }

    /// The state once storing the default record has moved to `store`: the
    /// end of storing is the end of loading, with the record or with the
    /// error of storing unchanged.
    pub open spec fn storing(record: T, store: StoreState<S>) -> LoadState<T, S> {
        match store {
            StoreState::Stored => LoadState::Stored(record),
            StoreState::Failed(e) => LoadState::LoadFailed(e),
            store => LoadState::Storing(record, store),
        }
    }

    /// The state after `event`: where the state waits for the event, the
    /// state that the event leads to, a success one step on and a refusal to
    /// its error; otherwise the state as it is.
    pub open spec fn next(self, event: LoadEvent<T, S>) -> LoadState<T, S> {
        if !self.awaits(event) {
            self
        } else {
            match event {
                LoadEvent::Located => LoadState::Opening,
                LoadEvent::HomeDirUnknown => LoadState::LoadFailed(FondantError::InvalidHomeDir),
                LoadEvent::Opened => LoadState::Found,
                LoadEvent::Missing => LoadState::NotFound,
                LoadEvent::OpenFailed => LoadState::LoadFailed(FondantError::LoadError),
                LoadEvent::Read(text) => LoadState::Decoding(text),
                LoadEvent::ReadFailed => LoadState::LoadFailed(FondantError::FileReadError),
                LoadEvent::Decoded(record) => LoadState::Loaded(record),
                LoadEvent::DecodeFailed => LoadState::LoadFailed(FondantError::ConfigParseError),
                LoadEvent::DirReady => LoadState::Defaulting,
                LoadEvent::DirFailed(cause) => LoadState::LoadFailed(
                    FondantError::DirCreateErr(cause),
                ),
                LoadEvent::Defaulted(record) => LoadState::Storing(record, StoreState::Start),
                LoadEvent::Store(event) => Self::storing(
                    self->Storing_0,
                    self->Storing_1.next(event),
                ),
            }
        }
    }

    /// What the state asks of the driver.
    pub open spec fn action(&self) -> LoadAction<'_, T, S> {
        match self {
            LoadState::Start => LoadAction::Resolve,
            LoadState::Opening => LoadAction::OpenForRead,
            LoadState::Found => LoadAction::Read,
            LoadState::Decoding(text) => LoadAction::Decode(text),
            LoadState::NotFound => LoadAction::EnsureDir,
            LoadState::Defaulting => LoadAction::BuildDefault,
            LoadState::Storing(record, store) => LoadAction::Store(record, store.action()),
            LoadState::Loaded(_) => LoadAction::Finish,
            LoadState::Stored(_) => LoadAction::Finish,
            LoadState::LoadFailed(_) => LoadAction::Finish,
        }
    }

    /// How loading ended, once it has.
    pub open spec fn outcome(self) -> Option<Result<T, FondantError>> {
        match self {
            LoadState::Loaded(record) => Some(Ok(record)),
            LoadState::Stored(record) => Some(Ok(record)),
            LoadState::LoadFailed(e) => Some(Err(e)),
            _ => None,
        }
    }

    /// Whether loading has ended.
    pub open spec fn is_done(&self) -> bool {
        self is Loaded || self is Stored || self is LoadFailed
    }

    /// How many steps loading is from its end, at most.
    pub open spec fn rank(&self) -> nat {
        match self {
            LoadState::Start => 10,
            LoadState::Opening => 9,
            LoadState::Found => 2,
            LoadState::Decoding(_) => 1,
            LoadState::NotFound => 8,
            LoadState::Defaulting => 7,
            LoadState::Storing(_, store) => store.rank() + 1,
            LoadState::Loaded(_) => 0,
            LoadState::Stored(_) => 0,
            LoadState::LoadFailed(_) => 0,
        }
    }

    /// The state that loading is in after these reports, from the start.
    pub open spec fn after(events: Seq<LoadEvent<T, S>>) -> LoadState<T, S>
        decreases events.len(),
    {
        if events.len() == 0 {
            LoadState::Start
        } else {
            Self::after(events.drop_last()).next(events.last())
        }
    }

    /// The state in which loading begins.
    pub fn new() -> (state: LoadState<T, S>)
        ensures
            state is Start,
    {
        LoadState::Start
    }

    /// Takes the driver's report and moves on.
    pub fn step(self, event: LoadEvent<T, S>) -> (state: LoadState<T, S>)
        ensures
            state == self.next(event),
    {
        match (self, event) {
            (LoadState::Start, LoadEvent::Located) => LoadState::Opening,
            (LoadState::Start, LoadEvent::HomeDirUnknown) => LoadState::LoadFailed(
                FondantError::InvalidHomeDir,
            ),
            (LoadState::Opening, LoadEvent::Opened) => LoadState::Found,
            (LoadState::Opening, LoadEvent::Missing) => LoadState::NotFound,
            (LoadState::Opening, LoadEvent::OpenFailed) => LoadState::LoadFailed(
                FondantError::LoadError,
            ),
            (LoadState::Found, LoadEvent::Read(text)) => LoadState::Decoding(text),
            (LoadState::Found, LoadEvent::ReadFailed) => LoadState::LoadFailed(
                FondantError::FileReadError,
            ),
            (LoadState::Decoding(_), LoadEvent::Decoded(record)) => LoadState::Loaded(record),
            (LoadState::Decoding(_), LoadEvent::DecodeFailed) => LoadState::LoadFailed(
                FondantError::ConfigParseError,
            ),
            (LoadState::NotFound, LoadEvent::DirReady) => LoadState::Defaulting,
            (LoadState::NotFound, LoadEvent::DirFailed(cause)) => LoadState::LoadFailed(
                FondantError::DirCreateErr(cause),
            ),
            (LoadState::Defaulting, LoadEvent::Defaulted(record)) => LoadState::Storing(
                record,
                StoreState::Start,
            ),
            (LoadState::Storing(record, store), LoadEvent::Store(event)) => match store.step(
                event,
            ) {
                StoreState::Stored => LoadState::Stored(record),
                StoreState::Failed(e) => LoadState::LoadFailed(e),
                store => LoadState::Storing(record, store),
            },
            (state, _) => state,
        }
    }

    /// What the driver is to do next.
    pub fn pending(&self) -> (action: LoadAction<'_, T, S>)
        ensures
            action == self.action(),
    {
        match self {
            LoadState::Start => LoadAction::Resolve,
            LoadState::Opening => LoadAction::OpenForRead,
            LoadState::Found => LoadAction::Read,
            LoadState::Decoding(text) => LoadAction::Decode(text),
            LoadState::NotFound => LoadAction::EnsureDir,
            LoadState::Defaulting => LoadAction::BuildDefault,
            LoadState::Storing(record, store) => LoadAction::Store(record, store.pending()),
            LoadState::Loaded(_) => LoadAction::Finish,
            LoadState::Stored(_) => LoadAction::Finish,
            LoadState::LoadFailed(_) => LoadAction::Finish,
        }
    }

    /// The outcome of loading; `None` while it has not ended.
    pub fn finish(self) -> (outcome: Option<Result<T, FondantError>>)
        ensures
            outcome == self.outcome(),
    {
        match self {
            LoadState::Loaded(record) => Some(Ok(record)),
            LoadState::Stored(record) => Some(Ok(record)),
            LoadState::LoadFailed(e) => Some(Err(e)),
            _ => None,
        }
    }
}

/// Whether the driver has reported the directory ready.
pub open spec fn saw_dir_ready<T, S>(events: Seq<LoadEvent<T, S>>) -> bool {
    exists|i: int| 0 <= i < events.len() && (#[trigger] events[i]) is DirReady
}

/// Whether the driver has handed in `record` as decoded from the file.
pub open spec fn saw_decoded<T, S>(events: Seq<LoadEvent<T, S>>, record: T) -> bool {
    exists|i: int|
        0 <= i < events.len() && (#[trigger] events[i]) == LoadEvent::<T, S>::Decoded(record)
}

/// Whether the driver has handed in `record` as the default.
pub open spec fn saw_default<T, S>(events: Seq<LoadEvent<T, S>>, record: T) -> bool {
    exists|i: int|
        0 <= i < events.len() && (#[trigger] events[i]) == LoadEvent::<T, S>::Defaulted(record)
}

/// Whether the driver has reported that the file is missing.
pub open spec fn saw_missing<T, S>(events: Seq<LoadEvent<T, S>>) -> bool {
    exists|i: int| 0 <= i < events.len() && (#[trigger] events[i]) is Missing
}

/// An event that the state waits for brings loading nearer to its end; any
/// other changes nothing. So a state that has ended stays as it is, and
/// loading ends after ten reports that it waited for, at most.
pub proof fn lemma_load_progress<T, S>(state: LoadState<T, S>, event: LoadEvent<T, S>)
    ensures
        state.awaits(event) ==> state.next(event).rank() < state.rank(),
        !state.awaits(event) ==> state.next(event) == state,
        state.is_done() <==> state.rank() == 0,
        state.is_done() <==> state.outcome() is Some,
        state.is_done() <==> state.action() is Finish,
{
}

/// Each error of loading comes from one refusal. A malformed file gives
/// `ConfigParseError` and nothing else; an error of storing the default
/// record comes out unchanged.
pub proof fn lemma_load_errors<T, S>(state: LoadState<T, S>, event: LoadEvent<T, S>)
    requires
        !state.is_done(),
    ensures
        state is Decoding && event is DecodeFailed ==> state.next(event) == LoadState::<
            T,
            S,
        >::LoadFailed(FondantError::ConfigParseError),
        match state.next(event) {
            LoadState::LoadFailed(e) => {
                ||| state is Start && event is HomeDirUnknown && e == FondantError::InvalidHomeDir
                ||| state is Opening && event is OpenFailed && e == FondantError::LoadError
                ||| state is Found && event is ReadFailed && e == FondantError::FileReadError
                ||| state is Decoding && event is DecodeFailed && e
                    == FondantError::ConfigParseError
                ||| state is NotFound && event is DirFailed && e == FondantError::DirCreateErr(
                    event->DirFailed_0,
                )
                ||| state is Storing && event is Store && state->Storing_1.next(event->Store_0)
                    == StoreState::<S>::Failed(e)
            },
            LoadState::Loaded(record) => state is Decoding && event == LoadEvent::<T, S>::Decoded(
                record,
            ),
            LoadState::Stored(record) => state is Storing && state->Storing_0 == record && event is Store
                && state->Storing_1.next(event->Store_0) is Stored,
            _ => true,
        },
{
}

/// Whatever the driver reports, the default record is built and stored only
/// after the file was reported missing and its directory ready: no file is
/// opened for writing in a directory that was not made sure of.
pub proof fn lemma_stores_only_after_directory<T, S>(events: Seq<LoadEvent<T, S>>)
    ensures
        ({
            let state = LoadState::after(events);
            state is Defaulting || state is Storing || state is Stored ==> saw_dir_ready(events)
                && saw_missing(events)
        }),
        ({
            let state = LoadState::after(events);
            state is NotFound ==> saw_missing(events)
        }),
    decreases events.len(),
{
    if events.len() > 0 {
        let before = events.drop_last();
        lemma_stores_only_after_directory(before);
        let state = LoadState::after(before);
        if saw_dir_ready(before) {
            let i: int = choose|i: int|
                0 <= i < before.len() && (#[trigger] before[i]) is DirReady;
            assert(events[i] is DirReady);
        }
        if saw_missing(before) {
            let i: int = choose|i: int|
                0 <= i < before.len() && (#[trigger] before[i]) is Missing;
            assert(events[i] is Missing);
        }
        if state is NotFound && events.last() is DirReady {
            assert(events[events.len() - 1] is DirReady);
        }
        if state is Opening && events.last() is Missing {
            assert(events[events.len() - 1] is Missing);
        }
    }
}

/// Whatever the driver reports, a record that loading hands out is one that
/// the driver handed in: a loaded record is one that was decoded from the
/// file, and a stored record is the default as it was built. Nothing else
/// ever comes out as a record.
pub proof fn lemma_record_comes_from_driver<T, S>(events: Seq<LoadEvent<T, S>>, record: T)
    ensures
        LoadState::after(events) == LoadState::<T, S>::Loaded(record) ==> saw_decoded(
            events,
            record,
        ),
        LoadState::after(events) == LoadState::<T, S>::Stored(record) ==> saw_default(
            events,
            record,
        ),
        LoadState::after(events) is Storing && LoadState::after(events)->Storing_0 == record
            ==> saw_default(events, record),
        LoadState::after(events).outcome() == Some(Ok::<T, FondantError>(record)) ==> saw_decoded(
            events,
            record,
        ) || saw_default(events, record),
    decreases events.len(),
{
    if events.len() > 0 {
        let before = events.drop_last();
        lemma_record_comes_from_driver(before, record);
        if saw_decoded(before, record) {
            let i: int = choose|i: int|
                0 <= i < before.len() && (#[trigger] before[i]) == LoadEvent::<T, S>::Decoded(
                    record,
                );
            assert(events[i] == before[i]);
        }
        if saw_default(before, record) {
            let i: int = choose|i: int|
                0 <= i < before.len() && (#[trigger] before[i]) == LoadEvent::<T, S>::Defaulted(
                    record,
                );
            assert(events[i] == before[i]);
        }
        let last = events[events.len() - 1];
        assert(last == events.last());
    }
}

} // verus!
