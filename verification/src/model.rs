//! Loading and storing against a disk on which nothing goes wrong.
//!
//! The machines in `load` and `store` decide; a driver does the work. This
//! module describes, for proofs only, a driver that does each piece of work
//! as asked on a disk that never fails, and states what loading and storing
//! then come to. A real driver differs where the system refuses an
//! operation; the machines map each such refusal to its error.

use crate::error::FondantError;
use crate::load::{LoadAction, LoadEvent, LoadState};
use crate::store::{StoreAction, StoreEvent, StoreState};
use vstd::prelude::*;

verus! {

/// What a record type brings: how it is written and read in its format, and
/// its default value.
#[verifier::reject_recursive_types(T)]
#[verifier::reject_recursive_types(S)]
pub struct Codec<T, S> {
    /// The text of a record; `None` where the record cannot be encoded.
    pub encode: spec_fn(T) -> Option<S>,
    /// The record that a text stands for; `None` for malformed text.
    pub decode: spec_fn(S) -> Option<T>,
    /// The record that a first run starts from.
    pub default_record: T,
    /// What a file holds when it has just been created or emptied.
    pub blank: S,
}

/// The part of the disk that one configuration file sees.
pub struct Disk<S> {
    /// Whether the file's directory exists.
    pub dir: bool,
    /// What the file holds; `None` while there is no file.
    pub file: Option<S>,
}

impl<T, S> Codec<T, S> {
    /// Whether decoding gives back what was encoded.
    pub open spec fn round_trips(self, record: T) -> bool {
        (self.encode)(record) matches Some(text) && (self.decode)(text) == Some(record)
    }
}

/// How the driver answers a step of storing `record`, and the disk after it.
/// A file can be created only in a directory that exists; making sure of the
/// directory creates it where it is missing.
pub open spec fn store_reply<T, S>(
    codec: Codec<T, S>,
    record: T,
    disk: Disk<S>,
    action: StoreAction<S>,
) -> (StoreEvent<S>, Disk<S>) {
    match action {
        StoreAction::Resolve => (StoreEvent::Located, disk),
        StoreAction::EnsureDir => (StoreEvent::DirReady, Disk { dir: true, file: disk.file }),
        StoreAction::OpenForWrite => if disk.dir {
            (StoreEvent::Opened, Disk { dir: true, file: Some(codec.blank) })
        } else {
            (StoreEvent::OpenFailed, disk)
        },
        StoreAction::Encode => match (codec.encode)(record) {
            Some(text) => (StoreEvent::Encoded(text), disk),
            None => (StoreEvent::EncodeFailed, disk),
        },
        StoreAction::Write(text) => (StoreEvent::Written, Disk { dir: disk.dir, file: Some(*text) }),
        StoreAction::Finish => (StoreEvent::Located, disk),
    }
}

/// How the driver answers a step of loading, and the disk after it.
pub open spec fn load_reply<T, S>(codec: Codec<T, S>, disk: Disk<S>, action: LoadAction<T, S>) -> (
    LoadEvent<T, S>,
    Disk<S>,
) {
    match action {
        LoadAction::Resolve => (LoadEvent::Located, disk),
        LoadAction::OpenForRead => if disk.file is Some {
            (LoadEvent::Opened, disk)
        } else {
            (LoadEvent::Missing, disk)
        },
        LoadAction::Read => match disk.file {
            Some(text) => (LoadEvent::Read(text), disk),
            None => (LoadEvent::ReadFailed, disk),
        },
        LoadAction::Decode(text) => match (codec.decode)(*text) {
            Some(record) => (LoadEvent::Decoded(record), disk),
            None => (LoadEvent::DecodeFailed, disk),
        },
        LoadAction::EnsureDir => (LoadEvent::DirReady, Disk { dir: true, file: disk.file }),
        LoadAction::BuildDefault => (LoadEvent::Defaulted(codec.default_record), disk),
        LoadAction::Store(record, action) => {
            let (event, disk) = store_reply(codec, *record, disk, action);
            (LoadEvent::Store(event), disk)
        },
        LoadAction::Finish => (LoadEvent::Located, disk),
    }
}

/// Storing `record` from `state` on to the end: the last state and the disk
/// as it is left.
pub open spec fn store_run<T, S>(
    codec: Codec<T, S>,
    record: T,
    disk: Disk<S>,
    state: StoreState<S>,
) -> (StoreState<S>, Disk<S>)
    decreases state.rank(),
{
    if state.is_done() {
        (state, disk)
    } else {
        let (event, disk) = store_reply(codec, record, disk, state.action());
        store_run(codec, record, disk, state.next(event))
    }
}

/// Loading from `state` on to the end: the last state and the disk as it is
/// left.
pub open spec fn load_run<T, S>(codec: Codec<T, S>, disk: Disk<S>, state: LoadState<T, S>) -> (
    LoadState<T, S>,
    Disk<S>,
)
    decreases state.rank(),
{
    if state.is_done() {
        (state, disk)
    } else {
        let (event, disk) = load_reply(codec, disk, state.action());
        load_run(codec, disk, state.next(event))
    }
}

/// Storing leaves the file holding exactly the record's text, and the
/// directory in existence: where the directory was missing, storing created
/// it before it opened the file.
pub proof fn lemma_store_writes_record<T, S>(codec: Codec<T, S>, record: T, disk: Disk<S>)
    requires
        (codec.encode)(record) is Some,
    ensures
        store_run(codec, record, disk, StoreState::Start) == (
            StoreState::<S>::Stored,
            Disk { dir: true, file: (codec.encode)(record) },
        ),
{
    reveal_with_fuel(store_run, 6);
}

/// Storing into a directory that is missing creates it: storing ends in
/// `Stored`, the directory exists and the file holds the record's text.
pub proof fn lemma_store_creates_directory<T, S>(codec: Codec<T, S>, record: T, disk: Disk<S>)
    requires
        !disk.dir,
        (codec.encode)(record) is Some,
    ensures
        store_run(codec, record, disk, StoreState::Start).0 is Stored,
        store_run(codec, record, disk, StoreState::Start).1.dir,
        store_run(codec, record, disk, StoreState::Start).1.file == (codec.encode)(record),
{
    lemma_store_writes_record(codec, record, disk);
}

/// Storing the same record again changes nothing: what the file held before
/// plays no part in what it holds after.
pub proof fn lemma_store_is_idempotent<T, S>(codec: Codec<T, S>, record: T, disk: Disk<S>)
    requires
        (codec.encode)(record) is Some,
    ensures
        ({
            let once = store_run(codec, record, disk, StoreState::Start);
            store_run(codec, record, once.1, StoreState::Start) == once
        }),
{
    lemma_store_writes_record(codec, record, disk);
    lemma_store_writes_record(codec, record, store_run(codec, record, disk, StoreState::Start).1);
}

/// Storing is not atomic: a record that cannot be encoded leaves the file
/// emptied.
pub proof fn lemma_store_unencodable_empties<T, S>(codec: Codec<T, S>, record: T, disk: Disk<S>)
    requires
        (codec.encode)(record) is None,
    ensures
        store_run(codec, record, disk, StoreState::Start) == (
            StoreState::<S>::Failed(FondantError::ConfigParseError),
            Disk { dir: true, file: Some(codec.blank) },
        ),
{
    reveal_with_fuel(store_run, 6);
}

/// Loading a file that holds a record returns that record and writes
/// nothing.
pub proof fn lemma_load_reads_record<T, S>(codec: Codec<T, S>, disk: Disk<S>, text: S, record: T)
    requires
        disk.file == Some(text),
        (codec.decode)(text) == Some(record),
    ensures
        load_run(codec, disk, LoadState::Start) == (LoadState::<T, S>::Loaded(record), disk),
        load_run(codec, disk, LoadState::Start).0.outcome() == Some(
            Ok::<T, FondantError>(record),
        ),
{
    reveal_with_fuel(load_run, 6);
}

/// Loading a malformed file fails with `ConfigParseError`: no record comes
/// out, and the file stays as it was.
pub proof fn lemma_load_rejects_malformed<T, S>(codec: Codec<T, S>, disk: Disk<S>, text: S)
    requires
        disk.file == Some(text),
        (codec.decode)(text) is None,
    ensures
        load_run(codec, disk, LoadState::Start) == (
            LoadState::<T, S>::LoadFailed(FondantError::ConfigParseError),
            disk,
        ),
        load_run(codec, disk, LoadState::Start).0.outcome() == Some(
            Err::<T, FondantError>(FondantError::ConfigParseError),
        ),
{
    reveal_with_fuel(load_run, 6);
}

/// The first load, with no file there, returns the default record, and
/// afterwards the directory exists and the file holds the default record's
/// text, whether or not the directory was there before.
pub proof fn lemma_first_load_stores_default<T, S>(codec: Codec<T, S>, disk: Disk<S>)
    requires
        disk.file is None,
        (codec.encode)(codec.default_record) is Some,
    ensures
        load_run(codec, disk, LoadState::Start) == (
            LoadState::<T, S>::Stored(codec.default_record),
            Disk { dir: true, file: (codec.encode)(codec.default_record) },
        ),
        load_run(codec, disk, LoadState::Start).0.outcome() == Some(
            Ok::<T, FondantError>(codec.default_record),
        ),
        codec.round_trips(codec.default_record) ==> (codec.decode)(
            load_run(codec, disk, LoadState::Start).1.file->Some_0,
        ) == Some(codec.default_record),
{
    reveal_with_fuel(load_run, 11);
    reveal_with_fuel(store_run, 6);
}

/// A load that follows a successful store returns the stored record, not the
/// default, and leaves the disk as the store left it.
pub proof fn lemma_load_after_store<T, S>(codec: Codec<T, S>, record: T, disk: Disk<S>)
    requires
        store_run(codec, record, disk, StoreState::Start).0 is Stored,
        codec.round_trips(record),
    ensures
        ({
            let stored = store_run(codec, record, disk, StoreState::Start).1;
            &&& load_run(codec, stored, LoadState::Start) == (
                LoadState::<T, S>::Loaded(record),
                stored,
            )
            &&& load_run(codec, stored, LoadState::Start).0.outcome() == Some(
                Ok::<T, FondantError>(record),
            )
        }),
{
    reveal_with_fuel(store_run, 6);
    let stored = store_run(codec, record, disk, StoreState::Start).1;
    lemma_load_reads_record(codec, stored, (codec.encode)(record)->Some_0, record);
}

/// A load that follows the first load returns the default record again, this
/// time from the file.
pub proof fn lemma_second_load_reads_default<T, S>(codec: Codec<T, S>, disk: Disk<S>)
    requires
        disk.file is None,
        codec.round_trips(codec.default_record),
    ensures
        ({
            let first = load_run(codec, disk, LoadState::Start).1;
            load_run(codec, first, LoadState::Start) == (
                LoadState::<T, S>::Loaded(codec.default_record),
                first,
            )
        }),
{
    lemma_first_load_stores_default(codec, disk);
    let first = load_run(codec, disk, LoadState::Start).1;
    lemma_load_reads_record(
        codec,
        first,
        (codec.encode)(codec.default_record)->Some_0,
        codec.default_record,
    );
}

} // verus!
