//! Saving and loading without touching the file system.
//!
//! A save or a load is a session. The session names the one file operation that
//! has to happen next, its driver performs it and reports how it ended, and the
//! session answers with the next operation, with the result, or with the error.
//! All decisions are taken here: which errors are fatal, when permission bits
//! are narrowed, where a loaded record is stored again.

use crate::codec::{decoded, encoded};
use crate::permissions::{grants_group_or_other, needs_narrowing, OWNER_READ_WRITE};
use crate::record::{Keystore, KeystoreError, KeystoreView};
use crate::store::{credential_path, parent, parent_of, Store};
use std::path::PathBuf;
use vstd::prelude::*;

verus! {

/// A file operation for the driver to perform.
#[derive(Debug, PartialEq, Eq)]
pub enum Action {
    /// Create the directory and every missing directory above it. A directory
    /// that exists already is a success.
    CreateDirs { dir: PathBuf },
    /// Create the file, or empty it, and write `content` to it.
    WriteFile { path: PathBuf, content: Vec<u8> },
    /// Read the permission bits of the file.
    ReadMode { path: PathBuf },
    /// Set the permission bits of the file to `mode`.
    SetMode { path: PathBuf, mode: u32 },
    /// Read the whole file.
    ReadFile { path: PathBuf },
}

/// The mathematical value of an `Action`.
pub enum ActionView {
    CreateDirs { dir: PathBuf },
    WriteFile { path: PathBuf, content: Seq<u8> },
    ReadMode { path: PathBuf },
    SetMode { path: PathBuf, mode: u32 },
    ReadFile { path: PathBuf },
}

impl View for Action {
    type V = ActionView;

    open spec fn view(&self) -> ActionView {
        match *self {
            Action::CreateDirs { dir } => ActionView::CreateDirs { dir },
            Action::WriteFile { path, content } => ActionView::WriteFile { path, content: content@ },
            Action::ReadMode { path } => ActionView::ReadMode { path },
            Action::SetMode { path, mode } => ActionView::SetMode { path, mode },
            Action::ReadFile { path } => ActionView::ReadFile { path },
        }
    }
}

/// How the driver's last operation ended.
#[derive(Debug, PartialEq, Eq)]
pub enum Event {
    /// The operation succeeded and has nothing to report.
    Done,
    /// The permission bits that were read.
    Mode(u32),
    /// The platform keeps no permission bits of this kind, so there is nothing
    /// to read or to narrow.
    NoPermissionModel,
    /// The bytes that were read.
    Content(Vec<u8>),
    /// The operation failed.
    Failed,
}

/// The mathematical value of an `Event`.
pub enum EventView {
    Done,
    Mode(u32),
    NoPermissionModel,
    Content(Seq<u8>),
    Failed,
}

impl View for Event {
    type V = EventView;

    open spec fn view(&self) -> EventView {
        match *self {
            Event::Done => EventView::Done,
            Event::Mode(mode) => EventView::Mode(mode),
            Event::NoPermissionModel => EventView::NoPermissionModel,
            Event::Content(bytes) => EventView::Content(bytes@),
            Event::Failed => EventView::Failed,
        }
    }
}

/// What a load is waiting for.
#[derive(Clone, Copy, Debug, PartialEq, Eq, Structural)]
pub enum SourceStage {
    /// The permission bits of the source file.
    Inspect,
    /// The narrowing of the source file's permission bits.
    Narrow,
    /// The content of the source file.
    Read,
}

/// What a save is waiting for.
#[derive(Clone, Copy, Debug, PartialEq, Eq, Structural)]
pub enum TargetStage {
    /// The creation of the directories above the file.
    Dirs,
    /// The writing of the file.
    Write,
    /// The permission bits of the file that was written.
    Inspect,
    /// The narrowing of those permission bits.
    Narrow,
}

/// A load or a save in progress.
#[derive(Debug, PartialEq, Eq)]
pub enum Session {
    /// A record is being read from `source`, to be stored again in `store`.
    Importing { source_stage: SourceStage, source: PathBuf, store: Store },
    /// `record` is being written to `target`. `imported` tells that the record
    /// was loaded and is handed to the caller once it is stored.
    Saving { target_stage: TargetStage, target: PathBuf, record: Keystore, imported: bool },
}

/// The mathematical value of a `Session`.
pub enum SessionView {
    Importing { source_stage: SourceStage, source: PathBuf, store: Store },
    Saving { target_stage: TargetStage, target: PathBuf, record: KeystoreView, imported: bool },
}

impl View for Session {
    type V = SessionView;

    open spec fn view(&self) -> SessionView {
        match *self {
            Session::Importing { source_stage, source, store } => SessionView::Importing {
                source_stage,
                source,
                store,
            },
            Session::Saving { target_stage, target, record, imported } => SessionView::Saving {
                target_stage,
                target,
                record: record@,
                imported,
            },
        }
    }
}

/// Where a session stands after an event.
#[derive(Debug, PartialEq, Eq)]
pub enum Progress {
    /// The driver performs the action and reports its end to the session.
    Next(Session, Action),
    /// The record is stored and protected in the file at this path.
    Saved(PathBuf),
    /// The record was read, and is stored and protected at its canonical path.
    Loaded(Keystore),
    /// The operation is over and has failed.
    Failed(KeystoreError),
}

/// The mathematical value of a `Progress`.
pub enum ProgressView {
    Next(SessionView, ActionView),
    Saved(PathBuf),
    Loaded(KeystoreView),
    Failed(KeystoreError),
}

impl View for Progress {
    type V = ProgressView;

    open spec fn view(&self) -> ProgressView {
        match *self {
            Progress::Next(session, action) => ProgressView::Next(session@, action@),
            Progress::Saved(path) => ProgressView::Saved(path),
            Progress::Loaded(record) => ProgressView::Loaded(record@),
            Progress::Failed(error) => ProgressView::Failed(error),
        }
    }
}

/// The start of a load: the permission bits of the source file are read first.
pub open spec fn begin_load(source: PathBuf, store: Store) -> ProgressView {
    ProgressView::Next(
        SessionView::Importing { source_stage: SourceStage::Inspect, source, store },
        ActionView::ReadMode { path: source },
    )
}

/// The step that reads the source file.
pub open spec fn read_source(source: PathBuf, store: Store) -> ProgressView {
    ProgressView::Next(
        SessionView::Importing { source_stage: SourceStage::Read, source, store },
        ActionView::ReadFile { path: source },
    )
}

/// The start of a save: the directories above the target are created first;
/// a target with nothing above it is written at once.
pub open spec fn begin_save(target: PathBuf, record: KeystoreView, imported: bool) -> ProgressView {
    match parent(target) {
        Some(dir) => ProgressView::Next(
            SessionView::Saving { target_stage: TargetStage::Dirs, target, record, imported },
            ActionView::CreateDirs { dir },
        ),
        None => write_target(target, record, imported),
    }
}

/// The step that writes the record to the target. It fails with `Io` where the
/// record cannot be written out as text.
pub open spec fn write_target(target: PathBuf, record: KeystoreView, imported: bool) -> ProgressView {
    match encoded(record) {
        Some(content) => ProgressView::Next(
            SessionView::Saving { target_stage: TargetStage::Write, target, record, imported },
            ActionView::WriteFile { path: target, content },
        ),
        None => ProgressView::Failed(KeystoreError::Io),
    }
}

/// The end of a save: a loaded record is handed out, a saved one is reported by
/// its path.
pub open spec fn finish_save(target: PathBuf, record: KeystoreView, imported: bool) -> ProgressView {
    if imported {
        ProgressView::Loaded(record)
    } else {
        ProgressView::Saved(target)
    }
}

impl SessionView {
    /// Where the session stands after `event`.
    ///
    /// Loading: the source's permission bits are read and, where they give the
    /// group or others any access, narrowed; a failure to narrow them is not
    /// fatal. Then the file is read. A text that stores no record ends the load
    /// with `Deserialization`, and nothing is written. A record is saved to its
    /// canonical path in the store, whatever the path it was read from.
    ///
    /// Saving: directories, file, permission bits, in this order. The save ends
    /// only once the file's permission bits give the group and others no
    /// access; a failure to narrow them is fatal.
    ///
    /// An event that does not answer the pending action counts as its failure.
    pub open spec fn step(self, event: EventView) -> ProgressView {
        match self {
            SessionView::Importing { source_stage, source, store } => match source_stage {
                SourceStage::Inspect => match event {
                    EventView::Mode(mode) => if grants_group_or_other(mode) {
                        ProgressView::Next(
                            SessionView::Importing { source_stage: SourceStage::Narrow, source, store },
                            ActionView::SetMode { path: source, mode: OWNER_READ_WRITE },
                        )
                    } else {
                        read_source(source, store)
                    },
                    EventView::NoPermissionModel => read_source(source, store),
                    _ => ProgressView::Failed(KeystoreError::Io),
                },
                SourceStage::Narrow => read_source(source, store),
                SourceStage::Read => match event {
                    EventView::Content(text) => match decoded(text) {
                        Some(record) => begin_save(
                            credential_path(store.root, record.name),
                            record,
                            true,
                        ),
                        None => ProgressView::Failed(KeystoreError::Deserialization),
                    },
                    _ => ProgressView::Failed(KeystoreError::Io),
                },
            },
            SessionView::Saving { target_stage, target, record, imported } => match target_stage {
                TargetStage::Dirs => match event {
                    EventView::Done => write_target(target, record, imported),
                    _ => ProgressView::Failed(KeystoreError::Io),
                },
                TargetStage::Write => match event {
                    EventView::Done => ProgressView::Next(
                        SessionView::Saving { target_stage: TargetStage::Inspect, target, record, imported },
                        ActionView::ReadMode { path: target },
                    ),
                    _ => ProgressView::Failed(KeystoreError::Io),
                },
                TargetStage::Inspect => match event {
                    EventView::Mode(mode) => if grants_group_or_other(mode) {
                        ProgressView::Next(
                            SessionView::Saving {
                                target_stage: TargetStage::Narrow,
                                target,
                                record,
                                imported,
                            },
                            ActionView::SetMode { path: target, mode: OWNER_READ_WRITE },
                        )
                    } else {
                        finish_save(target, record, imported)
                    },
                    EventView::NoPermissionModel => finish_save(target, record, imported),
                    _ => ProgressView::Failed(KeystoreError::Io),
                },
                TargetStage::Narrow => match event {
                    EventView::Done => finish_save(target, record, imported),
                    _ => ProgressView::Failed(KeystoreError::PermissionEnforcement),
                },
            },
        }
    }

    /// The number of events that the session can still take at most.
    pub open spec fn steps_left(self) -> nat {
        match self {
            SessionView::Importing { source_stage, .. } => match source_stage {
                SourceStage::Inspect => 7,
                SourceStage::Narrow => 6,
                SourceStage::Read => 5,
            },
            SessionView::Saving { target_stage, .. } => match target_stage {
                TargetStage::Dirs => 4,
                TargetStage::Write => 3,
                TargetStage::Inspect => 2,
                TargetStage::Narrow => 1,
            },
        }
    }
}

fn read_source_step(source: PathBuf, store: Store) -> (progress: Progress)
    ensures
        progress@ == read_source(source, store),
{
    let path = source.clone();
    Progress::Next(Session::Importing { source_stage: SourceStage::Read, source, store }, Action::ReadFile { path })
}

fn write_target_step(target: PathBuf, record: Keystore, imported: bool) -> (progress: Progress)
    ensures
        progress@ == write_target(target, record@, imported),
{
    match record.encode() {
        Ok(content) => {
            let path = target.clone();
            Progress::Next(
                Session::Saving { target_stage: TargetStage::Write, target, record, imported },
                Action::WriteFile { path, content },
            )
        },
        Err(_) => Progress::Failed(KeystoreError::Io),
    }
}

fn begin_save_step(target: PathBuf, record: Keystore, imported: bool) -> (progress: Progress)
    ensures
        progress@ == begin_save(target, record@, imported),
{
    match parent_of(&target) {
        Some(dir) => Progress::Next(
            Session::Saving { target_stage: TargetStage::Dirs, target, record, imported },
            Action::CreateDirs { dir },
        ),
        None => write_target_step(target, record, imported),
    }
}

fn finish_save_step(target: PathBuf, record: Keystore, imported: bool) -> (progress: Progress)
    ensures
        progress@ == finish_save(target, record@, imported),
{
    if imported {
        Progress::Loaded(record)
    } else {
        Progress::Saved(target)
    }
}

impl Session {
    /// Takes the end of the pending action and answers with the next action,
    /// with the result, or with the error.
    pub fn step(self, event: Event) -> (progress: Progress)
        ensures
            progress@ == self@.step(event@),
    {
        match self {
            Session::Importing { source_stage, source, store } => match source_stage {
                SourceStage::Inspect => match event {
                    Event::Mode(mode) => {
                        if needs_narrowing(mode) {
                            let path = source.clone();
                            Progress::Next(
                                Session::Importing { source_stage: SourceStage::Narrow, source, store },
                                Action::SetMode { path, mode: OWNER_READ_WRITE },
                            )
                        } else {
                            read_source_step(source, store)
                        }
                    },
                    Event::NoPermissionModel => read_source_step(source, store),
                    _ => Progress::Failed(KeystoreError::Io),
                },
                SourceStage::Narrow => read_source_step(source, store),
                SourceStage::Read => match event {
                    Event::Content(text) => match Keystore::decode(text.as_slice()) {
                        Ok(record) => {
                            let target = store.file_path(&record.name);
                            begin_save_step(target, record, true)
                        },
                        Err(_) => Progress::Failed(KeystoreError::Deserialization),
                    },
                    _ => Progress::Failed(KeystoreError::Io),
                },
            },
            Session::Saving { target_stage, target, record, imported } => match target_stage {
                TargetStage::Dirs => match event {
                    Event::Done => write_target_step(target, record, imported),
                    _ => Progress::Failed(KeystoreError::Io),
                },
                TargetStage::Write => match event {
                    Event::Done => {
                        let path = target.clone();
                        Progress::Next(
                            Session::Saving { target_stage: TargetStage::Inspect, target, record, imported },
                            Action::ReadMode { path },
                        )
                    },
                    _ => Progress::Failed(KeystoreError::Io),
                },
                TargetStage::Inspect => match event {
                    Event::Mode(mode) => {
                        if needs_narrowing(mode) {
                            let path = target.clone();
                            Progress::Next(
                                Session::Saving {
                                    target_stage: TargetStage::Narrow,
                                    target,
                                    record,
                                    imported,
                                },
                                Action::SetMode { path, mode: OWNER_READ_WRITE },
                            )
                        } else {
                            finish_save_step(target, record, imported)
                        }
                    },
                    Event::NoPermissionModel => finish_save_step(target, record, imported),
                    _ => Progress::Failed(KeystoreError::Io),
                },
                TargetStage::Narrow => match event {
                    Event::Done => finish_save_step(target, record, imported),
                    _ => Progress::Failed(KeystoreError::PermissionEnforcement),
                },
            },
        }
    }
}

impl Keystore {
    /// Starts loading the record that the file at `path` stores. Once the
    /// record is read, it is saved to its canonical path in `store`, and only
    /// then handed out.
    pub fn load(path: &PathBuf, store: &Store) -> (progress: Progress)
        ensures
            progress@ == begin_load(*path, *store),
    {
        Progress::Next(
            Session::Importing {
                source_stage: SourceStage::Inspect,
                source: path.clone(),
                store: Store::at(store.root.clone()),
            },
            Action::ReadMode { path: path.clone() },
        )
    }

    /// Starts saving this record to the file at `path`.
    pub fn save(&self, path: &PathBuf) -> (progress: Progress)
        ensures
            progress@ == begin_save(*path, self@, false),
    {
        let record = Keystore { name: self.name.clone(), keypair: self.keypair };
        begin_save_step(path.clone(), record, false)
    }
}

/// Every session ends: each event that does not end it leaves fewer events to
/// take, and no session takes more than seven.
pub proof fn lemma_session_ends(session: SessionView, event: EventView)
    ensures
        session.steps_left() <= 7,
        session.step(event) matches ProgressView::Next(next, _) ==> next.steps_left()
            < session.steps_left(),
{
}

/// A save, alone or as the last part of a load, ends in success only from one
/// of three events: permission bits that give the group and others no access,
/// the report that the platform keeps no such bits, or the narrowing of the
/// bits.
pub proof fn lemma_success_needs_private_file(session: SessionView, event: EventView)
    requires
        session.step(event) is Saved || session.step(event) is Loaded,
    ensures
        session matches SessionView::Saving { target_stage, .. } && ({
            ||| target_stage == TargetStage::Inspect && (event matches EventView::Mode(mode)
                && !grants_group_or_other(mode))
            ||| target_stage == TargetStage::Inspect && event is NoPermissionModel
            ||| target_stage == TargetStage::Narrow && event is Done
        }),
{
}

/// Permission bits are only ever set to `OWNER_READ_WRITE`, which gives the
/// group and others no access, and only on the file whose bits were just read.
pub proof fn lemma_narrowing_sets_owner_read_write(session: SessionView, event: EventView)
    requires
        session.step(event) matches ProgressView::Next(_, ActionView::SetMode { .. }),
    ensures
        session.step(event) matches ProgressView::Next(_, ActionView::SetMode { path, mode })
            && mode == OWNER_READ_WRITE && !grants_group_or_other(mode) && ({
            ||| (session matches SessionView::Importing { source, .. } && path == source)
            ||| (session matches SessionView::Saving { target, .. } && path == target)
        }),
        event matches EventView::Mode(seen) && grants_group_or_other(seen),
{
    crate::permissions::lemma_enforced_mode_is_private(OWNER_READ_WRITE);
}

/// A file whose text stores no record is never loaded: the load ends with
/// `Deserialization`, hands out no record and asks for no file to be written.
pub proof fn lemma_bad_text_is_rejected(source: PathBuf, store: Store, text: Seq<u8>)
    requires
        decoded(text) is None,
    ensures
        (SessionView::Importing { source_stage: SourceStage::Read, source, store }).step(
            EventView::Content(text),
        ) == ProgressView::Failed(KeystoreError::Deserialization),
{
}

/// A loaded record is stored again at the canonical path of its name, whatever
/// path it was read from: two loads of the same text into the same store go on
/// in the same way.
pub proof fn lemma_import_targets_canonical_path(
    source: PathBuf,
    other_source: PathBuf,
    store: Store,
    text: Seq<u8>,
)
    requires
        decoded(text) is Some,
    ensures
        (SessionView::Importing { source_stage: SourceStage::Read, source, store }).step(
            EventView::Content(text),
        ) == begin_save(
            credential_path(store.root, decoded(text).unwrap().name),
            decoded(text).unwrap(),
            true,
        ),
        (SessionView::Importing { source_stage: SourceStage::Read, source, store }).step(
            EventView::Content(text),
        ) == (SessionView::Importing { source_stage: SourceStage::Read, source: other_source, store }).step(
            EventView::Content(text),
        ),
{
}

/// What a save writes is the text of its record, to its target: the only file
/// content that a session ever asks to be written.
pub proof fn lemma_save_writes_the_record(session: SessionView, event: EventView)
    requires
        session.step(event) matches ProgressView::Next(_, ActionView::WriteFile { .. }),
    ensures
        session.step(event) matches ProgressView::Next(
            SessionView::Saving { target, record, .. },
            ActionView::WriteFile { path, content },
        ) && path == target && encoded(record) == Some(content),
{
}

/// A load hands out the record that its session has stored, and a save reports
/// the path that its session has written.
pub proof fn lemma_result_is_what_was_stored(session: SessionView, event: EventView)
    ensures
        session.step(event) matches ProgressView::Loaded(loaded) ==> session
            matches SessionView::Saving { record, imported, .. } && imported && loaded == record,
        session.step(event) matches ProgressView::Saved(path) ==> session
            matches SessionView::Saving { target, imported, .. } && !imported && path == target,
{
}

} // verus!
