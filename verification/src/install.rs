//! Installing a plugin from a URL, as a state machine.
//!
//! The pipeline runs `Fetching`, `Extracting-Manifest`, `Completing-Manifest`,
//! `Preparing-Directory`, `Extracting-Archive`, `Finalizing` and ends in
//! `Done`; every step can end it in `Error` instead, and nothing leaves
//! either end. The machine never acts on the outside world. It says what is
//! to be done next ([`Install::pending`]) and takes what came of it
//! ([`Install::step`]). Fetching, the foreign call and the file system are
//! the embedding program's; reading the archive, drawing the working id and
//! finding the configuration directory the library does itself
//! ([`Install::perform`], [`Install::advance`]).

use crate::archive::{read_manifest, spec_read_manifest, ManifestRead, ManifestReadView};
use crate::marshal::{text_from_utf8, utf8_error_text};
use crate::paths::{
    config_dir, install_dir, json_file_name, manifest_path, spec_install_dir, spec_xl_path,
    xl_path_in, LauncherPath, LauncherPathView,
};
use crate::working_id::{is_working_id, new_working_id};
use std::path::PathBuf;
use vstd::prelude::*;
use vstd::string::*;
use vstd::utf8::*;

pub mod laws;

verus! {

/// The steps of the pipeline, in order, and its two ends.
#[derive(Clone, Copy, Debug, PartialEq, Eq, Structural)]
pub enum Stage {
    Fetching,
    ExtractingManifest,
    CompletingManifest,
    PreparingDirectory,
    ExtractingArchive,
    Finalizing,
    Done,
    Error,
}

/// The kinds of failure that end an install.
#[derive(Clone, Copy, Debug, PartialEq, Eq, Structural)]
pub enum ErrorKind {
    /// The request could not be made, was answered with a status that is not
    /// a success, or the body could not be read.
    Transport,
    /// The archive, or an entry of it, cannot be read.
    Archive,
    /// The archive has no entry with the manifest's name.
    ManifestNotFound,
    /// A string from the secondary runtime is not valid text.
    Marshaling,
    /// The secondary runtime left an output slot empty.
    NullResult,
    /// The resolved version would not name a single directory.
    UnsafeVersion,
    /// The file system refused, or no configuration directory is known.
    Filesystem,
    /// The machine was handed the outcome of something it had not asked for.
    Protocol,
}

/// Why an install ended in `Error`: the step at which it failed, the kind of
/// failure, and a message that names the underlying cause.
#[derive(Debug, PartialEq, Eq)]
pub struct InstallError {
    pub stage: Stage,
    pub kind: ErrorKind,
    pub message: String,
}

/// The mathematical value of an [`InstallError`].
pub struct InstallErrorView {
    pub stage: Stage,
    pub kind: ErrorKind,
    pub message: Seq<char>,
}

impl View for InstallError {
    type V = InstallErrorView;

    open spec fn view(&self) -> InstallErrorView {
        InstallErrorView { stage: self.stage, kind: self.kind, message: self.message@ }
    }
}

/// What is to be installed: the plugin's internal name, where its archive is
/// fetched from, and the repository it is declared to belong to.
#[derive(Debug, PartialEq, Eq)]
pub struct Request {
    pub internal_name: String,
    pub url: String,
    pub repo_url: String,
}

/// The mathematical value of a [`Request`].
pub struct RequestView {
    pub internal_name: Seq<char>,
    pub url: Seq<char>,
    pub repo_url: Seq<char>,
}

impl View for Request {
    type V = RequestView;

    open spec fn view(&self) -> RequestView {
        RequestView {
            internal_name: self.internal_name@,
            url: self.url@,
            repo_url: self.repo_url@,
        }
    }
}

/// Everything that is put in place once the manifest is complete.
#[derive(Debug, PartialEq, Eq)]
pub struct Staged {
    pub internal_name: String,
    pub archive: Vec<u8>,
    pub working_id: String,
    /// The manifest as the secondary runtime completed it.
    pub completed: String,
    /// The install directory.
    pub directory: LauncherPath,
}

/// The mathematical value of a [`Staged`].
pub struct StagedView {
    pub internal_name: Seq<char>,
    pub archive: Seq<u8>,
    pub working_id: Seq<char>,
    pub completed: Seq<char>,
    pub directory: LauncherPathView,
}

impl View for Staged {
    type V = StagedView;

    open spec fn view(&self) -> StagedView {
        StagedView {
            internal_name: self.internal_name@,
            archive: self.archive@,
            working_id: self.working_id@,
            completed: self.completed@,
            directory: self.directory@,
        }
    }
}

/// The state of one install attempt.
#[derive(Debug, PartialEq, Eq)]
pub enum Install {
    /// The archive is being fetched.
    Fetching { request: Request },
    /// The archive is here; its manifest is to be read.
    ExtractingManifest { request: Request, archive: Vec<u8> },
    /// The manifest is read; the attempt is to get its working id.
    DrawingWorkingId { request: Request, archive: Vec<u8>, manifest: String },
    /// The secondary runtime is completing the manifest.
    CompletingManifest { request: Request, archive: Vec<u8>, manifest: String, working_id: String },
    /// The manifest is complete; the configuration directory is to be found.
    LocatingRoot {
        request: Request,
        archive: Vec<u8>,
        working_id: String,
        completed: String,
        version: String,
    },
    /// Whatever is at the install directory is being removed.
    ClearingDirectory { staged: Staged },
    /// The install directory is being created.
    CreatingDirectory { staged: Staged },
    /// The archive is being extracted into the install directory.
    ExtractingArchive { staged: Staged },
    /// The completed manifest is being written over the extracted one.
    Finalizing { staged: Staged },
    /// The plugin is installed.
    Done { working_id: String },
    /// The attempt failed.
    Failed { error: InstallError },
}

/// The mathematical value of an [`Install`].
pub enum InstallView {
    Fetching { request: RequestView },
    ExtractingManifest { request: RequestView, archive: Seq<u8> },
    DrawingWorkingId { request: RequestView, archive: Seq<u8>, manifest: Seq<char> },
    CompletingManifest {
        request: RequestView,
        archive: Seq<u8>,
        manifest: Seq<char>,
        working_id: Seq<char>,
    },
    LocatingRoot {
        request: RequestView,
        archive: Seq<u8>,
        working_id: Seq<char>,
        completed: Seq<char>,
        version: Seq<char>,
    },
    ClearingDirectory { staged: StagedView },
    CreatingDirectory { staged: StagedView },
    ExtractingArchive { staged: StagedView },
    Finalizing { staged: StagedView },
    Done { working_id: Seq<char> },
    Failed { error: InstallErrorView },
}

impl View for Install {
    type V = InstallView;

    open spec fn view(&self) -> InstallView {
        match self {
            Install::Fetching { request } => InstallView::Fetching { request: request@ },
            Install::ExtractingManifest { request, archive } => InstallView::ExtractingManifest {
                request: request@,
                archive: archive@,
            },
            Install::DrawingWorkingId { request, archive, manifest } => {
                InstallView::DrawingWorkingId {
                    request: request@,
                    archive: archive@,
                    manifest: manifest@,
                }
            },
            Install::CompletingManifest { request, archive, manifest, working_id } => {
                InstallView::CompletingManifest {
                    request: request@,
                    archive: archive@,
                    manifest: manifest@,
                    working_id: working_id@,
                }
            },
            Install::LocatingRoot { request, archive, working_id, completed, version } => {
                InstallView::LocatingRoot {
                    request: request@,
                    archive: archive@,
                    working_id: working_id@,
                    completed: completed@,
                    version: version@,
                }
            },
            Install::ClearingDirectory { staged } => InstallView::ClearingDirectory {
                staged: staged@,
            },
            Install::CreatingDirectory { staged } => InstallView::CreatingDirectory {
                staged: staged@,
            },
            Install::ExtractingArchive { staged } => InstallView::ExtractingArchive {
                staged: staged@,
            },
            Install::Finalizing { staged } => InstallView::Finalizing { staged: staged@ },
            Install::Done { working_id } => InstallView::Done { working_id: working_id@ },
            Install::Failed { error } => InstallView::Failed { error: error@ },
        }
    }
}

/// What came of the thing the machine had asked for.
#[derive(Debug, PartialEq, Eq)]
pub enum Event {
    /// The server answered with `status`, described by `reason`, and `body`.
    Fetched { status: u16, reason: String, body: Vec<u8> },
    /// The request could not be made.
    RequestFailed { cause: String },
    /// The answer's body could not be read.
    DownloadFailed { cause: String },
    /// The archive was searched for the manifest.
    ManifestRead { read: ManifestRead },
    /// A working id was drawn.
    WorkingIdDrawn { working_id: String },
    /// The secondary runtime returned, leaving these two output slots; `None`
    /// is a slot that is still null.
    ManifestCompleted { manifest: Option<Vec<u8>>, version: Option<Vec<u8>> },
    /// The platform's configuration directory, if it has one.
    ConfigDirLocated { config_dir: Option<PathBuf> },
    /// The install directory was removed.
    DirectoryRemoved,
    /// The install directory could not be removed; `not_found` says that
    /// there was none.
    RemovalFailed { not_found: bool, cause: String },
    /// The install directory was created.
    DirectoryCreated,
    /// The install directory could not be created.
    CreationFailed { cause: String },
    /// The archive was extracted.
    ArchiveExtracted,
    /// The archive could not be extracted.
    ExtractionFailed { cause: String },
    /// The manifest was written.
    ManifestWritten,
    /// The manifest could not be written.
    WriteFailed { cause: String },
}

/// The mathematical value of an [`Event`].
pub enum EventView {
    Fetched { status: u16, reason: Seq<char>, body: Seq<u8> },
    RequestFailed { cause: Seq<char> },
    DownloadFailed { cause: Seq<char> },
    ManifestRead { read: ManifestReadView },
    WorkingIdDrawn { working_id: Seq<char> },
    ManifestCompleted { manifest: Option<Seq<u8>>, version: Option<Seq<u8>> },
    ConfigDirLocated { config_dir: Option<PathBuf> },
    DirectoryRemoved,
    RemovalFailed { not_found: bool, cause: Seq<char> },
    DirectoryCreated,
    CreationFailed { cause: Seq<char> },
    ArchiveExtracted,
    ExtractionFailed { cause: Seq<char> },
    ManifestWritten,
    WriteFailed { cause: Seq<char> },
}

/// Views an output slot.
pub open spec fn slot_view(slot: Option<Vec<u8>>) -> Option<Seq<u8>> {
    match slot {
        Some(bytes) => Some(bytes@),
        None => None,
    }
}

impl View for Event {
    type V = EventView;

    open spec fn view(&self) -> EventView {
        match self {
            Event::Fetched { status, reason, body } => EventView::Fetched {
                status: *status,
                reason: reason@,
                body: body@,
            },
            Event::RequestFailed { cause } => EventView::RequestFailed { cause: cause@ },
            Event::DownloadFailed { cause } => EventView::DownloadFailed { cause: cause@ },
            Event::ManifestRead { read } => EventView::ManifestRead { read: read@ },
            Event::WorkingIdDrawn { working_id } => EventView::WorkingIdDrawn {
                working_id: working_id@,
            },
            Event::ManifestCompleted { manifest, version } => EventView::ManifestCompleted {
                manifest: slot_view(*manifest),
                version: slot_view(*version),
            },
            Event::ConfigDirLocated { config_dir } => EventView::ConfigDirLocated {
                config_dir: *config_dir,
            },
            Event::DirectoryRemoved => EventView::DirectoryRemoved,
            Event::RemovalFailed { not_found, cause } => EventView::RemovalFailed {
                not_found: *not_found,
                cause: cause@,
            },
            Event::DirectoryCreated => EventView::DirectoryCreated,
            Event::CreationFailed { cause } => EventView::CreationFailed { cause: cause@ },
            Event::ArchiveExtracted => EventView::ArchiveExtracted,
            Event::ExtractionFailed { cause } => EventView::ExtractionFailed { cause: cause@ },
            Event::ManifestWritten => EventView::ManifestWritten,
            Event::WriteFailed { cause } => EventView::WriteFailed { cause: cause@ },
        }
    }
}

/// What the machine asks for next. The first group is the embedding
/// program's to do, the second the library's own, the third ends the attempt.
#[derive(Debug, PartialEq, Eq)]
pub enum Action<'a> {
    /// Get `url` and report `Fetched`, `RequestFailed` or `DownloadFailed`.
    Fetch { url: &'a str },
    /// Have the secondary runtime complete the manifest and report
    /// `ManifestCompleted`.
    CompleteManifest { manifest: &'a str, working_id: &'a str, repo_url: &'a str },
    /// Remove `path` with all that is in it and report `DirectoryRemoved` or
    /// `RemovalFailed`.
    RemoveDirectory { path: &'a LauncherPath },
    /// Create `path` and its parents and report `DirectoryCreated` or
    /// `CreationFailed`.
    CreateDirectory { path: &'a LauncherPath },
    /// Extract every entry of `archive` below `into`, keeping the entries'
    /// relative paths, and report `ArchiveExtracted` or `ExtractionFailed`.
    ExtractArchive { archive: &'a [u8], into: &'a LauncherPath },
    /// Write `contents` to `file`, replacing what is there, and report
    /// `ManifestWritten` or `WriteFailed`.
    WriteManifest { file: LauncherPath, contents: &'a str },
    /// Read the manifest out of the archive.
    ReadManifest,
    /// Draw a working id.
    DrawWorkingId,
    /// Find the platform's configuration directory.
    LocateConfigDir,
    /// The install is done; `working_id` identifies it.
    Succeed { working_id: &'a str },
    /// The install failed.
    Fail { error: &'a InstallError },
}

/// The mathematical value of an [`Action`].
pub enum ActionView {
    Fetch { url: Seq<char> },
    CompleteManifest { manifest: Seq<char>, working_id: Seq<char>, repo_url: Seq<char> },
    RemoveDirectory { path: LauncherPathView },
    CreateDirectory { path: LauncherPathView },
    ExtractArchive { archive: Seq<u8>, into: LauncherPathView },
    WriteManifest { file: LauncherPathView, contents: Seq<char> },
    ReadManifest,
    DrawWorkingId,
    LocateConfigDir,
    Succeed { working_id: Seq<char> },
    Fail { error: InstallErrorView },
}

impl<'a> View for Action<'a> {
    type V = ActionView;

    open spec fn view(&self) -> ActionView {
        match self {
            Action::Fetch { url } => ActionView::Fetch { url: url@ },
            Action::CompleteManifest { manifest, working_id, repo_url } => {
                ActionView::CompleteManifest {
                    manifest: manifest@,
                    working_id: working_id@,
                    repo_url: repo_url@,
                }
            },
            Action::RemoveDirectory { path } => ActionView::RemoveDirectory { path: path@ },
            Action::CreateDirectory { path } => ActionView::CreateDirectory { path: path@ },
            Action::ExtractArchive { archive, into } => ActionView::ExtractArchive {
                archive: archive@,
                into: into@,
            },
            Action::WriteManifest { file, contents } => ActionView::WriteManifest {
                file: file@,
                contents: contents@,
            },
            Action::ReadManifest => ActionView::ReadManifest,
            Action::DrawWorkingId => ActionView::DrawWorkingId,
            Action::LocateConfigDir => ActionView::LocateConfigDir,
            Action::Succeed { working_id } => ActionView::Succeed { working_id: working_id@ },
            Action::Fail { error } => ActionView::Fail { error: error@ },
        }
    }
}

impl ActionView {
    /// The action is one that the library carries out itself.
    pub open spec fn is_local(self) -> bool {
        self is ReadManifest || self is DrawWorkingId || self is LocateConfigDir
    }

    /// The action changes what is on disk.
    pub open spec fn touches_disk(self) -> bool {
        self is RemoveDirectory || self is CreateDirectory || self is ExtractArchive
            || self is WriteManifest
    }

    /// The action ends the attempt.
    pub open spec fn is_final(self) -> bool {
        self is Succeed || self is Fail
    }
}

/// A status in the range that HTTP sets aside for success.
pub open spec fn is_success(status: u16) -> bool {
    200 <= status <= 299
}

/// A character that separates the names of a path.
pub open spec fn is_separator(c: char) -> bool {
    c == '/' || c == '\\'
}

/// The text holds a character that separates the names of a path.
pub open spec fn has_path_separator(text: Seq<char>) -> bool {
    exists|i: int| 0 <= i < text.len() && is_separator(#[trigger] text[i])
}

/// The text is empty or one of the two names, `.` and `..`, that stand for a
/// directory itself and for its parent.
pub open spec fn is_dot_name(text: Seq<char>) -> bool {
    text.len() == 0 || text == "."@ || text == ".."@
}

/// The text is the name of a single directory below another: it is not
/// empty, holds no path separator, and is neither `.` nor `..`.
pub open spec fn is_directory_name(text: Seq<char>) -> bool {
    !has_path_separator(text) && !is_dot_name(text)
}

/// An error with the given step, kind and message.
pub open spec fn error_at(stage: Stage, kind: ErrorKind, message: Seq<char>) -> InstallErrorView {
    InstallErrorView { stage, kind, message }
}

/// The failed state with the given step, kind and message.
pub open spec fn failed(stage: Stage, kind: ErrorKind, message: Seq<char>) -> InstallView {
    InstallView::Failed { error: error_at(stage, kind, message) }
}

/// The failed state for an event that the machine had not asked for.
pub open spec fn unexpected(stage: Stage) -> InstallView {
    failed(stage, ErrorKind::Protocol, "unexpected event"@)
}

/// What the two output slots of the manifest completion amount to: the
/// completed manifest and the resolved version, or the reason there is
/// neither. A null in either slot fails the call as a whole, and so does a
/// slot that is not text. A version that holds a path separator, is empty, or
/// is `.` or `..` is refused, since it would not name one directory below the
/// plugin's own.
pub open spec fn spec_completed(manifest: Option<Seq<u8>>, version: Option<Seq<u8>>) -> Result<
    (Seq<char>, Seq<char>),
    InstallErrorView,
> {
    if manifest is None || version is None {
        Err(
            error_at(
                Stage::CompletingManifest,
                ErrorKind::NullResult,
                "failed to fill out manifest"@,
            ),
        )
    } else if !valid_utf8(manifest->0) {
        Err(
            error_at(
                Stage::CompletingManifest,
                ErrorKind::Marshaling,
                "json was invalid: "@ + utf8_error_text(manifest->0),
            ),
        )
    } else if !valid_utf8(version->0) {
        Err(
            error_at(
                Stage::CompletingManifest,
                ErrorKind::Marshaling,
                "json was invalid: "@ + utf8_error_text(version->0),
            ),
        )
    } else if has_path_separator(decode_utf8(version->0)) {
        Err(
            error_at(
                Stage::CompletingManifest,
                ErrorKind::UnsafeVersion,
                "version contains a path separator: "@ + decode_utf8(version->0),
            ),
        )
    } else if is_dot_name(decode_utf8(version->0)) {
        Err(
            error_at(
                Stage::CompletingManifest,
                ErrorKind::UnsafeVersion,
                "version is not the name of a directory: "@ + decode_utf8(version->0),
            ),
        )
    } else {
        Ok((decode_utf8(manifest->0), decode_utf8(version->0)))
    }
}

/// Views the outcome of a manifest completion.
pub open spec fn completed_view(r: Result<(String, String), InstallError>) -> Result<
    (Seq<char>, Seq<char>),
    InstallErrorView,
> {
    match r {
        Ok((manifest, version)) => Ok((manifest@, version@)),
        Err(error) => Err(error@),
    }
}

impl InstallView {
    /// The step of the pipeline that the state belongs to.
    pub open spec fn stage(self) -> Stage {
        match self {
            InstallView::Fetching { .. } => Stage::Fetching,
            InstallView::ExtractingManifest { .. } => Stage::ExtractingManifest,
            InstallView::DrawingWorkingId { .. } => Stage::CompletingManifest,
            InstallView::CompletingManifest { .. } => Stage::CompletingManifest,
            InstallView::LocatingRoot { .. } => Stage::PreparingDirectory,
            InstallView::ClearingDirectory { .. } => Stage::PreparingDirectory,
            InstallView::CreatingDirectory { .. } => Stage::PreparingDirectory,
            InstallView::ExtractingArchive { .. } => Stage::ExtractingArchive,
            InstallView::Finalizing { .. } => Stage::Finalizing,
            InstallView::Done { .. } => Stage::Done,
            InstallView::Failed { .. } => Stage::Error,
        }
    }

    /// The state is one of the two ends.
    pub open spec fn is_terminal(self) -> bool {
        self is Done || self is Failed
    }

    /// What the machine asks for in this state.
    pub open spec fn pending(self) -> ActionView {
        match self {
            InstallView::Fetching { request } => ActionView::Fetch { url: request.url },
            InstallView::ExtractingManifest { .. } => ActionView::ReadManifest,
            InstallView::DrawingWorkingId { .. } => ActionView::DrawWorkingId,
            InstallView::CompletingManifest { request, archive, manifest, working_id } => {
                ActionView::CompleteManifest { manifest, working_id, repo_url: request.repo_url }
            },
            InstallView::LocatingRoot { .. } => ActionView::LocateConfigDir,
            InstallView::ClearingDirectory { staged } => ActionView::RemoveDirectory {
                path: staged.directory,
            },
            InstallView::CreatingDirectory { staged } => ActionView::CreateDirectory {
                path: staged.directory,
            },
            InstallView::ExtractingArchive { staged } => ActionView::ExtractArchive {
                archive: staged.archive,
                into: staged.directory,
            },
            InstallView::Finalizing { staged } => ActionView::WriteManifest {
                file: staged.directory.join(json_file_name(staged.internal_name)),
                contents: staged.completed,
            },
            InstallView::Done { working_id } => ActionView::Succeed { working_id },
            InstallView::Failed { error } => ActionView::Fail { error },
        }
    }

    /// The state that follows when `event` arrives. An event that answers
    /// what was asked for moves the machine on or fails it with the cause;
    /// any other event fails it; the two ends stay as they are.
    pub open spec fn step(self, event: EventView) -> InstallView {
        match self {
            InstallView::Fetching { request } => match event {
                EventView::Fetched { status, reason, body } => if is_success(status) {
                    InstallView::ExtractingManifest { request, archive: body }
                } else {
                    failed(
                        Stage::Fetching,
                        ErrorKind::Transport,
                        "could not request plugin: "@ + reason,
                    )
                },
                EventView::RequestFailed { cause } => failed(
                    Stage::Fetching,
                    ErrorKind::Transport,
                    "could not request plugin: "@ + cause,
                ),
                EventView::DownloadFailed { cause } => failed(
                    Stage::Fetching,
                    ErrorKind::Transport,
                    "could not download plugin: "@ + cause,
                ),
                _ => unexpected(Stage::Fetching),
            },
            InstallView::ExtractingManifest { request, archive } => match event {
                EventView::ManifestRead { read } => match read {
                    ManifestReadView::Text(manifest) => InstallView::DrawingWorkingId {
                        request,
                        archive,
                        manifest,
                    },
                    ManifestReadView::Corrupt(cause) => failed(
                        Stage::ExtractingManifest,
                        ErrorKind::Archive,
                        "could not process zip archive: "@ + cause,
                    ),
                    ManifestReadView::Missing(cause) => failed(
                        Stage::ExtractingManifest,
                        ErrorKind::ManifestNotFound,
                        "could not get manifest: "@ + cause,
                    ),
                    ManifestReadView::Unavailable(cause) => failed(
                        Stage::ExtractingManifest,
                        ErrorKind::Archive,
                        "could not get manifest: "@ + cause,
                    ),
                    ManifestReadView::Unreadable(cause) => failed(
                        Stage::ExtractingManifest,
                        ErrorKind::Archive,
                        "could not extract manifest: "@ + cause,
                    ),
                },
                _ => unexpected(Stage::ExtractingManifest),
            },
            InstallView::DrawingWorkingId { request, archive, manifest } => match event {
                EventView::WorkingIdDrawn { working_id } => InstallView::CompletingManifest {
                    request,
                    archive,
                    manifest,
                    working_id,
                },
                _ => unexpected(Stage::CompletingManifest),
            },
            InstallView::CompletingManifest { request, archive, manifest, working_id } => {
                match event {
                    EventView::ManifestCompleted { manifest: completed, version } => {
                        match spec_completed(completed, version) {
                            Ok((completed, version)) => InstallView::LocatingRoot {
                                request,
                                archive,
                                working_id,
                                completed,
                                version,
                            },
                            Err(error) => InstallView::Failed { error },
                        }
                    },
                    _ => unexpected(Stage::CompletingManifest),
                }
            },
            InstallView::LocatingRoot { request, archive, working_id, completed, version } => {
                match event {
                    EventView::ConfigDirLocated { config_dir } => match spec_xl_path(config_dir) {
                        Some(root) => InstallView::ClearingDirectory {
                            staged: StagedView {
                                internal_name: request.internal_name,
                                archive,
                                working_id,
                                completed,
                                directory: spec_install_dir(root, request.internal_name, version),
                            },
                        },
                        None => failed(
                            Stage::PreparingDirectory,
                            ErrorKind::Filesystem,
                            "could not determine xivlauncher config path"@,
                        ),
                    },
                    _ => unexpected(Stage::PreparingDirectory),
                }
            },
            InstallView::ClearingDirectory { staged } => match event {
                EventView::DirectoryRemoved => InstallView::CreatingDirectory { staged },
                EventView::RemovalFailed { not_found, cause } => if not_found {
                    InstallView::CreatingDirectory { staged }
                } else {
                    failed(
                        Stage::PreparingDirectory,
                        ErrorKind::Filesystem,
                        "could not remove install dir: "@ + cause,
                    )
                },
                _ => unexpected(Stage::PreparingDirectory),
            },
            InstallView::CreatingDirectory { staged } => match event {
                EventView::DirectoryCreated => InstallView::ExtractingArchive { staged },
                EventView::CreationFailed { cause } => failed(
                    Stage::PreparingDirectory,
                    ErrorKind::Filesystem,
                    "could not create install dir: "@ + cause,
                ),
                _ => unexpected(Stage::PreparingDirectory),
            },
            InstallView::ExtractingArchive { staged } => match event {
                EventView::ArchiveExtracted => InstallView::Finalizing { staged },
                EventView::ExtractionFailed { cause } => failed(
                    Stage::ExtractingArchive,
                    ErrorKind::Archive,
                    "could not extract zip: "@ + cause,
                ),
                _ => unexpected(Stage::ExtractingArchive),
            },
            InstallView::Finalizing { staged } => match event {
                EventView::ManifestWritten => InstallView::Done { working_id: staged.working_id },
                EventView::WriteFailed { cause } => failed(
                    Stage::Finalizing,
                    ErrorKind::Filesystem,
                    "could not write manifest: "@ + cause,
                ),
                _ => unexpected(Stage::Finalizing),
            },
            InstallView::Done { .. } => self,
            InstallView::Failed { .. } => self,
        }
    }
}

/// Tells whether `status` is an HTTP success.
pub fn status_is_success(status: u16) -> (success: bool)
    ensures
        success == is_success(status),
{
    200 <= status && status <= 299
}

/// Tells whether `text` holds a path separator.
pub fn contains_path_separator(text: &str) -> (found: bool)
    ensures
        found == has_path_separator(text@),
{
    let mut found = false;
    for c in it: text.chars()
        invariant
            it.seq() == text@,
            found == exists|j: int| 0 <= j < it.index() && is_separator(#[trigger] text@[j]),
    {
        if c == '/' || c == '\\' {
            found = true;
        }
    }
    found
}

/// Tells whether `text` is empty, `.` or `..`.
pub fn names_no_directory(text: &str) -> (dot: bool)
    ensures
        dot == is_dot_name(text@),
{
    if text.is_empty() {
        return true;
    }
    let name = String::from_str(text);
    name == String::from_str(".") || name == String::from_str("..")
}

/// The error with message `prefix` followed by `cause`.
fn error_with_cause(stage: Stage, kind: ErrorKind, prefix: &str, cause: &str) -> (error:
    InstallError)
    ensures
        error@ == error_at(stage, kind, prefix@ + cause@),
{
    InstallError { stage, kind, message: String::from_str(prefix).concat(cause) }
}

/// The failed state with message `prefix` followed by `cause`.
fn fail_with_cause(stage: Stage, kind: ErrorKind, prefix: &str, cause: &str) -> (state: Install)
    ensures
        state@ == failed(stage, kind, prefix@ + cause@),
{
    Install::Failed { error: error_with_cause(stage, kind, prefix, cause) }
}

/// The failed state for an event that the machine had not asked for.
fn fail_unexpected(stage: Stage) -> (state: Install)
    ensures
        state@ == unexpected(stage),
{
    Install::Failed {
        error: InstallError {
            stage,
            kind: ErrorKind::Protocol,
            message: String::from_str("unexpected event"),
        },
    }
}

/// Reads the two output slots of the manifest completion.
pub fn completed_manifest(manifest: Option<Vec<u8>>, version: Option<Vec<u8>>) -> (r: Result<
    (String, String),
    InstallError,
>)
    ensures
        completed_view(r) == spec_completed(slot_view(manifest), slot_view(version)),
{
    let (manifest, version) = match (manifest, version) {
        (Some(manifest), Some(version)) => (manifest, version),
        _ => {
            return Err(
                InstallError {
                    stage: Stage::CompletingManifest,
                    kind: ErrorKind::NullResult,
                    message: String::from_str("failed to fill out manifest"),
                },
            );
        },
    };
    let manifest = match text_from_utf8(manifest) {
        Ok(text) => text,
        Err(cause) => {
            return Err(
                error_with_cause(
                    Stage::CompletingManifest,
                    ErrorKind::Marshaling,
                    "json was invalid: ",
                    cause.as_str(),
                ),
            );
        },
    };
    let version = match text_from_utf8(version) {
        Ok(text) => text,
        Err(cause) => {
            return Err(
                error_with_cause(
                    Stage::CompletingManifest,
                    ErrorKind::Marshaling,
                    "json was invalid: ",
                    cause.as_str(),
                ),
            );
        },
    };
    if contains_path_separator(version.as_str()) {
        return Err(
            error_with_cause(
                Stage::CompletingManifest,
                ErrorKind::UnsafeVersion,
                "version contains a path separator: ",
                version.as_str(),
            ),
        );
    }
    if names_no_directory(version.as_str()) {
        return Err(
            error_with_cause(
                Stage::CompletingManifest,
                ErrorKind::UnsafeVersion,
                "version is not the name of a directory: ",
                version.as_str(),
            ),
        );
    }
    Ok((manifest, version))
}

/// Starts the install of the plugin `internal_name` from the archive at `url`,
/// declared to belong to the repository at `repo_url`.
pub fn install_plugin_from_url(internal_name: &str, url: &str, repo_url: &str) -> (state: Install)
    ensures
        state@ == (InstallView::Fetching {
            request: RequestView {
                internal_name: internal_name@,
                url: url@,
                repo_url: repo_url@,
            },
        }),
{
    Install::Fetching {
        request: Request {
            internal_name: String::from_str(internal_name),
            url: String::from_str(url),
            repo_url: String::from_str(repo_url),
        },
    }
}

impl Install {
    /// The step of the pipeline that the state belongs to.
    pub fn stage(&self) -> (stage: Stage)
        ensures
            stage == self@.stage(),
    {
        match self {
            Install::Fetching { .. } => Stage::Fetching,
            Install::ExtractingManifest { .. } => Stage::ExtractingManifest,
            Install::DrawingWorkingId { .. } => Stage::CompletingManifest,
            Install::CompletingManifest { .. } => Stage::CompletingManifest,
            Install::LocatingRoot { .. } => Stage::PreparingDirectory,
            Install::ClearingDirectory { .. } => Stage::PreparingDirectory,
            Install::CreatingDirectory { .. } => Stage::PreparingDirectory,
            Install::ExtractingArchive { .. } => Stage::ExtractingArchive,
            Install::Finalizing { .. } => Stage::Finalizing,
            Install::Done { .. } => Stage::Done,
            Install::Failed { .. } => Stage::Error,
        }
    }

    /// What the machine asks for in this state.
    pub fn pending(&self) -> (action: Action<'_>)
        ensures
            action@ == self@.pending(),
    {
        match self {
            Install::Fetching { request } => Action::Fetch { url: request.url.as_str() },
            Install::ExtractingManifest { .. } => Action::ReadManifest,
            Install::DrawingWorkingId { .. } => Action::DrawWorkingId,
            Install::CompletingManifest { request, archive, manifest, working_id } => {
                Action::CompleteManifest {
                    manifest: manifest.as_str(),
                    working_id: working_id.as_str(),
                    repo_url: request.repo_url.as_str(),
                }
            },
            Install::LocatingRoot { .. } => Action::LocateConfigDir,
            Install::ClearingDirectory { staged } => Action::RemoveDirectory {
                path: &staged.directory,
            },
            Install::CreatingDirectory { staged } => Action::CreateDirectory {
                path: &staged.directory,
            },
            Install::ExtractingArchive { staged } => Action::ExtractArchive {
                archive: staged.archive.as_slice(),
                into: &staged.directory,
            },
            Install::Finalizing { staged } => Action::WriteManifest {
                file: manifest_path(staged.directory.duplicate(), staged.internal_name.as_str()),
                contents: staged.completed.as_str(),
            },
            Install::Done { working_id } => Action::Succeed { working_id: working_id.as_str() },
            Install::Failed { error } => Action::Fail { error },
        }
    }

    /// Takes the outcome of what was asked for and moves on.
    pub fn step(self, event: Event) -> (next: Install)
        ensures
            next@ == self@.step(event@),
    {
        match self {
            Install::Fetching { request } => match event {
                Event::Fetched { status, reason, body } => if status_is_success(status) {
                    Install::ExtractingManifest { request, archive: body }
                } else {
                    fail_with_cause(
                        Stage::Fetching,
                        ErrorKind::Transport,
                        "could not request plugin: ",
                        reason.as_str(),
                    )
                },
                Event::RequestFailed { cause } => fail_with_cause(
                    Stage::Fetching,
                    ErrorKind::Transport,
                    "could not request plugin: ",
                    cause.as_str(),
                ),
                Event::DownloadFailed { cause } => fail_with_cause(
                    Stage::Fetching,
                    ErrorKind::Transport,
                    "could not download plugin: ",
                    cause.as_str(),
                ),
                _ => fail_unexpected(Stage::Fetching),
            },
            Install::ExtractingManifest { request, archive } => match event {
                Event::ManifestRead { read } => match read {
                    ManifestRead::Text(manifest) => Install::DrawingWorkingId {
                        request,
                        archive,
                        manifest,
                    },
                    ManifestRead::Corrupt(cause) => fail_with_cause(
                        Stage::ExtractingManifest,
                        ErrorKind::Archive,
                        "could not process zip archive: ",
                        cause.as_str(),
                    ),
                    ManifestRead::Missing(cause) => fail_with_cause(
                        Stage::ExtractingManifest,
                        ErrorKind::ManifestNotFound,
                        "could not get manifest: ",
                        cause.as_str(),
                    ),
                    ManifestRead::Unavailable(cause) => fail_with_cause(
                        Stage::ExtractingManifest,
                        ErrorKind::Archive,
                        "could not get manifest: ",
                        cause.as_str(),
                    ),
                    ManifestRead::Unreadable(cause) => fail_with_cause(
                        Stage::ExtractingManifest,
                        ErrorKind::Archive,
                        "could not extract manifest: ",
                        cause.as_str(),
                    ),
                },
                _ => fail_unexpected(Stage::ExtractingManifest),
            },
            Install::DrawingWorkingId { request, archive, manifest } => match event {
                Event::WorkingIdDrawn { working_id } => Install::CompletingManifest {
                    request,
                    archive,
                    manifest,
                    working_id,
                },
                _ => fail_unexpected(Stage::CompletingManifest),
            },
            Install::CompletingManifest { request, archive, manifest, working_id } => match event {
                Event::ManifestCompleted { manifest: completed, version } => {
                    match completed_manifest(completed, version) {
                        Ok((completed, version)) => Install::LocatingRoot {
                            request,
                            archive,
                            working_id,
                            completed,
                            version,
                        },
                        Err(error) => Install::Failed { error },
                    }
                },
                _ => fail_unexpected(Stage::CompletingManifest),
            },
            Install::LocatingRoot { request, archive, working_id, completed, version } => {
                match event {
                    Event::ConfigDirLocated { config_dir } => match xl_path_in(config_dir) {
                        Some(root) => {
                            let directory = install_dir(
                                root,
                                request.internal_name.as_str(),
                                version.as_str(),
                            );
                            Install::ClearingDirectory {
                                staged: Staged {
                                    internal_name: request.internal_name,
                                    archive,
                                    working_id,
                                    completed,
                                    directory,
                                },
                            }
                        },
                        None => Install::Failed {
                            error: InstallError {
                                stage: Stage::PreparingDirectory,
                                kind: ErrorKind::Filesystem,
                                message: String::from_str(
                                    "could not determine xivlauncher config path",
                                ),
                            },
                        },
                    },
                    _ => fail_unexpected(Stage::PreparingDirectory),
                }
            },
            Install::ClearingDirectory { staged } => match event {
                Event::DirectoryRemoved => Install::CreatingDirectory { staged },
                Event::RemovalFailed { not_found, cause } => if not_found {
                    Install::CreatingDirectory { staged }
                } else {
                    fail_with_cause(
                        Stage::PreparingDirectory,
                        ErrorKind::Filesystem,
                        "could not remove install dir: ",
                        cause.as_str(),
                    )
                },
                _ => fail_unexpected(Stage::PreparingDirectory),
            },
            Install::CreatingDirectory { staged } => match event {
                Event::DirectoryCreated => Install::ExtractingArchive { staged },
                Event::CreationFailed { cause } => fail_with_cause(
                    Stage::PreparingDirectory,
                    ErrorKind::Filesystem,
                    "could not create install dir: ",
                    cause.as_str(),
                ),
                _ => fail_unexpected(Stage::PreparingDirectory),
            },
            Install::ExtractingArchive { staged } => match event {
                Event::ArchiveExtracted => Install::Finalizing { staged },
                Event::ExtractionFailed { cause } => fail_with_cause(
                    Stage::ExtractingArchive,
                    ErrorKind::Archive,
                    "could not extract zip: ",
                    cause.as_str(),
                ),
                _ => fail_unexpected(Stage::ExtractingArchive),
            },
            Install::Finalizing { staged } => match event {
                Event::ManifestWritten => Install::Done { working_id: staged.working_id },
                Event::WriteFailed { cause } => fail_with_cause(
                    Stage::Finalizing,
                    ErrorKind::Filesystem,
                    "could not write manifest: ",
                    cause.as_str(),
                ),
                _ => fail_unexpected(Stage::Finalizing),
            },
            Install::Done { working_id } => Install::Done { working_id },
            Install::Failed { error } => Install::Failed { error },
        }
    }
}

impl InstallView {
    /// `event` is an answer that the library itself gives to what the state
    /// asks for: the manifest as the archive holds it, some working id, or
    /// whatever the platform says its configuration directory is.
    pub open spec fn answered_locally_by(self, event: EventView) -> bool {
        match self {
            InstallView::ExtractingManifest { request, archive } => event
                == (EventView::ManifestRead {
                read: spec_read_manifest(archive, request.internal_name),
            }),
            InstallView::DrawingWorkingId { .. } => event matches EventView::WorkingIdDrawn {
                working_id,
            } && is_working_id(working_id),
            InstallView::LocatingRoot { .. } => event is ConfigDirLocated,
            _ => false,
        }
    }

    /// How many of the library's own actions can follow one another from
    /// this state at most.
    pub open spec fn local_moves_left(self) -> nat {
        match self {
            InstallView::ExtractingManifest { .. } => 2,
            InstallView::DrawingWorkingId { .. } => 1,
            InstallView::LocatingRoot { .. } => 1,
            _ => 0,
        }
    }
}

/// The state that `start` is in after `events` have arrived in order.
pub open spec fn run(start: InstallView, events: Seq<EventView>) -> InstallView
    decreases events.len(),
{
    if events.len() == 0 {
        start
    } else {
        run(start, events.drop_last()).step(events.last())
    }
}

/// Each of `events`, arriving in order from `start` on, is the library's own
/// answer to what was asked for when it arrived.
pub open spec fn all_local(start: InstallView, events: Seq<EventView>) -> bool
    decreases events.len(),
{
    if events.len() == 0 {
        true
    } else {
        all_local(start, events.drop_last()) && run(
            start,
            events.drop_last(),
        ).answered_locally_by(events.last())
    }
}

impl Install {
    /// Carries out what the machine asks for, if that is the library's own
    /// to do, and gives the outcome; `None` if it is not.
    pub fn perform(&self) -> (event: Option<Event>)
        ensures
            event is Some <==> self@.pending().is_local(),
            event matches Some(e) ==> self@.answered_locally_by(e@),
    {
        match self {
            Install::ExtractingManifest { request, archive } => Some(
                Event::ManifestRead { read: read_manifest(archive, request.internal_name.as_str()) },
            ),
            Install::DrawingWorkingId { .. } => Some(
                Event::WorkingIdDrawn { working_id: new_working_id() },
            ),
            Install::LocatingRoot { .. } => Some(
                Event::ConfigDirLocated { config_dir: config_dir() },
            ),
            _ => None,
        }
    }

    /// Takes the outcome of what was asked for, and then does whatever the
    /// library can do itself, until the machine asks for something that it
    /// cannot or has come to an end.
    pub fn advance(self, event: Event) -> (next: Install)
        ensures
            !next@.pending().is_local(),
            exists|locals: Seq<EventView>|
                all_local(self@.step(event@), locals) && next@ == run(
                    self@.step(event@),
                    locals,
                ),
    {
        let mut state = self.step(event);
        let ghost first = state@;
        let ghost mut locals: Seq<EventView> = Seq::empty();
        loop
            invariant
                all_local(first, locals),
                state@ == run(first, locals),
            ensures
                !state@.pending().is_local(),
            decreases state@.local_moves_left(),
        {
            match state.perform() {
                Some(answer) => {
                    proof {
                        let extended = locals.push(answer@);
                        assert(extended.drop_last() =~= locals);
                        locals = extended;
                    }
                    state = state.step(answer);
                },
                None => {
                    break ;
                },
            }
        }
        state
    }
}

} // verus!
