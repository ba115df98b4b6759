//! What holds of every install, whatever arrives and in whatever order.

use crate::archive::{not_found_text, opened, spec_read_manifest, ManifestReadView};
use crate::install::{
    failed, is_directory_name, is_success, run, spec_completed, ActionView, ErrorKind, EventView,
    InstallView, RequestView, Stage,
};
use crate::paths::{json_file_name, spec_install_dir, spec_xl_path};
use std::path::PathBuf;
use vstd::prelude::*;
use vstd::utf8::*;

verus! {

/// The place of a step in the pipeline.
pub open spec fn stage_rank(stage: Stage) -> nat {
    match stage {
        Stage::Fetching => 0,
        Stage::ExtractingManifest => 1,
        Stage::CompletingManifest => 2,
        Stage::PreparingDirectory => 3,
        Stage::ExtractingArchive => 4,
        Stage::Finalizing => 5,
        Stage::Done => 6,
        Stage::Error => 7,
    }
}

impl InstallView {
    /// How far the attempt got: the place of the step it is at, or of the
    /// step at which it failed.
    pub open spec fn progress(self) -> nat {
        match self {
            InstallView::Failed { error } => stage_rank(error.stage),
            _ => stage_rank(self.stage()),
        }
    }
}

/// `Done` and `Error` are ends: no event leads out of either.
pub proof fn lemma_ends_absorb(state: InstallView, event: EventView)
    requires
        state.is_terminal(),
    ensures
        state.step(event) == state,
{
}

/// `Error` can be reached from every step: from any state that is not an end,
/// some event leads there.
pub proof fn lemma_error_reachable(state: InstallView)
    requires
        !state.is_terminal(),
    ensures
        exists|event: EventView| #[trigger] state.step(event) is Failed,
{
    let event = if state is Fetching {
        EventView::ManifestWritten
    } else {
        EventView::RequestFailed { cause: Seq::empty() }
    };
    assert(state.step(event) is Failed);
}

/// The machine never goes back: whatever arrives, the attempt is afterwards
/// at least as far as it was, and a failure is recorded at the step that it
/// happened in.
pub proof fn lemma_step_never_goes_back(state: InstallView, event: EventView)
    ensures
        state.progress() <= state.step(event).progress(),
        !state.is_terminal() && state.step(event) is Failed ==> state.step(event).progress()
            == state.progress(),
{
}

/// Along any sequence of events the attempt only moves forward.
pub proof fn lemma_run_never_goes_back(start: InstallView, events: Seq<EventView>, i: int)
    requires
        0 <= i <= events.len(),
    ensures
        run(start, events.take(i)).progress() <= run(start, events).progress(),
    decreases events.len(),
{
    if i == events.len() {
        assert(events.take(i) =~= events);
    } else {
        assert(events.drop_last().take(i) =~= events.take(i));
        lemma_run_never_goes_back(start, events.drop_last(), i);
        lemma_step_never_goes_back(run(start, events.drop_last()), events.last());
    }
}

/// An attempt that fails while fetching, extracting the manifest or
/// completing it has at no point asked for anything that touches the disk:
/// no install directory is removed, created or written to.
pub proof fn lemma_early_failure_leaves_disk_untouched(
    start: InstallView,
    events: Seq<EventView>,
    i: int,
)
    requires
        0 <= i <= events.len(),
        run(start, events) matches InstallView::Failed { error } && stage_rank(error.stage)
            < stage_rank(Stage::PreparingDirectory),
    ensures
        !run(start, events.take(i)).pending().touches_disk(),
{
    lemma_run_never_goes_back(start, events, i);
}

/// A status that is not a success fails the attempt at `Fetching` as a
/// transport error, with the server's answer as the cause.
pub proof fn lemma_bad_status_fails_fetching(
    request: RequestView,
    status: u16,
    reason: Seq<char>,
    body: Seq<u8>,
)
    requires
        !is_success(status),
    ensures
        (InstallView::Fetching { request }).step(EventView::Fetched { status, reason, body })
            == failed(Stage::Fetching, ErrorKind::Transport, "could not request plugin: "@ + reason),
{
}

/// An archive that opens but has no entry `<internal-name>.json` fails the
/// attempt at `Extracting-Manifest`, as a manifest that was not found.
pub proof fn lemma_missing_manifest_fails_extraction(request: RequestView, archive: Seq<u8>)
    requires
        opened(archive) matches Ok(entries) && !entries.dom().contains(
            json_file_name(request.internal_name),
        ),
    ensures
        ({
            let state = InstallView::ExtractingManifest { request, archive };
            let answer = EventView::ManifestRead {
                read: spec_read_manifest(archive, request.internal_name),
            };
            &&& state.answered_locally_by(answer)
            &&& state.step(answer) == failed(
                Stage::ExtractingManifest,
                ErrorKind::ManifestNotFound,
                "could not get manifest: "@ + not_found_text(),
            )
        }),
{
}

/// Once at an end, the attempt stays there whatever else arrives.
pub proof fn lemma_run_stays_at_end(state: InstallView, events: Seq<EventView>)
    requires
        state.is_terminal(),
    ensures
        run(state, events) == state,
    decreases events.len(),
{
    if events.len() > 0 {
        lemma_run_stays_at_end(state, events.drop_last());
    }
}

/// Running through two sequences of events one after the other is running
/// through them joined.
pub proof fn lemma_run_joined(start: InstallView, first: Seq<EventView>, rest: Seq<EventView>)
    ensures
        run(start, first + rest) == run(run(start, first), rest),
    decreases rest.len(),
{
    if rest.len() == 0 {
        assert(first + rest =~= first);
    } else {
        assert((first + rest).drop_last() =~= first + rest.drop_last());
        assert((first + rest).last() == rest.last());
        lemma_run_joined(start, first, rest.drop_last());
    }
}

/// An install whose archive has no entry `<internal-name>.json` ends in
/// `Error` at `Extracting-Manifest`, whatever arrives afterwards, and at no
/// point asks for anything that touches the disk.
pub proof fn lemma_missing_manifest_ends_install(
    request: RequestView,
    status: u16,
    reason: Seq<char>,
    body: Seq<u8>,
    rest: Seq<EventView>,
    i: int,
)
    requires
        is_success(status),
        opened(body) matches Ok(entries) && !entries.dom().contains(
            json_file_name(request.internal_name),
        ),
        0 <= i <= rest.len() + 2,
    ensures
        ({
            let start = InstallView::Fetching { request };
            let events = seq![
                EventView::Fetched { status, reason, body },
                EventView::ManifestRead { read: spec_read_manifest(body, request.internal_name) },
            ] + rest;
            &&& run(start, events) == failed(
                Stage::ExtractingManifest,
                ErrorKind::ManifestNotFound,
                "could not get manifest: "@ + not_found_text(),
            )
            &&& !run(start, events.take(i)).pending().touches_disk()
        }),
{
    let start = InstallView::Fetching { request };
    let first = seq![
        EventView::Fetched { status, reason, body },
        EventView::ManifestRead { read: spec_read_manifest(body, request.internal_name) },
    ];
    lemma_run_one_more(start, first, 0);
    lemma_run_one_more(start, first, 1);
    assert(first.take(2) =~= first);
    lemma_missing_manifest_fails_extraction(request, body);
    lemma_run_joined(start, first, rest);
    lemma_run_stays_at_end(run(start, first), rest);
    lemma_early_failure_leaves_disk_untouched(start, first + rest, i);
}

/// A version that is accepted names a single directory: it is not empty,
/// holds no path separator, and is neither `.` nor `..`. So the install
/// directory lies directly below the plugin's own, and removing it removes
/// nothing else.
pub proof fn lemma_accepted_version_is_a_directory_name(
    completed: Option<Seq<u8>>,
    version: Option<Seq<u8>>,
)
    requires
        spec_completed(completed, version) is Ok,
    ensures
        is_directory_name(spec_completed(completed, version)->Ok_0.1),
{
}

/// A null in either output slot of the manifest completion fails the attempt
/// at `Completing-Manifest` as a whole, whatever the other slot holds.
pub proof fn lemma_null_slot_fails_completion(
    request: RequestView,
    archive: Seq<u8>,
    manifest: Seq<char>,
    working_id: Seq<char>,
    completed: Option<Seq<u8>>,
    version: Option<Seq<u8>>,
)
    requires
        completed is None || version is None,
    ensures
        (InstallView::CompletingManifest { request, archive, manifest, working_id }).step(
            EventView::ManifestCompleted { manifest: completed, version },
        ) == failed(
            Stage::CompletingManifest,
            ErrorKind::NullResult,
            "failed to fill out manifest"@,
        ),
{
}

/// Removing a directory that is not there counts as removing it: in every
/// state, the report that there was nothing to remove has the same effect as
/// the report that the directory was removed.
pub proof fn lemma_removal_tolerates_absence(state: InstallView, cause: Seq<char>)
    ensures
        state.step(EventView::RemovalFailed { not_found: true, cause }) == state.step(
            EventView::DirectoryRemoved,
        ),
{
}

/// Running through one more event is taking one more step.
pub proof fn lemma_run_one_more(start: InstallView, events: Seq<EventView>, i: int)
    requires
        0 <= i < events.len(),
    ensures
        run(start, events.take(i + 1)) == run(start, events.take(i)).step(events[i]),
        i == 0 ==> run(start, events.take(i)) == start,
{
    assert(events.take(i + 1).drop_last() =~= events.take(i));
    assert(events.take(i + 1).last() == events[i]);
}

/// The events of an install in which nothing goes wrong.
pub open spec fn smooth_events(
    status: u16,
    reason: Seq<char>,
    body: Seq<u8>,
    manifest: Seq<char>,
    working_id: Seq<char>,
    completed: Seq<u8>,
    version: Seq<u8>,
    config_dir: PathBuf,
) -> Seq<EventView> {
    seq![
        EventView::Fetched { status, reason, body },
        EventView::ManifestRead { read: ManifestReadView::Text(manifest) },
        EventView::WorkingIdDrawn { working_id },
        EventView::ManifestCompleted { manifest: Some(completed), version: Some(version) },
        EventView::ConfigDirLocated { config_dir: Some(config_dir) },
        EventView::DirectoryRemoved,
        EventView::DirectoryCreated,
        EventView::ArchiveExtracted,
        EventView::ManifestWritten,
    ]
}

/// An install in which nothing goes wrong ends in `Done` with the working id
/// that was drawn for it. On the way it asks for the archive to be fetched,
/// reads the manifest, draws the working id, and has the manifest completed.
/// Then it asks for the install directory
/// `installedPlugins/<internal-name>/<version>` to be removed, then created,
/// then filled from the fetched archive, and last for the manifest in it to
/// be overwritten with the text that the secondary runtime completed: in
/// this order, and all four in the same directory.
pub proof fn lemma_smooth_install(
    request: RequestView,
    status: u16,
    reason: Seq<char>,
    body: Seq<u8>,
    manifest: Seq<char>,
    working_id: Seq<char>,
    completed: Seq<u8>,
    version: Seq<u8>,
    config_dir: PathBuf,
)
    requires
        is_success(status),
        spec_completed(Some(completed), Some(version)) is Ok,
    ensures
        ({
            let start = InstallView::Fetching { request };
            let events = smooth_events(
                status,
                reason,
                body,
                manifest,
                working_id,
                completed,
                version,
                config_dir,
            );
            let directory = spec_install_dir(
                spec_xl_path(Some(config_dir))->0,
                request.internal_name,
                decode_utf8(version),
            );
            &&& run(start, events.take(0)).pending() == (ActionView::Fetch { url: request.url })
            &&& run(start, events.take(1)).pending() == ActionView::ReadManifest
            &&& run(start, events.take(2)).pending() == ActionView::DrawWorkingId
            &&& run(start, events.take(3)).pending() == (ActionView::CompleteManifest {
                manifest,
                working_id,
                repo_url: request.repo_url,
            })
            &&& run(start, events.take(4)).pending() == ActionView::LocateConfigDir
            &&& run(start, events.take(5)).pending() == (ActionView::RemoveDirectory {
                path: directory,
            })
            &&& run(start, events.take(6)).pending() == (ActionView::CreateDirectory {
                path: directory,
            })
            &&& run(start, events.take(7)).pending() == (ActionView::ExtractArchive {
                archive: body,
                into: directory,
            })
            &&& run(start, events.take(8)).pending() == (ActionView::WriteManifest {
                file: directory.join(json_file_name(request.internal_name)),
                contents: decode_utf8(completed),
            })
            &&& run(start, events) == (InstallView::Done { working_id })
        }),
{
    let start = InstallView::Fetching { request };
    let events = smooth_events(
        status,
        reason,
        body,
        manifest,
        working_id,
        completed,
        version,
        config_dir,
    );
    lemma_run_one_more(start, events, 0);
    lemma_run_one_more(start, events, 1);
    lemma_run_one_more(start, events, 2);
    lemma_run_one_more(start, events, 3);
    lemma_run_one_more(start, events, 4);
    lemma_run_one_more(start, events, 5);
    lemma_run_one_more(start, events, 6);
    lemma_run_one_more(start, events, 7);
    lemma_run_one_more(start, events, 8);
    assert(events.take(9) =~= events);
}

} // verus!
