//! What an install leaves on disk, over a model of the disk.
//!
//! The machine in [`crate::install`] only asks for things to be done to the
//! disk. This module says what those things mean for the files that are
//! there, and concludes what a successful install leaves in the install
//! directory. The model is a plain one: the disk is the set of its files, each
//! with a path and a content; a directory is the prefix that the paths of its
//! files share, and each name in a path is taken as a single name.

use crate::install::laws::{lemma_smooth_install, smooth_events};
use crate::install::{
    is_success, run, spec_completed, ActionView, EventView, InstallView, RequestView, StagedView,
};
use crate::paths::{json_file_name, spec_install_dir, spec_xl_path, LauncherPathView};
use std::path::PathBuf;
use vstd::prelude::*;
use vstd::utf8::*;

verus! {

/// The file `relative` below the directory `dir`.
pub open spec fn place(dir: LauncherPathView, relative: Seq<Seq<char>>) -> LauncherPathView {
    LauncherPathView { base: dir.base, segments: dir.segments + relative }
}

/// `file` lies somewhere below the directory `dir`.
pub open spec fn below(dir: LauncherPathView, file: LauncherPathView) -> bool {
    &&& file.base == dir.base
    &&& dir.segments.len() < file.segments.len()
    &&& file.segments.take(dir.segments.len() as int) == dir.segments
}

/// The path of `file` as seen from the directory `dir`.
pub open spec fn relative(dir: LauncherPathView, file: LauncherPathView) -> Seq<Seq<char>> {
    file.segments.skip(dir.segments.len() as int)
}

/// The files of `disk` that lie below `dir`, by their paths as seen from
/// `dir`.
pub open spec fn directory_contents(
    disk: Map<LauncherPathView, Seq<u8>>,
    dir: LauncherPathView,
) -> Map<Seq<Seq<char>>, Seq<u8>> {
    Map::new(
        |rel: Seq<Seq<char>>| rel.len() > 0 && disk.dom().contains(place(dir, rel)),
        |rel: Seq<Seq<char>>| disk[place(dir, rel)],
    )
}

/// The disk after `action` has been carried out on `disk`. `unpacked` is what
/// the archive unpacks to: its files, by their paths inside it.
///
/// Removing a directory removes every file below it. Creating one adds no
/// file. Extracting puts each unpacked file below the target, over whatever
/// has its path. Writing the manifest puts its text, as UTF-8, at its path.
/// Nothing else changes the disk.
pub open spec fn effect(
    disk: Map<LauncherPathView, Seq<u8>>,
    action: ActionView,
    unpacked: Map<Seq<Seq<char>>, Seq<u8>>,
) -> Map<LauncherPathView, Seq<u8>> {
    match action {
        ActionView::RemoveDirectory { path } => Map::new(
            |file: LauncherPathView| disk.dom().contains(file) && !below(path, file),
            |file: LauncherPathView| disk[file],
        ),
        ActionView::ExtractArchive { archive, into } => Map::new(
            |file: LauncherPathView|
                disk.dom().contains(file) || (below(into, file) && unpacked.dom().contains(
                    relative(into, file),
                )),
            |file: LauncherPathView|
                if below(into, file) && unpacked.dom().contains(relative(into, file)) {
                    unpacked[relative(into, file)]
                } else {
                    disk[file]
                },
        ),
        ActionView::WriteManifest { file, contents } => disk.insert(file, encode_utf8(contents)),
        _ => disk,
    }
}

/// The disk after the four things that the machine asks for from
/// `Preparing-Directory` to `Finalizing` have been carried out in order.
pub open spec fn after_placing(
    disk: Map<LauncherPathView, Seq<u8>>,
    staged: StagedView,
    unpacked: Map<Seq<Seq<char>>, Seq<u8>>,
) -> Map<LauncherPathView, Seq<u8>> {
    let cleared = effect(disk, (InstallView::ClearingDirectory { staged }).pending(), unpacked);
    let created = effect(cleared, (InstallView::CreatingDirectory { staged }).pending(), unpacked);
    let filled = effect(created, (InstallView::ExtractingArchive { staged }).pending(), unpacked);
    effect(filled, (InstallView::Finalizing { staged }).pending(), unpacked)
}

/// What a successful install leaves in the install directory: the archive's
/// files, with the completed manifest in place of the archived one.
pub open spec fn installed_contents(staged: StagedView, unpacked: Map<Seq<Seq<char>>, Seq<u8>>)
    -> Map<Seq<Seq<char>>, Seq<u8>> {
    unpacked.insert(seq![json_file_name(staged.internal_name)], encode_utf8(staged.completed))
}

/// A path below a directory, seen from that directory, is the path it was
/// placed at.
pub proof fn lemma_place_is_below(dir: LauncherPathView, rel: Seq<Seq<char>>)
    requires
        rel.len() > 0,
    ensures
        below(dir, place(dir, rel)),
        relative(dir, place(dir, rel)) == rel,
{
    assert((dir.segments + rel).take(dir.segments.len() as int) =~= dir.segments);
    assert((dir.segments + rel).skip(dir.segments.len() as int) =~= rel);
}

/// An install replaces: after a successful install the install directory
/// holds the files of the archive and the completed manifest, and nothing
/// else, whatever the disk held before. What lies outside the install
/// directory is as it was.
pub proof fn lemma_install_replaces_directory(
    disk: Map<LauncherPathView, Seq<u8>>,
    staged: StagedView,
    unpacked: Map<Seq<Seq<char>>, Seq<u8>>,
)
    requires
        forall|rel: Seq<Seq<char>>| unpacked.dom().contains(rel) ==> rel.len() > 0,
    ensures
        directory_contents(after_placing(disk, staged, unpacked), staged.directory)
            == installed_contents(staged, unpacked),
        forall|file: LauncherPathView|
            !below(staged.directory, file) ==> (after_placing(disk, staged, unpacked).dom().contains(
                file,
            ) == disk.dom().contains(file) && (disk.dom().contains(file) ==> #[trigger] after_placing(
                disk,
                staged,
                unpacked,
            )[file] == disk[file])),
{
    let dir = staged.directory;
    let name = seq![json_file_name(staged.internal_name)];
    let end = after_placing(disk, staged, unpacked);
    let left = directory_contents(end, dir);
    let right = installed_contents(staged, unpacked);
    lemma_place_is_below(dir, name);
    assert(place(dir, name) == dir.join(json_file_name(staged.internal_name))) by {
        assert(dir.segments + name =~= dir.segments.push(json_file_name(staged.internal_name)));
    }
    assert forall|rel: Seq<Seq<char>>| left.dom().contains(rel) <==> right.dom().contains(
        rel,
    ) by {
        if rel.len() > 0 {
            lemma_place_is_below(dir, rel);
            lemma_placed_apart(dir, rel, name);
        }
    }
    assert forall|rel: Seq<Seq<char>>| #[trigger] left.dom().contains(rel) implies left[rel]
        == right[rel] by {
        lemma_place_is_below(dir, rel);
        lemma_placed_apart(dir, rel, name);
    }
    assert(left =~= right);
}

/// Two paths below one directory are the same file only if they are the same
/// path.
pub proof fn lemma_placed_apart(dir: LauncherPathView, a: Seq<Seq<char>>, b: Seq<Seq<char>>)
    ensures
        place(dir, a) == place(dir, b) <==> a == b,
{
    if place(dir, a) == place(dir, b) {
        assert((dir.segments + a).skip(dir.segments.len() as int) =~= a);
        assert((dir.segments + b).skip(dir.segments.len() as int) =~= b);
    }
}

/// Installing twice is installing once: a second successful install of the
/// same plugin and version leaves in the install directory exactly what the
/// second install put there, with no residue of the first.
pub proof fn lemma_reinstall_leaves_no_residue(
    disk: Map<LauncherPathView, Seq<u8>>,
    first: StagedView,
    first_unpacked: Map<Seq<Seq<char>>, Seq<u8>>,
    second: StagedView,
    second_unpacked: Map<Seq<Seq<char>>, Seq<u8>>,
)
    requires
        first.directory == second.directory,
        forall|rel: Seq<Seq<char>>| first_unpacked.dom().contains(rel) ==> rel.len() > 0,
        forall|rel: Seq<Seq<char>>| second_unpacked.dom().contains(rel) ==> rel.len() > 0,
    ensures
        directory_contents(
            after_placing(after_placing(disk, first, first_unpacked), second, second_unpacked),
            second.directory,
        ) == installed_contents(second, second_unpacked),
{
    lemma_install_replaces_directory(
        after_placing(disk, first, first_unpacked),
        second,
        second_unpacked,
    );
}

/// The disk after everything that the machine asked for while `events`
/// arrived has been carried out, in order, each with the effect that
/// [`effect`] gives it.
pub open spec fn disk_after(
    disk: Map<LauncherPathView, Seq<u8>>,
    start: InstallView,
    events: Seq<EventView>,
    unpacked: Map<Seq<Seq<char>>, Seq<u8>>,
) -> Map<LauncherPathView, Seq<u8>>
    decreases events.len(),
{
    if events.len() == 0 {
        disk
    } else {
        effect(
            disk_after(disk, start, events.drop_last(), unpacked),
            run(start, events.drop_last()).pending(),
            unpacked,
        )
    }
}

/// Carrying out one more action is one more effect.
pub proof fn lemma_disk_after_one_more(
    disk: Map<LauncherPathView, Seq<u8>>,
    start: InstallView,
    events: Seq<EventView>,
    i: int,
    unpacked: Map<Seq<Seq<char>>, Seq<u8>>,
)
    requires
        0 <= i < events.len(),
    ensures
        disk_after(disk, start, events.take(i + 1), unpacked) == effect(
            disk_after(disk, start, events.take(i), unpacked),
            run(start, events.take(i)).pending(),
            unpacked,
        ),
        i == 0 ==> disk_after(disk, start, events.take(i), unpacked) == disk,
{
    assert(events.take(i + 1).drop_last() =~= events.take(i));
}

/// What a smooth install leaves behind: when nothing goes wrong, the install
/// directory `installedPlugins/<internal-name>/<version>` holds in the end
/// the files of the fetched archive, with the manifest that the secondary
/// runtime completed in place of the archived one, whatever was on the disk
/// before.
pub proof fn lemma_smooth_install_leaves(
    disk: Map<LauncherPathView, Seq<u8>>,
    unpacked: Map<Seq<Seq<char>>, Seq<u8>>,
    request: RequestView,
    status: u16,
    reason: Seq<char>,
    body: Seq<u8>,
    manifest: Seq<char>,
    working_id: Seq<char>,
    completed: Seq<u8>,
    version: Seq<u8>,
    config_dir: PathBuf,
)
    requires
        is_success(status),
        spec_completed(Some(completed), Some(version)) is Ok,
        forall|rel: Seq<Seq<char>>| unpacked.dom().contains(rel) ==> rel.len() > 0,
    ensures
        ({
            let start = InstallView::Fetching { request };
            let events = smooth_events(
                status,
                reason,
                body,
                manifest,
                working_id,
                completed,
                version,
                config_dir,
            );
            let directory = spec_install_dir(
                spec_xl_path(Some(config_dir))->0,
                request.internal_name,
                decode_utf8(version),
            );
            directory_contents(disk_after(disk, start, events, unpacked), directory)
                == unpacked.insert(seq![json_file_name(request.internal_name)], completed)
        }),
{
    let start = InstallView::Fetching { request };
    let events = smooth_events(
        status,
        reason,
        body,
        manifest,
        working_id,
        completed,
        version,
        config_dir,
    );
    let staged = StagedView {
        internal_name: request.internal_name,
        archive: body,
        working_id,
        completed: decode_utf8(completed),
        directory: spec_install_dir(
            spec_xl_path(Some(config_dir))->0,
            request.internal_name,
            decode_utf8(version),
        ),
    };
    lemma_smooth_install(
        request,
        status,
        reason,
        body,
        manifest,
        working_id,
        completed,
        version,
        config_dir,
    );
    lemma_disk_after_one_more(disk, start, events, 0, unpacked);
    lemma_disk_after_one_more(disk, start, events, 1, unpacked);
    lemma_disk_after_one_more(disk, start, events, 2, unpacked);
    lemma_disk_after_one_more(disk, start, events, 3, unpacked);
    lemma_disk_after_one_more(disk, start, events, 4, unpacked);
    lemma_disk_after_one_more(disk, start, events, 5, unpacked);
    lemma_disk_after_one_more(disk, start, events, 6, unpacked);
    lemma_disk_after_one_more(disk, start, events, 7, unpacked);
    lemma_disk_after_one_more(disk, start, events, 8, unpacked);
    assert(events.take(9) =~= events);
    assert(disk_after(disk, start, events.take(5), unpacked) == disk);
    assert(disk_after(disk, start, events, unpacked) == after_placing(disk, staged, unpacked));
    lemma_install_replaces_directory(disk, staged, unpacked);
    decode_utf8_encode_utf8(completed);
}

} // verus!
