//! Installing an archive into a target directory, one filesystem action at a
//! time.
//!
//! An [`Installer`] decides; its caller acts. Each call of
//! [`Installer::next_action`] yields the next thing to do to the target
//! directory. The caller does it and asks again, until nothing is left or a
//! step fails.

use vstd::prelude::*;
use crate::archive::archive_failure;
use crate::archive::opened;
use crate::archive::path_view;
use crate::archive::Archive;
use crate::archive::EntryKind;
use crate::archive::EntryView;
use crate::error::ErrorKind;
use crate::error::ErrorView;
use crate::error::InstallError;
use crate::progress::DownloadProgress;

verus! {

/// One thing to do to the target directory. Paths are relative to the
/// target directory and given by their components.
#[derive(Debug)]
pub enum InstallAction {
    /// Delete the target directory with everything in it.
    RemoveTarget,
    /// Create the target directory, and its parents where they are missing.
    CreateTarget,
    /// Create the directory at `path`, and its parents where they are
    /// missing.
    CreateDirectory { path: Vec<String> },
    /// Create the parents of `path` where they are missing, then write
    /// `content` to a new file at `path`, replacing a file that is there.
    WriteFile { path: Vec<String>, content: Vec<u8> },
    /// Nothing: the entry's path cannot be confined to the target directory
    /// and is left out.
    Skip,
    /// Publish `event`: the installation is complete.
    Report { event: DownloadProgress },
}

/// The mathematical value of an [`InstallAction`].
pub enum ActionView {
    RemoveTarget,
    CreateTarget,
    CreateDirectory { path: Seq<Seq<char>> },
    WriteFile { path: Seq<Seq<char>>, content: Seq<u8> },
    Skip,
    Report { event: DownloadProgress },
}

impl View for InstallAction {
    type V = ActionView;

    open spec fn view(&self) -> ActionView {
        match self {
            InstallAction::RemoveTarget => ActionView::RemoveTarget,
            InstallAction::CreateTarget => ActionView::CreateTarget,
            InstallAction::CreateDirectory { path } => ActionView::CreateDirectory {
                path: path_view(path@),
            },
            InstallAction::WriteFile { path, content } => ActionView::WriteFile {
                path: path_view(path@),
                content: content@,
            },
            InstallAction::Skip => ActionView::Skip,
            InstallAction::Report { event } => ActionView::Report { event: *event },
        }
    }
}

/// Where an installation stands.
#[derive(Clone, Copy, Debug, PartialEq, Eq, Structural)]
pub enum Stage {
    /// The target directory exists and has to be removed.
    Remove,
    /// The target directory has to be created.
    Create,
    /// Entries are being unpacked.
    Unpack,
    /// Nothing is left to do.
    Done,
}

/// The mathematical value of an [`Installer`].
pub struct InstallerView {
    pub stage: Stage,
    /// What opening the archive yielded.
    pub archive: Result<Seq<EntryView>, ErrorView>,
    /// The index of the next entry to unpack.
    pub next: nat,
}

/// What one step yields: an action, a failure that ends the installation,
/// or nothing because the installation has ended.
pub enum StepView {
    Action(ActionView),
    Failure(ErrorView),
    Finished,
}

/// The value of a step's result.
pub open spec fn step_view(r: Result<Option<InstallAction>, InstallError>) -> StepView {
    match r {
        Ok(Some(action)) => StepView::Action(action@),
        Ok(None) => StepView::Finished,
        Err(error) => StepView::Failure(error@),
    }
}

/// What unpacking one entry asks for.
///
/// An entry that the reader cannot present fails the installation. An entry
/// whose path cannot be confined to the target directory is skipped. An
/// entry whose name ends in `/` is a directory to create. Any other entry is
/// a file to write with the entry's whole content; content that cannot be
/// read fails the installation.
pub open spec fn entry_step(entry: EntryView) -> StepView {
    match entry.header {
        Err(complaint) => StepView::Failure(archive_failure(complaint)),
        Ok(header) => match header.confined() {
            None => StepView::Action(ActionView::Skip),
            Some(confined) => match confined.kind {
                EntryKind::Directory => StepView::Action(
                    ActionView::CreateDirectory { path: confined.path },
                ),
                EntryKind::File => match entry.content {
                    Ok(content) => StepView::Action(
                        ActionView::WriteFile { path: confined.path, content },
                    ),
                    Err(complaint) => StepView::Failure(archive_failure(complaint)),
                },
            },
        },
    }
}

/// What the next step of an installation yields.
pub open spec fn next_step(state: InstallerView) -> StepView {
    match state.stage {
        Stage::Remove => StepView::Action(ActionView::RemoveTarget),
        Stage::Create => StepView::Action(ActionView::CreateTarget),
        Stage::Unpack => match state.archive {
            Err(error) => StepView::Failure(error),
            Ok(entries) => if state.next < entries.len() {
                entry_step(entries[state.next as int])
            } else {
                StepView::Action(ActionView::Report { event: DownloadProgress::spec_installed() })
            },
        },
        Stage::Done => StepView::Finished,
    }
}

/// Where an installation stands after its next step.
pub open spec fn next_state(state: InstallerView) -> InstallerView {
    match state.stage {
        Stage::Remove => InstallerView { stage: Stage::Create, ..state },
        Stage::Create => InstallerView { stage: Stage::Unpack, ..state },
        Stage::Unpack => if next_step(state) is Failure || !(state.archive is Ok && state.next
            < state.archive->Ok_0.len()) {
            InstallerView { stage: Stage::Done, ..state }
        } else {
            InstallerView { next: state.next + 1, ..state }
        },
        Stage::Done => state,
    }
}

/// Where an installation begins, given what opening the archive yielded.
pub open spec fn initial_state(
    archive: Result<Seq<EntryView>, ErrorView>,
    target_exists: bool,
) -> InstallerView {
    InstallerView {
        stage: if target_exists {
            Stage::Remove
        } else {
            Stage::Create
        },
        archive,
        next: 0,
    }
}

/// The target directory as the actions see it: whether it exists, the
/// directories below it and the files below it with their content, each by
/// its path relative to the target directory.
pub struct TargetView {
    pub exists: bool,
    pub directories: Set<Seq<Seq<char>>>,
    pub files: Map<Seq<Seq<char>>, Seq<u8>>,
}

impl TargetView {
    /// A target directory that does not exist has nothing below it.
    pub open spec fn wf(self) -> bool {
        !self.exists ==> self.directories == Set::<Seq<Seq<char>>>::empty() && self.files
            == Map::<Seq<Seq<char>>, Seq<u8>>::empty()
    }

    /// A target directory that exists and is empty.
    pub open spec fn fresh() -> TargetView {
        TargetView { exists: true, directories: Set::empty(), files: Map::empty() }
    }
}

/// The directories on the way to `path`: its leading parts, from the first
/// component alone up to all but the last.
pub open spec fn parents(path: Seq<Seq<char>>) -> Set<Seq<Seq<char>>> {
    Set::new(|p: Seq<Seq<char>>| 0 < p.len() < path.len() && p == path.subrange(0, p.len() as int))
}

/// The target directory after `action` has been carried out without
/// failure.
pub open spec fn apply(action: ActionView, target: TargetView) -> TargetView {
    match action {
        ActionView::RemoveTarget => TargetView {
            exists: false,
            directories: Set::empty(),
            files: Map::empty(),
        },
        ActionView::CreateTarget => TargetView { exists: true, ..target },
        ActionView::CreateDirectory { path } => TargetView {
            directories: target.directories.union(parents(path)).insert(path),
            ..target
        },
        ActionView::WriteFile { path, content } => TargetView {
            directories: target.directories.union(parents(path)),
            files: target.files.insert(path, content),
            ..target
        },
        ActionView::Skip => target,
        ActionView::Report { event } => target,
    }
}

/// The target directory after the next step: after its action, if it
/// yields one, and unchanged otherwise.
pub open spec fn after_step(state: InstallerView, target: TargetView) -> TargetView {
    match next_step(state) {
        StepView::Action(action) => apply(action, target),
        _ => target,
    }
}

/// An upper bound on the number of steps an installation has left.
pub open spec fn steps_left(state: InstallerView) -> nat {
    let entries: nat = match state.archive {
        Ok(entries) => if state.next <= entries.len() {
            (entries.len() - state.next) as nat
        } else {
            0
        },
        Err(_) => 0,
    };
    match state.stage {
        Stage::Remove => entries + 3,
        Stage::Create => entries + 2,
        Stage::Unpack => entries + 1,
        Stage::Done => 0,
    }
}

/// The target directory at the end of an installation that is in `state`
/// and finds the target directory as `target`, every action carried out
/// without failure.
pub open spec fn installed(state: InstallerView, target: TargetView) -> TargetView
    decreases steps_left(state),
{
    if state.stage == Stage::Done {
        target
    } else {
        installed(next_state(state), after_step(state, target))
    }
}

/// The state in which unpacking begins.
pub open spec fn unpacking(archive: Result<Seq<EntryView>, ErrorView>) -> InstallerView {
    InstallerView { stage: Stage::Unpack, archive, next: 0 }
}

/// Whatever the target directory held before, an installation leaves it as
/// unpacking the archive into a fresh, empty directory leaves it: nothing
/// of the old content remains.
pub proof fn old_content_is_gone(archive: Result<Seq<EntryView>, ErrorView>, target: TargetView)
    requires
        target.wf(),
    ensures
        installed(initial_state(archive, target.exists), target) == installed(
            unpacking(archive),
            TargetView::fresh(),
        ),
{
    let start = initial_state(archive, target.exists);
    let create = InstallerView { stage: Stage::Create, ..start };
    if target.exists {
        assert(next_state(start) == create);
        assert(installed(start, target) == installed(create, after_step(start, target)));
    }
    let emptied = if target.exists {
        after_step(start, target)
    } else {
        target
    };
    assert(next_state(create) == unpacking(archive));
    assert(after_step(create, emptied) == TargetView::fresh());
    assert(installed(create, emptied) == installed(unpacking(archive), TargetView::fresh()));
}

/// An entry whose name is rooted, or for which the reader gave no path
/// that stays inside, changes nothing; and every path that an entry's action
/// names is the path the reader gave for that entry, whose name is then not
/// rooted.
pub proof fn only_confined_paths_are_used(entry: EntryView, target: TargetView)
    ensures
        entry.header is Ok && (entry.header->Ok_0.safe_path is None
            || entry.header->Ok_0.is_rooted()) ==> entry_step(entry) == StepView::Action(
            ActionView::Skip,
        ),
        entry_step(entry) is Action && !(entry_step(entry)->Action_0 is Skip) ==> entry.header is Ok
            && !entry.header->Ok_0.is_rooted(),
        match entry_step(entry) {
            StepView::Action(ActionView::CreateDirectory { path }) => entry.header is Ok
                && entry.header->Ok_0.safe_path == Some(path),
            StepView::Action(ActionView::WriteFile { path, content }) => entry.header is Ok
                && entry.header->Ok_0.safe_path == Some(path) && entry.content == Ok::<
                Seq<u8>,
                Seq<char>,
            >(content),
            StepView::Action(ActionView::Skip) => apply(ActionView::Skip, target) == target,
            StepView::Action(_) => false,
            StepView::Failure(error) => error.kind == ErrorKind::ArchiveFormat,
            StepView::Finished => false,
        },
{
}

/// The error for a directory or file operation that failed.
pub open spec fn filesystem_failure(detail: Seq<char>) -> ErrorView {
    ErrorView { kind: ErrorKind::Filesystem, message: detail }
}

/// An installation in progress.
pub struct Installer {
    stage: Stage,
    archive: Result<Archive, InstallError>,
    next: usize,
}

impl View for Installer {
    type V = InstallerView;

    closed spec fn view(&self) -> InstallerView {
        InstallerView {
            stage: self.stage,
            archive: match self.archive {
                Ok(archive) => Ok(archive@),
                Err(error) => Err(error@),
            },
            next: self.next as nat,
        }
    }
}

impl Installer {
    /// An installer never points past the end of its archive.
    pub closed spec fn wf(&self) -> bool {
        self.archive is Ok ==> self.next <= self.archive->Ok_0@.len()
    }

    /// Begins the installation of the archive held in `archive_bytes` into
    /// a target directory that exists or not, as `target_exists` says.
    ///
    /// The archive is opened at once, but bytes that are no archive are
    /// reported only after the target directory has been replaced by an
    /// empty one.
    pub fn new(archive_bytes: Vec<u8>, target_exists: bool) -> (installer: Installer)
        ensures
            installer.wf(),
            installer@ == initial_state(opened(archive_bytes@), target_exists),
    {
        let stage = if target_exists {
            Stage::Remove
        } else {
            Stage::Create
        };
        Installer { stage, archive: Archive::open(archive_bytes), next: 0 }
    }

    /// The next thing to do, `None` once the installation has ended, or the
    /// failure that ends it.
    pub fn next_action(&mut self) -> (r: Result<Option<InstallAction>, InstallError>)
        requires
            old(self).wf(),
        ensures
            final(self).wf(),
            step_view(r) == next_step(old(self)@),
            final(self)@ == next_state(old(self)@),
    {
        match self.stage {
            Stage::Remove => {
                self.stage = Stage::Create;
                Ok(Some(InstallAction::RemoveTarget))
            },
            Stage::Create => {
                self.stage = Stage::Unpack;
                Ok(Some(InstallAction::CreateTarget))
            },
            Stage::Unpack => {
                let index = self.next;
                let r = match &mut self.archive {
                    Err(error) => Err(InstallError { kind: error.kind, message: error.message.clone() }),
                    Ok(archive) => unpack(archive, index),
                };
                let advance = match &r {
                    Ok(Some(InstallAction::Report { .. })) => false,
                    Ok(Some(_)) => true,
                    _ => false,
                };
                if advance {
                    assert(step_view(r) is Action && !(step_view(r)->Action_0 is Report));
                    assert(self.archive is Ok && index < self.archive->Ok_0@.len());
                    self.next = index + 1;
                } else {
                    self.stage = Stage::Done;
                }
                r
            },
            Stage::Done => Ok(None),
        }
    }

    /// Abandons an installation because the caller could not carry out an
    /// action. The result is the filesystem error that carries `detail`.
    pub fn fail(self, detail: &str) -> (e: InstallError)
        ensures
            e@ == filesystem_failure(detail@),
    {
        InstallError::new(ErrorKind::Filesystem, detail)
    }
}

/// What is to be done for entry `index` of `archive`; past the last entry,
/// the report that the installation is complete.
pub fn unpack(archive: &mut Archive, index: usize) -> (r: Result<Option<InstallAction>, InstallError>)
    ensures
        final(archive)@ == old(archive)@,
        old(archive)@.len() <= usize::MAX,
        index < old(archive)@.len() ==> step_view(r) == entry_step(old(archive)@[index as int]),
        index >= old(archive)@.len() ==> step_view(r) == StepView::Action(
            ActionView::Report { event: DownloadProgress::spec_installed() },
        ),
{
    if index >= archive.len() {
        return Ok(Some(InstallAction::Report { event: DownloadProgress::installed() }));
    }
    let header = match archive.header(index) {
        Ok(header) => header,
        Err(error) => {
            return Err(error);
        },
    };
    match header.confined() {
        None => Ok(Some(InstallAction::Skip)),
        Some(entry) => match entry.kind {
            EntryKind::Directory => Ok(Some(InstallAction::CreateDirectory { path: entry.path })),
            EntryKind::File => match archive.content(index) {
                Ok(content) => Ok(Some(InstallAction::WriteFile { path: entry.path, content })),
                Err(error) => Err(error),
            },
        },
    }
}

} // verus!
