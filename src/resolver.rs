use vstd::prelude::*;
use vstd::string::StringExecFns;
use crate::error::ResolveError;
use crate::platform::{archive_format, spec_archive_format, spec_asset_name, asset_name, ArchiveFormat, Architecture, Os};
use crate::release::{
    binary_path, find_asset, has_no_match, is_first_match, spec_binary_path, spec_stale,
    spec_version_dir, stale_entries, texts, version_dir, Release,
};

verus! {

/// An explicit binary override read from the user's configuration.
#[derive(Debug)]
pub struct BinarySettings {
    pub path: Option<String>,
    pub arguments: Option<Vec<String>>,
}

/// The executable to launch and the arguments configured for it.
#[derive(Debug)]
pub struct ResolvedBinary {
    pub path: String,
    pub args: Option<Vec<String>>,
}

/// What the host should launch: a command, its arguments and extra environment.
#[derive(Debug)]
pub struct LaunchCommand {
    pub command: String,
    pub args: Vec<String>,
    pub env: Vec<(String, String)>,
}

/// Where a resolution stands: which answer it is waiting for.
#[derive(Clone, Copy, Debug, PartialEq, Eq, Structural)]
pub enum Phase {
    Idle,
    Searching,
    CheckingCache,
    CheckingForUpdate,
    CreatingDirectory,
    CheckingBinary,
    Downloading,
    MarkingExecutable,
    Listing,
    Pruning,
}

/// Work that the host performs for a resolution, answered by an `Event`.
#[derive(Debug)]
pub enum Action {
    /// Look the executable of this name up on the workspace's search path.
    FindExecutable(String),
    /// Tell whether this path names a regular file.
    CheckIsFile(String),
    /// Report "checking for update", then fetch the latest non-prerelease release
    /// with assets of this repository, and the current platform.
    CheckForUpdate(String),
    /// Create this directory and any missing parents.
    CreateDirectory(String),
    /// Report "downloading", then download the archive at `url` and unpack it into
    /// `directory`.
    Download { url: String, directory: String, format: ArchiveFormat },
    /// Mark this file executable.
    MakeExecutable(String),
    /// List the names of the entries of the working directory.
    ListWorkingDirectory,
    /// Remove each of these entries recursively, ignoring failures.
    Remove(Vec<String>),
    /// The resolution is over.
    Finish(Result<ResolvedBinary, ResolveError>),
}

/// The host's answer to an `Action`.
#[derive(Debug)]
pub enum Event {
    Found(Option<String>),
    IsFile(bool),
    ReleaseFetched(Result<Release, String>, Os, Architecture),
    DirectoryCreated(Result<(), String>),
    Downloaded(Result<(), String>),
    MadeExecutable(Result<(), String>),
    Listed(Vec<String>),
    ListFailed(String),
    EntryFailed(String),
    Removed,
}

/// The name of the language server's executable.
pub open spec fn spec_server_name() -> Seq<char> {
    seq!['s', 'o', 'u', 'r', 'c', 'e', 'p', 'a', 'w', 'n', '-', 's', 't', 'u', 'd', 'i', 'o']
}

/// The repository whose releases publish the language server.
pub open spec fn spec_repository() -> Seq<char> {
    seq!['S', 'a', 'r', 'r', 'u', 's', '1', '/'] + spec_server_name()
}

/// The explicit path in the configuration, if any.
pub open spec fn explicit_path(settings: Option<BinarySettings>) -> Option<String> {
    match settings {
        Some(b) => b.path,
        None => None,
    }
}

/// The arguments in the configuration, if any.
pub open spec fn configured_args(settings: Option<BinarySettings>) -> Option<Vec<String>> {
    match settings {
        Some(b) => b.arguments,
        None => None,
    }
}

/// The extension's state: the process-wide cached path and the resolution in progress.
pub struct SourcepawnExtension {
    pub cached_binary_path: Option<String>,
    pub phase: Phase,
    pub args: Option<Vec<String>>,
    pub version_dir: String,
    pub binary_path: String,
    pub download_url: String,
    pub format: ArchiveFormat,
}

/// The host may hand `event` to a resolution in `phase`.
pub open spec fn spec_accepts(phase: Phase, event: Event) -> bool {
    match (phase, event) {
        (Phase::Searching, Event::Found(_)) => true,
        (Phase::CheckingCache, Event::IsFile(_)) => true,
        (Phase::CheckingForUpdate, Event::ReleaseFetched(_, _, _)) => true,
        (Phase::CreatingDirectory, Event::DirectoryCreated(_)) => true,
        (Phase::CheckingBinary, Event::IsFile(_)) => true,
        (Phase::Downloading, Event::Downloaded(_)) => true,
        (Phase::MarkingExecutable, Event::MadeExecutable(_)) => true,
        (Phase::Listing, Event::Listed(_)) => true,
        (Phase::Listing, Event::ListFailed(_)) => true,
        (Phase::Listing, Event::EntryFailed(_)) => true,
        (Phase::Pruning, Event::Removed) => true,
        _ => false,
    }
}

/// Nothing but the phase changed.
pub open spec fn moved_to(pre: SourcepawnExtension, post: SourcepawnExtension, phase: Phase) -> bool {
    &&& post.phase == phase
    &&& post.cached_binary_path == pre.cached_binary_path
    &&& post.args == pre.args
    &&& post.version_dir == pre.version_dir
    &&& post.binary_path == pre.binary_path
    &&& post.download_url == pre.download_url
    &&& post.format == pre.format
}

/// The resolution ended with `path` and the configured arguments; the cache holds `cached`.
pub open spec fn finished_with(
    pre: SourcepawnExtension,
    post: SourcepawnExtension,
    r: Action,
    path: String,
    cached: Option<String>,
) -> bool {
    &&& r == Action::Finish(Ok(ResolvedBinary { path: path, args: pre.args }))
    &&& post.phase == Phase::Idle
    &&& post.cached_binary_path == cached
}

/// The resolution failed with `e`; the cache is untouched.
pub open spec fn failed_with(
    pre: SourcepawnExtension,
    post: SourcepawnExtension,
    r: Action,
    e: ResolveError,
) -> bool {
    &&& r == Action::Finish(Err(e))
    &&& moved_to(pre, post, Phase::Idle)
}

/// The release index is asked for the latest release.
pub open spec fn asks_for_update(pre: SourcepawnExtension, post: SourcepawnExtension, r: Action) -> bool {
    &&& moved_to(pre, post, Phase::CheckingForUpdate)
    &&& match r {
        Action::CheckForUpdate(repo) => repo@ == spec_repository(),
        _ => false,
    }
}

/// What a release answer leads to, when one was fetched.
pub open spec fn on_release(
    pre: SourcepawnExtension,
    post: SourcepawnExtension,
    r: Action,
    rel: Release,
    os: Os,
    arch: Architecture,
) -> bool {
    let name = spec_asset_name(rel.version@, os, arch);
    if has_no_match(rel.assets@, name) {
        &&& moved_to(pre, post, Phase::Idle)
        &&& match r {
            Action::Finish(Err(ResolveError::AssetNotFound(n))) => n@ == name,
            _ => false,
        }
    } else {
        &&& exists|i: int|
            is_first_match(rel.assets@, name, i) && post.download_url
                == #[trigger] rel.assets@[i].download_url
        &&& post.phase == Phase::CreatingDirectory
        &&& post.cached_binary_path == pre.cached_binary_path
        &&& post.args == pre.args
        &&& post.version_dir@ == spec_version_dir(rel.version@)
        &&& post.binary_path@ == spec_binary_path(post.version_dir@)
        &&& post.format == spec_archive_format(os)
        &&& r == Action::CreateDirectory(post.version_dir)
    }
}

/// The transition that `advance` makes on `event`, from `pre` to `post`, asking `r`.
pub open spec fn advances(pre: SourcepawnExtension, event: Event, post: SourcepawnExtension, r: Action) -> bool {
    match (pre.phase, event) {
        (Phase::Searching, Event::Found(Some(p))) => finished_with(pre, post, r, p, pre.cached_binary_path),
        (Phase::Searching, Event::Found(None)) => match pre.cached_binary_path {
            Some(c) => r == Action::CheckIsFile(c) && moved_to(pre, post, Phase::CheckingCache),
            None => asks_for_update(pre, post, r),
        },
        (Phase::CheckingCache, Event::IsFile(true)) => pre.cached_binary_path is Some
            && finished_with(pre, post, r, pre.cached_binary_path.unwrap(), pre.cached_binary_path),
        (Phase::CheckingCache, Event::IsFile(false)) => asks_for_update(pre, post, r),
        (Phase::CheckingForUpdate, Event::ReleaseFetched(Err(e), _, _)) => failed_with(pre, post, r, ResolveError::ReleaseQuery(e)),
        (Phase::CheckingForUpdate, Event::ReleaseFetched(Ok(rel), os, arch)) => on_release(pre, post, r, rel, os, arch),
        (Phase::CreatingDirectory, Event::DirectoryCreated(Err(e))) => failed_with(pre, post, r, ResolveError::CreateDirectory(e)),
        (Phase::CreatingDirectory, Event::DirectoryCreated(Ok(()))) => r == Action::CheckIsFile(pre.binary_path)
            && moved_to(pre, post, Phase::CheckingBinary),
        (Phase::CheckingBinary, Event::IsFile(true)) => finished_with(pre, post, r, pre.binary_path, Some(pre.binary_path)),
        (Phase::CheckingBinary, Event::IsFile(false)) => r == (Action::Download {
            url: pre.download_url,
            directory: pre.version_dir,
            format: pre.format,
        }) && moved_to(pre, post, Phase::Downloading),
        (Phase::Downloading, Event::Downloaded(Err(e))) => failed_with(pre, post, r, ResolveError::Download(e)),
        (Phase::Downloading, Event::Downloaded(Ok(()))) => r == Action::MakeExecutable(pre.binary_path)
            && moved_to(pre, post, Phase::MarkingExecutable),
        (Phase::MarkingExecutable, Event::MadeExecutable(Err(e))) => failed_with(pre, post, r, ResolveError::MakeExecutable(e)),
        (Phase::MarkingExecutable, Event::MadeExecutable(Ok(()))) => r == Action::ListWorkingDirectory
            && moved_to(pre, post, Phase::Listing),
        (Phase::Listing, Event::ListFailed(e)) => failed_with(pre, post, r, ResolveError::ListDirectory(e)),
        (Phase::Listing, Event::EntryFailed(e)) => failed_with(pre, post, r, ResolveError::DirectoryEntry(e)),
        (Phase::Listing, Event::Listed(names)) => moved_to(pre, post, Phase::Pruning) && match r {
            Action::Remove(stale) => texts(stale@) == spec_stale(texts(names@), pre.version_dir@),
            _ => false,
        },
        (Phase::Pruning, Event::Removed) => finished_with(pre, post, r, pre.binary_path, Some(pre.binary_path)),
        _ => false,
    }
}

/// The transition that `begin` makes with `settings`, from `pre` to `post`, asking `r`.
pub open spec fn begins(
    pre: SourcepawnExtension,
    settings: Option<BinarySettings>,
    post: SourcepawnExtension,
    r: Action,
) -> bool {
    &&& post.cached_binary_path == pre.cached_binary_path
    &&& match explicit_path(settings) {
        Some(p) => r == Action::Finish(Ok(ResolvedBinary { path: p, args: configured_args(settings) }))
            && post.phase == Phase::Idle,
        None => post.phase == Phase::Searching && post.args == configured_args(settings) && match r {
            Action::FindExecutable(n) => n@ == spec_server_name(),
            _ => false,
        },
    }
}

/// The arguments to launch with: the configured ones, or none.
pub open spec fn launch_args(args: Option<Vec<String>>) -> Seq<String> {
    match args {
        Some(a) => a@,
        None => Seq::empty(),
    }
}

/// The command that launches `binary`, with no extra environment.
pub fn language_server_command(binary: ResolvedBinary) -> (r: LaunchCommand)
    ensures
        r.command == binary.path,
        r.args@ == launch_args(binary.args),
        r.env@.len() == 0,
{
    let args = match binary.args {
        Some(a) => a,
        None => Vec::new(),
    };
    LaunchCommand { command: binary.path, args, env: Vec::new() }
}

impl SourcepawnExtension {
    /// The state's invariant: a cache check is only pending when a path is cached.
    pub open spec fn wf(&self) -> bool {
        self.phase == Phase::CheckingCache ==> self.cached_binary_path is Some
    }

    pub fn new() -> (r: Self)
        ensures
            r.wf(),
            r.cached_binary_path is None,
            r.phase == Phase::Idle,
    {
        SourcepawnExtension {
            cached_binary_path: None,
            phase: Phase::Idle,
            args: None,
            version_dir: String::new(),
            binary_path: String::new(),
            download_url: String::new(),
            format: ArchiveFormat::GzipTar,
        }
    }

    /// Whether `event` answers the action that this resolution is waiting on.
    pub fn accepts(&self, event: &Event) -> (r: bool)
        ensures
            r == spec_accepts(self.phase, *event),
    {
        match (self.phase, event) {
            (Phase::Searching, Event::Found(_)) => true,
            (Phase::CheckingCache, Event::IsFile(_)) => true,
            (Phase::CheckingForUpdate, Event::ReleaseFetched(_, _, _)) => true,
            (Phase::CreatingDirectory, Event::DirectoryCreated(_)) => true,
            (Phase::CheckingBinary, Event::IsFile(_)) => true,
            (Phase::Downloading, Event::Downloaded(_)) => true,
            (Phase::MarkingExecutable, Event::MadeExecutable(_)) => true,
            (Phase::Listing, Event::Listed(_)) => true,
            (Phase::Listing, Event::ListFailed(_)) => true,
            (Phase::Listing, Event::EntryFailed(_)) => true,
            (Phase::Pruning, Event::Removed) => true,
            _ => false,
        }
    }

    /// Starts a resolution with the configuration read for this workspace. An
    /// explicit path ends it at once; otherwise the search path is consulted.
    pub fn begin(&mut self, settings: Option<BinarySettings>) -> (r: Action)
        ensures
            final(self).wf(),
            begins(*old(self), settings, *final(self), r),
    {
        let (path, args) = match settings {
            Some(b) => (b.path, b.arguments),
            None => (None, None),
        };
        match path {
            Some(p) => {
                self.phase = Phase::Idle;
                Action::Finish(Ok(ResolvedBinary { path: p, args }))
            },
            None => {
                self.phase = Phase::Searching;
                self.args = args;
                let name = String::from_str("sourcepawn-studio");
                proof {
                    reveal_strlit("sourcepawn-studio");
                    assert(name@ =~= spec_server_name());
                }
                Action::FindExecutable(name)
            },
        }
    }

    /// Ends the resolution with `path` and the configured arguments.
    fn finish(&mut self, path: String) -> (r: Action)
        ensures
            r == Action::Finish(Ok(ResolvedBinary { path: path, args: old(self).args })),
            final(self).phase == Phase::Idle,
            final(self).cached_binary_path == old(self).cached_binary_path,
    {
        self.phase = Phase::Idle;
        let args = self.args.take();
        Action::Finish(Ok(ResolvedBinary { path, args }))
    }

    /// Ends the resolution with `e`.
    fn fail(&mut self, e: ResolveError) -> (r: Action)
        ensures
            failed_with(*old(self), *final(self), r, e),
    {
        self.phase = Phase::Idle;
        Action::Finish(Err(e))
    }

    /// Asks the release index for the latest release.
    fn check_for_update(&mut self) -> (r: Action)
        ensures
            asks_for_update(*old(self), *final(self), r),
    {
        self.phase = Phase::CheckingForUpdate;
        let repo = String::from_str("Sarrus1/sourcepawn-studio");
        proof {
            reveal_strlit("Sarrus1/sourcepawn-studio");
            assert(repo@ =~= spec_repository());
        }
        Action::CheckForUpdate(repo)
    }

    /// Picks the asset for this platform out of a fetched release.
    fn take_release(&mut self, rel: Release, os: Os, arch: Architecture) -> (r: Action)
        ensures
            on_release(*old(self), *final(self), r, rel, os, arch),
    {
        let name = asset_name(rel.version.as_str(), os, arch);
        match find_asset(&rel.assets, &name) {
            None => {
                self.phase = Phase::Idle;
                Action::Finish(Err(ResolveError::AssetNotFound(name)))
            },
            Some(i) => {
                let dir = version_dir(rel.version.as_str());
                let bin = binary_path(dir.as_str());
                self.download_url = rel.assets[i].download_url.clone();
                self.format = archive_format(os);
                self.version_dir = dir;
                self.binary_path = bin;
                self.phase = Phase::CreatingDirectory;
                assert(is_first_match(rel.assets@, spec_asset_name(rel.version@, os, arch), i as int));
                Action::CreateDirectory(self.version_dir.clone())
            },
        }
    }

    /// Takes the host's answer to the last action and says what to do next.
    pub fn advance(&mut self, event: Event) -> (r: Action)
        requires
            old(self).wf(),
            spec_accepts(old(self).phase, event),
        ensures
            final(self).wf(),
            advances(*old(self), event, *final(self), r),
    {
        match event {
            Event::Found(Some(p)) => self.finish(p),
            Event::Found(None) => match &self.cached_binary_path {
                Some(c) => {
                    let c = c.clone();
                    self.phase = Phase::CheckingCache;
                    Action::CheckIsFile(c)
                },
                None => self.check_for_update(),
            },
            Event::IsFile(is_file) => {
                if self.phase == Phase::CheckingCache {
                    if is_file {
                        let c = self.cached_binary_path.clone().unwrap();
                        self.finish(c)
                    } else {
                        self.check_for_update()
                    }
                } else if is_file {
                    self.cached_binary_path = Some(self.binary_path.clone());
                    let b = self.binary_path.clone();
                    self.finish(b)
                } else {
                    self.phase = Phase::Downloading;
                    Action::Download {
                        url: self.download_url.clone(),
                        directory: self.version_dir.clone(),
                        format: self.format,
                    }
                }
            },
            Event::ReleaseFetched(Err(e), _, _) => self.fail(ResolveError::ReleaseQuery(e)),
            Event::ReleaseFetched(Ok(rel), os, arch) => self.take_release(rel, os, arch),
            Event::DirectoryCreated(Err(e)) => self.fail(ResolveError::CreateDirectory(e)),
            Event::DirectoryCreated(Ok(())) => {
                self.phase = Phase::CheckingBinary;
                Action::CheckIsFile(self.binary_path.clone())
            },
            Event::Downloaded(Err(e)) => self.fail(ResolveError::Download(e)),
            Event::Downloaded(Ok(())) => {
                self.phase = Phase::MarkingExecutable;
                Action::MakeExecutable(self.binary_path.clone())
            },
            Event::MadeExecutable(Err(e)) => self.fail(ResolveError::MakeExecutable(e)),
            Event::MadeExecutable(Ok(())) => {
                self.phase = Phase::Listing;
                Action::ListWorkingDirectory
            },
            Event::ListFailed(e) => self.fail(ResolveError::ListDirectory(e)),
            Event::EntryFailed(e) => self.fail(ResolveError::DirectoryEntry(e)),
            Event::Listed(names) => {
                let stale = stale_entries(&names, &self.version_dir);
                self.phase = Phase::Pruning;
                Action::Remove(stale)
            },
            Event::Removed => {
                self.cached_binary_path = Some(self.binary_path.clone());
                let b = self.binary_path.clone();
                self.finish(b)
            },
        }
    }
}

} // verus!
