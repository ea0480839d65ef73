use vstd::prelude::*;
use crate::error::ResolveError;
use crate::platform::{spec_asset_name, Architecture, Os};
use crate::release::{has_no_match, lemma_stale_excludes, texts, Release};
use crate::resolver::{
    advances, begins, configured_args, explicit_path, Action, BinarySettings, Event, Phase,
    ResolvedBinary, SourcepawnExtension,
};

verus! {

/// An explicit path in the configuration is returned as it is, with the configured
/// arguments, before anything is asked of the host.
pub proof fn lemma_explicit_path_wins(
    pre: SourcepawnExtension,
    settings: Option<BinarySettings>,
    post: SourcepawnExtension,
    r: Action,
)
    requires
        explicit_path(settings) is Some,
        begins(pre, settings, post, r),
    ensures
        r == Action::Finish(
            Ok(ResolvedBinary { path: explicit_path(settings).unwrap(), args: configured_args(settings) }),
        ),
{
}

/// Without an explicit path, an executable found on the search path is returned
/// as soon as it is found: neither the cache nor the release index is consulted.
pub proof fn lemma_search_path_wins(
    s0: SourcepawnExtension,
    settings: Option<BinarySettings>,
    s1: SourcepawnExtension,
    r1: Action,
    p: String,
    s2: SourcepawnExtension,
    r2: Action,
)
    requires
        explicit_path(settings) is None,
        begins(s0, settings, s1, r1),
        advances(s1, Event::Found(Some(p)), s2, r2),
    ensures
        r1 is FindExecutable,
        r2 == Action::Finish(Ok(ResolvedBinary { path: p, args: configured_args(settings) })),
        s2.cached_binary_path == s0.cached_binary_path,
{
}

/// A cached path that still names a regular file is returned after one file check,
/// without asking the release index.
pub proof fn lemma_cache_reuse(
    s0: SourcepawnExtension,
    settings: Option<BinarySettings>,
    s1: SourcepawnExtension,
    r1: Action,
    c: String,
    s2: SourcepawnExtension,
    r2: Action,
    s3: SourcepawnExtension,
    r3: Action,
)
    requires
        explicit_path(settings) is None,
        s0.cached_binary_path == Some(c),
        begins(s0, settings, s1, r1),
        advances(s1, Event::Found(None), s2, r2),
        advances(s2, Event::IsFile(true), s3, r3),
    ensures
        r2 == Action::CheckIsFile(c),
        r3 == Action::Finish(Ok(ResolvedBinary { path: c, args: configured_args(settings) })),
        s3.cached_binary_path == Some(c),
{
}

/// After a successful acquisition, whether it found the binary already unpacked or
/// downloaded it, the next resolution that finds the file in place returns the same
/// path with no download and no query of the release index.
pub proof fn lemma_acquisition_idempotent(
    s: SourcepawnExtension,
    first: Event,
    s1: SourcepawnExtension,
    r1: Action,
    settings: Option<BinarySettings>,
    s2: SourcepawnExtension,
    r2: Action,
    s3: SourcepawnExtension,
    r3: Action,
    s4: SourcepawnExtension,
    r4: Action,
)
    requires
        (s.phase == Phase::CheckingBinary && first == Event::IsFile(true)) || (s.phase
            == Phase::Pruning && first == Event::Removed),
        advances(s, first, s1, r1),
        explicit_path(settings) is None,
        begins(s1, settings, s2, r2),
        advances(s2, Event::Found(None), s3, r3),
        advances(s3, Event::IsFile(true), s4, r4),
    ensures
        r1 == Action::Finish(Ok(ResolvedBinary { path: s.binary_path, args: s.args })),
        r3 == Action::CheckIsFile(s.binary_path),
        r4 == Action::Finish(
            Ok(ResolvedBinary { path: s.binary_path, args: configured_args(settings) }),
        ),
{
}

/// The cleanup after a download removes every other entry of the working directory
/// and never the directory of the version just installed.
pub proof fn lemma_single_version_left(
    s: SourcepawnExtension,
    names: Vec<String>,
    s1: SourcepawnExtension,
    r: Action,
)
    requires
        s.phase == Phase::Listing,
        advances(s, Event::Listed(names), s1, r),
    ensures
        match r {
            Action::Remove(stale) => {
                &&& forall|n: Seq<char>|
                    texts(names@).contains(n) && n != s.version_dir@ ==> #[trigger] texts(
                        stale@,
                    ).contains(n)
                &&& !texts(stale@).contains(s.version_dir@)
                &&& forall|n: Seq<char>| #[trigger]
                    texts(stale@).contains(n) ==> texts(names@).contains(n)
            },
            _ => false,
        },
{
    lemma_stale_excludes(texts(names@), s.version_dir@);
    if let Action::Remove(stale) = r {
        let st = texts(stale@);
        assert forall|n: Seq<char>| st.contains(n) implies texts(names@).contains(n) && n
            != s.version_dir@ by {
            let k = choose|k: int| 0 <= k < st.len() && st[k] == n;
            assert(st[k] != s.version_dir@);
        }
    }
}

/// A release without an asset for this platform ends the acquisition with an error
/// whose message holds the asset name that was looked for.
pub proof fn lemma_missing_asset_named(
    s: SourcepawnExtension,
    rel: Release,
    os: Os,
    arch: Architecture,
    s1: SourcepawnExtension,
    r: Action,
)
    requires
        s.phase == Phase::CheckingForUpdate,
        has_no_match(rel.assets@, spec_asset_name(rel.version@, os, arch)),
        advances(s, Event::ReleaseFetched(Ok(rel), os, arch), s1, r),
    ensures
        match r {
            Action::Finish(Err(e)) => exists|k: int|
                0 <= k && k + spec_asset_name(rel.version@, os, arch).len()
                    <= e.spec_message().len() && #[trigger] e.spec_message().subrange(
                    k,
                    k + spec_asset_name(rel.version@, os, arch).len(),
                ) == spec_asset_name(rel.version@, os, arch),
            _ => false,
        },
        s1.cached_binary_path == s.cached_binary_path,
{
    if let Action::Finish(Err(e)) = r {
        if let ResolveError::AssetNotFound(n) = e {
            let m = e.spec_message();
            assert(m.subrange(25, 25 + n@.len() as int) =~= n@);
        }
    }
}

/// A failure to list the working directory after an install removes nothing and
/// keeps the installed path: a later acquisition of the same version that finds the
/// file returns that path without downloading.
pub proof fn lemma_listing_failure_keeps_install(
    s: SourcepawnExtension,
    e: String,
    s1: SourcepawnExtension,
    r1: Action,
    t: SourcepawnExtension,
    t1: SourcepawnExtension,
    r2: Action,
)
    requires
        s.phase == Phase::Listing,
        advances(s, Event::ListFailed(e), s1, r1),
        t.phase == Phase::CheckingBinary,
        t.binary_path@ == s.binary_path@,
        advances(t, Event::IsFile(true), t1, r2),
    ensures
        r1 == Action::Finish(Err(ResolveError::ListDirectory(e))),
        s1.binary_path == s.binary_path,
        s1.cached_binary_path == s.cached_binary_path,
        match r2 {
            Action::Finish(Ok(b)) => b.path@ == s.binary_path@,
            _ => false,
        },
        t1.cached_binary_path == Some(t.binary_path),
{
}

} // verus!
