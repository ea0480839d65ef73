use sourcepawn::error::ResolveError;
use sourcepawn::platform::{ArchiveFormat, Architecture, Os};
use sourcepawn::release::{Asset, Release};
use sourcepawn::resolver::{
    language_server_command, Action, BinarySettings, Event, Phase, ResolvedBinary,
    SourcepawnExtension,
};

const BINARY: &str = "sourcepawnstudio-1.2.3/sourcepawn-studio";

fn release_123() -> Release {
    Release {
        version: "1.2.3".to_string(),
        assets: vec![
            Asset {
                name: "sourcepawn-studio-1.2.3-windows-amd64.zip".to_string(),
                download_url: "https://example.invalid/win.zip".to_string(),
            },
            Asset {
                name: "sourcepawn-studio-1.2.3-linux-amd64.tar.gz".to_string(),
                download_url: "https://example.invalid/linux.tar.gz".to_string(),
            },
        ],
    }
}

fn step(ext: &mut SourcepawnExtension, event: Event) -> Action {
    assert!(ext.accepts(&event));
    ext.advance(event)
}

fn expect_ok(action: Action) -> ResolvedBinary {
    match action {
        Action::Finish(Ok(b)) => b,
        other => panic!("unexpected action {:?}", other),
    }
}

fn expect_err(action: Action) -> ResolveError {
    match action {
        Action::Finish(Err(e)) => e,
        other => panic!("unexpected action {:?}", other),
    }
}

/// Runs a resolution with no override, not on the search path, up to the release query.
fn up_to_release(ext: &mut SourcepawnExtension) {
    assert!(matches!(ext.begin(None), Action::FindExecutable(ref n) if n == "sourcepawn-studio"));
    match step(ext, Event::Found(None)) {
        Action::CheckForUpdate(repo) => assert_eq!(repo, "Sarrus1/sourcepawn-studio"),
        Action::CheckIsFile(_) => {
            match step(ext, Event::IsFile(false)) {
                Action::CheckForUpdate(repo) => assert_eq!(repo, "Sarrus1/sourcepawn-studio"),
                other => panic!("unexpected action {:?}", other),
            }
        },
        other => panic!("unexpected action {:?}", other),
    }
}

/// Runs a full download of release 1.2.3 on Linux x86-64, listing `entries`.
fn full_install(ext: &mut SourcepawnExtension, entries: Vec<String>) -> Action {
    up_to_release(ext);
    let a = step(ext, Event::ReleaseFetched(Ok(release_123()), Os::Linux, Architecture::X8664));
    assert!(matches!(a, Action::CreateDirectory(ref d) if d == "sourcepawnstudio-1.2.3"));
    let a = step(ext, Event::DirectoryCreated(Ok(())));
    assert!(matches!(a, Action::CheckIsFile(ref p) if p == BINARY));
    match step(ext, Event::IsFile(false)) {
        Action::Download { url, directory, format } => {
            assert_eq!(url, "https://example.invalid/linux.tar.gz");
            assert_eq!(directory, "sourcepawnstudio-1.2.3");
            assert_eq!(format, ArchiveFormat::GzipTar);
        },
        other => panic!("unexpected action {:?}", other),
    }
    let a = step(ext, Event::Downloaded(Ok(())));
    assert!(matches!(a, Action::MakeExecutable(ref p) if p == BINARY));
    let a = step(ext, Event::MadeExecutable(Ok(())));
    assert!(matches!(a, Action::ListWorkingDirectory));
    match step(ext, Event::Listed(entries)) {
        Action::Remove(stale) => {
            assert!(!stale.iter().any(|s| s == "sourcepawnstudio-1.2.3"));
        },
        other => panic!("unexpected action {:?}", other),
    }
    step(ext, Event::Removed)
}

#[test]
fn explicit_path_returned_unchanged() {
    let mut ext = SourcepawnExtension::new();
    let settings = BinarySettings {
        path: Some("/opt/custom/sp".to_string()),
        arguments: Some(vec!["--verbose".to_string()]),
    };
    let b = expect_ok(ext.begin(Some(settings)));
    assert_eq!(b.path, "/opt/custom/sp");
    assert_eq!(b.args, Some(vec!["--verbose".to_string()]));
    assert_eq!(ext.phase, Phase::Idle);
}

#[test]
fn search_path_returned_without_cache_or_network() {
    let mut ext = SourcepawnExtension::new();
    ext.cached_binary_path = Some("cached/sourcepawn-studio".to_string());
    let settings = BinarySettings { path: None, arguments: Some(vec!["-x".to_string()]) };
    assert!(matches!(ext.begin(Some(settings)), Action::FindExecutable(_)));
    let b = expect_ok(step(&mut ext, Event::Found(Some("/usr/bin/sourcepawn-studio".to_string()))));
    assert_eq!(b.path, "/usr/bin/sourcepawn-studio");
    assert_eq!(b.args, Some(vec!["-x".to_string()]));
    assert_eq!(ext.cached_binary_path, Some("cached/sourcepawn-studio".to_string()));
}

#[test]
fn cached_path_reused_when_file_exists() {
    let mut ext = SourcepawnExtension::new();
    ext.cached_binary_path = Some(BINARY.to_string());
    ext.begin(None);
    let a = step(&mut ext, Event::Found(None));
    assert!(matches!(a, Action::CheckIsFile(ref p) if p == BINARY));
    let b = expect_ok(step(&mut ext, Event::IsFile(true)));
    assert_eq!(b.path, BINARY);
    assert_eq!(b.args, None);
}

#[test]
fn stale_cache_falls_through_to_release_query() {
    let mut ext = SourcepawnExtension::new();
    ext.cached_binary_path = Some("old/sourcepawn-studio".to_string());
    ext.begin(None);
    step(&mut ext, Event::Found(None));
    assert!(matches!(step(&mut ext, Event::IsFile(false)), Action::CheckForUpdate(_)));
}

#[test]
fn full_install_prunes_and_caches() {
    let mut ext = SourcepawnExtension::new();
    let entries = vec![
        "sourcepawnstudio-1.0.0".to_string(),
        "sourcepawnstudio-1.2.3".to_string(),
    ];
    let b = expect_ok(full_install(&mut ext, entries));
    assert_eq!(b.path, BINARY);
    assert_eq!(ext.cached_binary_path, Some(BINARY.to_string()));
}

#[test]
fn prune_removes_every_other_entry() {
    let mut ext = SourcepawnExtension::new();
    up_to_release(&mut ext);
    step(&mut ext, Event::ReleaseFetched(Ok(release_123()), Os::Linux, Architecture::X8664));
    step(&mut ext, Event::DirectoryCreated(Ok(())));
    step(&mut ext, Event::IsFile(false));
    step(&mut ext, Event::Downloaded(Ok(())));
    step(&mut ext, Event::MadeExecutable(Ok(())));
    let entries = vec![
        "sourcepawnstudio-0.9.0".to_string(),
        "sourcepawnstudio-1.2.3".to_string(),
        "sourcepawnstudio-1.1.0".to_string(),
    ];
    match step(&mut ext, Event::Listed(entries)) {
        Action::Remove(stale) => assert_eq!(
            stale,
            vec!["sourcepawnstudio-0.9.0".to_string(), "sourcepawnstudio-1.1.0".to_string()]
        ),
        other => panic!("unexpected action {:?}", other),
    }
}

#[test]
fn second_acquisition_skips_download_and_network() {
    let mut ext = SourcepawnExtension::new();
    let first = expect_ok(full_install(&mut ext, vec!["sourcepawnstudio-1.2.3".to_string()]));
    ext.begin(None);
    let a = step(&mut ext, Event::Found(None));
    assert!(matches!(a, Action::CheckIsFile(ref p) if p == BINARY));
    let second = expect_ok(step(&mut ext, Event::IsFile(true)));
    assert_eq!(first.path, second.path);
}

#[test]
fn populated_version_directory_skips_download() {
    let mut ext = SourcepawnExtension::new();
    up_to_release(&mut ext);
    step(&mut ext, Event::ReleaseFetched(Ok(release_123()), Os::Linux, Architecture::X8664));
    step(&mut ext, Event::DirectoryCreated(Ok(())));
    let b = expect_ok(step(&mut ext, Event::IsFile(true)));
    assert_eq!(b.path, BINARY);
    assert_eq!(ext.cached_binary_path, Some(BINARY.to_string()));
}

#[test]
fn missing_asset_error_names_file() {
    let mut ext = SourcepawnExtension::new();
    up_to_release(&mut ext);
    let e = expect_err(step(
        &mut ext,
        Event::ReleaseFetched(Ok(release_123()), Os::Mac, Architecture::Aarch64),
    ));
    assert!(e.message().contains("sourcepawn-studio-1.2.3-darwin-arm64.tar.gz"));
    assert!(matches!(e, ResolveError::AssetNotFound(_)));
    assert_eq!(ext.cached_binary_path, None);
}

#[test]
fn release_query_failure_propagates() {
    let mut ext = SourcepawnExtension::new();
    up_to_release(&mut ext);
    let e = expect_err(step(
        &mut ext,
        Event::ReleaseFetched(Err("no release".to_string()), Os::Linux, Architecture::X8664),
    ));
    assert_eq!(e.message(), "no release");
}

#[test]
fn failures_along_the_install() {
    let mut ext = SourcepawnExtension::new();
    up_to_release(&mut ext);
    step(&mut ext, Event::ReleaseFetched(Ok(release_123()), Os::Linux, Architecture::X8664));
    let e = expect_err(step(&mut ext, Event::DirectoryCreated(Err("denied".to_string()))));
    assert!(matches!(e, ResolveError::CreateDirectory(_)));

    up_to_release(&mut ext);
    step(&mut ext, Event::ReleaseFetched(Ok(release_123()), Os::Linux, Architecture::X8664));
    step(&mut ext, Event::DirectoryCreated(Ok(())));
    step(&mut ext, Event::IsFile(false));
    let e = expect_err(step(&mut ext, Event::Downloaded(Err("timeout".to_string()))));
    assert_eq!(e.message(), "failed to download file: timeout");

    up_to_release(&mut ext);
    step(&mut ext, Event::ReleaseFetched(Ok(release_123()), Os::Linux, Architecture::X8664));
    step(&mut ext, Event::DirectoryCreated(Ok(())));
    step(&mut ext, Event::IsFile(false));
    step(&mut ext, Event::Downloaded(Ok(())));
    let e = expect_err(step(&mut ext, Event::MadeExecutable(Err("chmod".to_string()))));
    assert!(matches!(e, ResolveError::MakeExecutable(_)));
    assert_eq!(ext.cached_binary_path, None);
}

#[test]
fn listing_failure_keeps_installed_binary() {
    let mut ext = SourcepawnExtension::new();
    up_to_release(&mut ext);
    step(&mut ext, Event::ReleaseFetched(Ok(release_123()), Os::Linux, Architecture::X8664));
    step(&mut ext, Event::DirectoryCreated(Ok(())));
    step(&mut ext, Event::IsFile(false));
    step(&mut ext, Event::Downloaded(Ok(())));
    step(&mut ext, Event::MadeExecutable(Ok(())));
    let e = expect_err(step(&mut ext, Event::ListFailed("gone".to_string())));
    assert_eq!(e.message(), "failed to list working directory gone");
    assert_eq!(ext.binary_path, BINARY);

    up_to_release(&mut ext);
    step(&mut ext, Event::ReleaseFetched(Ok(release_123()), Os::Linux, Architecture::X8664));
    step(&mut ext, Event::DirectoryCreated(Ok(())));
    let b = expect_ok(step(&mut ext, Event::IsFile(true)));
    assert_eq!(b.path, BINARY);
}

#[test]
fn entry_failure_is_fatal() {
    let mut ext = SourcepawnExtension::new();
    up_to_release(&mut ext);
    step(&mut ext, Event::ReleaseFetched(Ok(release_123()), Os::Linux, Architecture::X8664));
    step(&mut ext, Event::DirectoryCreated(Ok(())));
    step(&mut ext, Event::IsFile(false));
    step(&mut ext, Event::Downloaded(Ok(())));
    step(&mut ext, Event::MadeExecutable(Ok(())));
    let e = expect_err(step(&mut ext, Event::EntryFailed("bad".to_string())));
    assert_eq!(e.message(), "failed to load directory entry bad");
}

#[test]
fn events_out_of_order_are_refused() {
    let mut ext = SourcepawnExtension::new();
    assert!(!ext.accepts(&Event::Removed));
    ext.begin(None);
    assert!(!ext.accepts(&Event::IsFile(true)));
    assert!(ext.accepts(&Event::Found(None)));
}

#[test]
fn launch_command_defaults_to_no_arguments() {
    let c = language_server_command(ResolvedBinary { path: BINARY.to_string(), args: None });
    assert_eq!(c.command, BINARY);
    assert!(c.args.is_empty());
    assert!(c.env.is_empty());
    let c = language_server_command(ResolvedBinary {
        path: "sp".to_string(),
        args: Some(vec!["--a".to_string(), "--b".to_string()]),
    });
    assert_eq!(c.args, vec!["--a".to_string(), "--b".to_string()]);
}
