use vstd::prelude::*;
use vstd::string::StringExecFns;

verus! {

/// Operating systems on which the language server is published.
#[derive(Clone, Copy, Debug, PartialEq, Eq, Structural)]
pub enum Os {
    Mac,
    Linux,
    Windows,
}

/// CPU architectures for which the language server is published.
#[derive(Clone, Copy, Debug, PartialEq, Eq, Structural)]
pub enum Architecture {
    Aarch64,
    X86,
    X8664,
}

/// Archive formats in which release assets are packed.
#[derive(Clone, Copy, Debug, PartialEq, Eq, Structural)]
pub enum ArchiveFormat {
    GzipTar,
    Zip,
}

/// Name prefix shared by every release asset.
pub open spec fn spec_asset_prefix() -> Seq<char> {
    seq!['s', 'o', 'u', 'r', 'c', 'e', 'p', 'a', 'w', 'n', '-', 's', 't', 'u', 'd', 'i', 'o', '-']
}

/// The token naming an operating system inside an asset name.
pub open spec fn spec_os_token(os: Os) -> Seq<char> {
    match os {
        Os::Mac => seq!['d', 'a', 'r', 'w', 'i', 'n'],
        Os::Linux => seq!['l', 'i', 'n', 'u', 'x'],
        Os::Windows => seq!['w', 'i', 'n', 'd', 'o', 'w', 's'],
    }
}

/// The token naming a CPU architecture inside an asset name.
pub open spec fn spec_arch_token(arch: Architecture) -> Seq<char> {
    match arch {
        Architecture::Aarch64 => seq!['a', 'r', 'm', '6', '4'],
        Architecture::X86 => seq!['i', '6', '8', '6'],
        Architecture::X8664 => seq!['a', 'm', 'd', '6', '4'],
    }
}

/// The archive format used on a given operating system.
pub open spec fn spec_archive_format(os: Os) -> ArchiveFormat {
    match os {
        Os::Mac | Os::Linux => ArchiveFormat::GzipTar,
        Os::Windows => ArchiveFormat::Zip,
    }
}

/// The file extension of an archive format.
pub open spec fn spec_extension(format: ArchiveFormat) -> Seq<char> {
    match format {
        ArchiveFormat::GzipTar => seq!['t', 'a', 'r', '.', 'g', 'z'],
        ArchiveFormat::Zip => seq!['z', 'i', 'p'],
    }
}

/// `sourcepawn-studio-{version}-{os}-{arch}.{extension}`.
pub open spec fn spec_asset_name(version: Seq<char>, os: Os, arch: Architecture) -> Seq<char> {
    spec_asset_prefix() + version + seq!['-'] + spec_os_token(os) + seq!['-'] + spec_arch_token(
        arch,
    ) + seq!['.'] + spec_extension(spec_archive_format(os))
}

pub fn archive_format(os: Os) -> (r: ArchiveFormat)
    ensures
        r == spec_archive_format(os),
{
    match os {
        Os::Mac | Os::Linux => ArchiveFormat::GzipTar,
        Os::Windows => ArchiveFormat::Zip,
    }
}

pub fn os_token(os: Os) -> (r: String)
    ensures
        r@ == spec_os_token(os),
{
    match os {
        Os::Mac => {
            let r = String::from_str("darwin");
            proof { reveal_strlit("darwin"); }
            r
        },
        Os::Linux => {
            let r = String::from_str("linux");
            proof { reveal_strlit("linux"); }
            r
        },
        Os::Windows => {
            let r = String::from_str("windows");
            proof { reveal_strlit("windows"); }
            r
        },
    }
}

pub fn arch_token(arch: Architecture) -> (r: String)
    ensures
        r@ == spec_arch_token(arch),
{
    match arch {
        Architecture::Aarch64 => {
            let r = String::from_str("arm64");
            proof { reveal_strlit("arm64"); }
            r
        },
        Architecture::X86 => {
            let r = String::from_str("i686");
            proof { reveal_strlit("i686"); }
            r
        },
        Architecture::X8664 => {
            let r = String::from_str("amd64");
            proof { reveal_strlit("amd64"); }
            r
        },
    }
}

pub fn extension(format: ArchiveFormat) -> (r: String)
    ensures
        r@ == spec_extension(format),
{
    match format {
        ArchiveFormat::GzipTar => {
            let r = String::from_str("tar.gz");
            proof { reveal_strlit("tar.gz"); }
            r
        },
        ArchiveFormat::Zip => {
            let r = String::from_str("zip");
            proof { reveal_strlit("zip"); }
            r
        },
    }
}

/// The name of the release asset built for `os` and `arch` at `version`.
pub fn asset_name(version: &str, os: Os, arch: Architecture) -> (r: String)
    ensures
        r@ == spec_asset_name(version@, os, arch),
{
    let mut r = String::from_str("sourcepawn-studio-");
    proof { reveal_strlit("sourcepawn-studio-"); }
    r.append(version);
    r.append("-");
    proof { reveal_strlit("-"); }
    let o = os_token(os);
    r.append(o.as_str());
    r.append("-");
    let a = arch_token(arch);
    r.append(a.as_str());
    r.append(".");
    proof { reveal_strlit("."); }
    let e = extension(archive_format(os));
    r.append(e.as_str());
    r
}

} // verus!
