use vstd::prelude::*;
use vstd::string::StringExecFns;

verus! {

/// Why a resolution failed. Each variant carries the underlying message, or for
/// `AssetNotFound` the asset name that was looked for.
#[derive(Debug)]
pub enum ResolveError {
    ReleaseQuery(String),
    AssetNotFound(String),
    CreateDirectory(String),
    Download(String),
    MakeExecutable(String),
    ListDirectory(String),
    DirectoryEntry(String),
}

impl ResolveError {
    /// The text shown to the user for this error.
    pub open spec fn spec_message(&self) -> Seq<char> {
        match self {
            ResolveError::ReleaseQuery(e) => e@,
            ResolveError::AssetNotFound(name) => seq![
                'n', 'o', ' ', 'a', 's', 's', 'e', 't', ' ', 'f', 'o', 'u', 'n', 'd', ' ',
                'm', 'a', 't', 'c', 'h', 'i', 'n', 'g', ' ', '"'] + name@ + seq!['"'],
            ResolveError::CreateDirectory(e) => seq![
                'f', 'a', 'i', 'l', 'e', 'd', ' ', 't', 'o', ' ', 'c', 'r', 'e', 'a', 't', 'e',
                ' ', 'd', 'i', 'r', 'e', 'c', 't', 'o', 'r', 'y', ':', ' '] + e@,
            ResolveError::Download(e) => seq![
                'f', 'a', 'i', 'l', 'e', 'd', ' ', 't', 'o', ' ', 'd', 'o', 'w', 'n', 'l', 'o',
                'a', 'd', ' ', 'f', 'i', 'l', 'e', ':', ' '] + e@,
            ResolveError::MakeExecutable(e) => e@,
            ResolveError::ListDirectory(e) => seq![
                'f', 'a', 'i', 'l', 'e', 'd', ' ', 't', 'o', ' ', 'l', 'i', 's', 't', ' ', 'w',
                'o', 'r', 'k', 'i', 'n', 'g', ' ', 'd', 'i', 'r', 'e', 'c', 't', 'o', 'r', 'y',
                ' '] + e@,
            ResolveError::DirectoryEntry(e) => seq![
                'f', 'a', 'i', 'l', 'e', 'd', ' ', 't', 'o', ' ', 'l', 'o', 'a', 'd', ' ', 'd',
                'i', 'r', 'e', 'c', 't', 'o', 'r', 'y', ' ', 'e', 'n', 't', 'r', 'y', ' '] + e@,
        }
    }

    pub fn message(&self) -> (r: String)
        ensures
            r@ == self.spec_message(),
    {
        match self {
            ResolveError::ReleaseQuery(e) => e.clone(),
            ResolveError::AssetNotFound(name) => {
                let mut r = String::from_str("no asset found matching \"");
                proof { reveal_strlit("no asset found matching \""); }
                r.append(name.as_str());
                r.append("\"");
                proof { reveal_strlit("\""); }
                r
            },
            ResolveError::CreateDirectory(e) => {
                let mut r = String::from_str("failed to create directory: ");
                proof { reveal_strlit("failed to create directory: "); }
                r.append(e.as_str());
                r
            },
            ResolveError::Download(e) => {
                let mut r = String::from_str("failed to download file: ");
                proof { reveal_strlit("failed to download file: "); }
                r.append(e.as_str());
                r
            },
            ResolveError::MakeExecutable(e) => e.clone(),
            ResolveError::ListDirectory(e) => {
                let mut r = String::from_str("failed to list working directory ");
                proof { reveal_strlit("failed to list working directory "); }
                r.append(e.as_str());
                r
            },
            ResolveError::DirectoryEntry(e) => {
                let mut r = String::from_str("failed to load directory entry ");
                proof { reveal_strlit("failed to load directory entry "); }
                r.append(e.as_str());
                r
            },
        }
    }
}

} // verus!
