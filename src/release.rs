use vstd::prelude::*;
use vstd::string::StringExecFns;

verus! {

/// A downloadable file attached to a release.
#[derive(Debug)]
pub struct Asset {
    pub name: String,
    pub download_url: String,
}

/// A published version of the language server with its assets.
#[derive(Debug)]
pub struct Release {
    pub version: String,
    pub assets: Vec<Asset>,
}

/// `i` is the position of the first asset in `assets` named exactly `name`.
pub open spec fn is_first_match(assets: Seq<Asset>, name: Seq<char>, i: int) -> bool {
    &&& 0 <= i < assets.len()
    &&& assets[i].name@ == name
    &&& forall|j: int| 0 <= j < i ==> #[trigger] assets[j].name@ != name
}

/// No asset in `assets` is named exactly `name`.
pub open spec fn has_no_match(assets: Seq<Asset>, name: Seq<char>) -> bool {
    forall|j: int| 0 <= j < assets.len() ==> #[trigger] assets[j].name@ != name
}

/// Finds the first asset whose name equals `name` exactly.
pub fn find_asset(assets: &Vec<Asset>, name: &String) -> (r: Option<usize>)
    ensures
        match r {
            Some(i) => is_first_match(assets@, name@, i as int),
            None => has_no_match(assets@, name@),
        },
{
    let mut i: usize = 0;
    while i < assets.len()
        invariant
            i <= assets@.len(),
            forall|j: int| 0 <= j < i ==> #[trigger] assets@[j].name@ != name@,
        decreases assets@.len() - i,
    {
        if assets[i].name == *name {
            return Some(i);
        }
        i = i + 1;
    }
    None
}

/// `sourcepawnstudio-{version}`: the directory that holds one installed version.
pub open spec fn spec_version_dir(version: Seq<char>) -> Seq<char> {
    seq!['s', 'o', 'u', 'r', 'c', 'e', 'p', 'a', 'w', 'n', 's', 't', 'u', 'd', 'i', 'o', '-']
        + version
}

/// `{dir}/sourcepawn-studio`: the executable inside a version directory.
pub open spec fn spec_binary_path(dir: Seq<char>) -> Seq<char> {
    dir + seq!['/', 's', 'o', 'u', 'r', 'c', 'e', 'p', 'a', 'w', 'n', '-', 's', 't', 'u', 'd', 'i', 'o']
}

pub fn version_dir(version: &str) -> (r: String)
    ensures
        r@ == spec_version_dir(version@),
{
    let mut r = String::from_str("sourcepawnstudio-");
    proof { reveal_strlit("sourcepawnstudio-"); }
    r.append(version);
    r
}

pub fn binary_path(dir: &str) -> (r: String)
    ensures
        r@ == spec_binary_path(dir@),
{
    let mut r = String::from_str(dir);
    r.append("/sourcepawn-studio");
    proof { reveal_strlit("/sourcepawn-studio"); }
    r
}

/// The text of each string in `v`, in order.
pub open spec fn texts(v: Seq<String>) -> Seq<Seq<char>> {
    v.map_values(|s: String| s@)
}

/// The entries of a directory listing that are not `keep`, in listing order.
pub open spec fn spec_stale(names: Seq<Seq<char>>, keep: Seq<char>) -> Seq<Seq<char>>
    decreases names.len(),
{
    if names.len() == 0 {
        seq![]
    } else {
        let rest = spec_stale(names.drop_last(), keep);
        if names.last() == keep {
            rest
        } else {
            rest.push(names.last())
        }
    }
}

/// Every name that `spec_stale` keeps differs from `keep`, and comes from `names`.
pub proof fn lemma_stale_excludes(names: Seq<Seq<char>>, keep: Seq<char>)
    ensures
        forall|i: int|
            0 <= i < spec_stale(names, keep).len() ==> #[trigger] spec_stale(names, keep)[i]
                != keep && names.contains(spec_stale(names, keep)[i]),
        forall|n: Seq<char>| names.contains(n) && n != keep ==> spec_stale(names, keep).contains(n),
    decreases names.len(),
{
    if names.len() > 0 {
        let init = names.drop_last();
        lemma_stale_excludes(init, keep);
        assert forall|n: Seq<char>| names.contains(n) implies init.contains(n) || n
            == names.last() by {
            let k = choose|k: int| 0 <= k < names.len() && names[k] == n;
            if k < names.len() - 1 {
                assert(init[k] == n);
            }
        }
        assert forall|n: Seq<char>| init.contains(n) implies names.contains(n) by {
            let k = choose|k: int| 0 <= k < init.len() && init[k] == n;
            assert(names[k] == n);
        }
        let rest = spec_stale(init, keep);
        if names.last() != keep {
            assert(rest.push(names.last())[rest.len() as int] == names.last());
            assert forall|n: Seq<char>| rest.contains(n) implies rest.push(names.last()).contains(n) by {
                let k = choose|k: int| 0 <= k < rest.len() && rest[k] == n;
                assert(rest.push(names.last())[k] == n);
            }
        }
    }
}

/// The names in `names` other than `keep`, in their original order.
pub fn stale_entries(names: &Vec<String>, keep: &String) -> (r: Vec<String>)
    ensures
        texts(r@) == spec_stale(texts(names@), keep@),
{
    let mut r: Vec<String> = Vec::new();
    let mut i: usize = 0;
    while i < names.len()
        invariant
            i <= names@.len(),
            texts(r@) == spec_stale(texts(names@.subrange(0, i as int)), keep@),
        decreases names@.len() - i,
    {
        let ghost prefix = names@.subrange(0, i as int);
        let ghost next = names@.subrange(0, i + 1);
        assert(texts(next).drop_last() =~= texts(prefix));
        assert(texts(next).last() == names@[i as int]@);
        if names[i] != *keep {
            r.push(names[i].clone());
            assert(texts(r@) =~= texts(r@.drop_last()).push(names@[i as int]@));
        }
        i = i + 1;
    }
    assert(names@.subrange(0, names@.len() as int) =~= names@);
    r
}

} // verus!
