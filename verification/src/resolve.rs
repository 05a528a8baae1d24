use vstd::prelude::*;

use crate::manifest::{manifest_name_of, parse_manifest, str_eq, Manifest};
use crate::Error;

verus! {

/// One direct entry of a directory listing: the entry's file name and
/// whether the entry is a regular file.
#[derive(Debug, PartialEq, Eq, Clone)]
pub struct FsEntry {
    pub name: String,
    pub is_file: bool,
}

/// The resolved configuration: the parsed manifest and the path of the
/// directory that holds the manifest file.
#[derive(Debug, PartialEq, Eq, Clone)]
pub struct Config {
    pub manifest: Manifest,
    pub root: String,
}

/// The file name that marks a directory as a project root.
pub open spec fn manifest_file_name() -> Seq<char> {
    "Ocean.toml"@
}

/// Whether an entry is the manifest file: a regular file named exactly
/// `Ocean.toml`.
pub open spec fn is_manifest_entry(e: FsEntry) -> bool {
    e.is_file && e.name@ == manifest_file_name()
}

/// Whether a directory qualifies as a project root: the manifest file
/// stands among its direct entries. The presence of other files says
/// nothing; only the manifest file itself qualifies a directory.
pub open spec fn dir_qualifies(entries: Seq<FsEntry>) -> bool {
    exists|i: int| 0 <= i < entries.len() && is_manifest_entry(entries[i])
}

/// The listings of a directory and its ancestors, nearest first:
/// `chain[0]` is the starting directory and `chain[i + 1]` is the
/// parent of `chain[i]`, up to the filesystem root.
pub open spec fn views_of_chain(chain: Seq<Vec<FsEntry>>) -> Seq<Seq<FsEntry>> {
    chain.map_values(|d: Vec<FsEntry>| d@)
}

/// Where the upward search stops in a chain of listings: at the first
/// (hence closest) qualifying directory, or nowhere when none
/// qualifies.
pub open spec fn project_root_index(chain: Seq<Seq<FsEntry>>) -> Option<int>
    decreases chain.len(),
{
    if chain.len() == 0 {
        None
    } else if dir_qualifies(chain[0]) {
        Some(0int)
    } else {
        match project_root_index(chain.drop_first()) {
            Some(i) => Some(i + 1),
            None => None,
        }
    }
}

/// The upward search finds a qualifying directory and nothing closer:
/// the index it yields qualifies, every strictly closer directory does
/// not, and it yields no index only when no directory qualifies.
pub proof fn lemma_root_index_characterization(chain: Seq<Seq<FsEntry>>)
    ensures
        match project_root_index(chain) {
            Some(i) => 0 <= i < chain.len() && dir_qualifies(chain[i]) && forall|j: int|
                0 <= j < i ==> !dir_qualifies(chain[j]),
            None => forall|j: int| 0 <= j < chain.len() ==> !dir_qualifies(chain[j]),
        },
    decreases chain.len(),
{
    if chain.len() > 0 && !dir_qualifies(chain[0]) {
        lemma_root_index_characterization(chain.drop_first());
        assert forall|j: int| 1 <= j < chain.len() implies chain.drop_first()[j - 1] == chain[j]
        by {}
    }
}

/// When no directory in the chain holds the manifest file, the search
/// yields no root at all.
pub proof fn lemma_no_manifest_no_root(chain: Seq<Seq<FsEntry>>)
    requires
        forall|j: int| 0 <= j < chain.len() ==> !dir_qualifies(chain[j]),
    ensures
        project_root_index(chain) is None,
    decreases chain.len(),
{
    if chain.len() > 0 {
        assert(!dir_qualifies(chain[0]));
        assert forall|j: int| 0 <= j < chain.drop_first().len() implies !dir_qualifies(
            chain.drop_first()[j],
        ) by {
            assert(chain.drop_first()[j] == chain[j + 1]);
        }
        lemma_no_manifest_no_root(chain.drop_first());
    }
}

/// Closest ancestor wins: a qualifying directory with no qualifying
/// directory strictly closer is exactly where the search stops.
pub proof fn lemma_closest_root_wins(chain: Seq<Seq<FsEntry>>, i: int)
    requires
        0 <= i < chain.len(),
        dir_qualifies(chain[i]),
        forall|j: int| 0 <= j < i ==> !dir_qualifies(chain[j]),
    ensures
        project_root_index(chain) == Some(i),
    decreases i,
{
    if i == 0 {
    } else {
        assert(!dir_qualifies(chain[0]));
        assert(chain.drop_first()[i - 1] == chain[i]);
        assert forall|j: int| 0 <= j < i - 1 implies !dir_qualifies(chain.drop_first()[j]) by {
            assert(chain.drop_first()[j] == chain[j + 1]);
        }
        lemma_closest_root_wins(chain.drop_first(), i - 1);
    }
}

/// Whether the manifest file stands among a directory's direct entries.
pub fn dir_contains_manifest_file(entries: &Vec<FsEntry>) -> (r: bool)
    ensures
        r == dir_qualifies(entries@),
{
    let mut i: usize = 0;
    while i < entries.len()
        invariant
            i <= entries@.len(),
            forall|j: int| 0 <= j < i ==> !is_manifest_entry(entries@[j]),
        decreases entries@.len() - i,
    {
        let e = &entries[i];
        if e.is_file && str_eq(e.name.as_str(), "Ocean.toml") {
            assert(is_manifest_entry(entries@[i as int]));
            return true;
        }
        i += 1;
    }
    false
}

/// Walks the chain of listings upward from the starting directory and
/// yields the depth of the closest qualifying directory, or nothing
/// when no directory in the chain qualifies.
pub fn find_project_root(chain: &Vec<Vec<FsEntry>>) -> (r: Option<usize>)
    ensures
        match r {
            Some(i) => project_root_index(views_of_chain(chain@)) == Some(i as int),
            None => project_root_index(views_of_chain(chain@)) is None,
        },
{
    let ghost ls = views_of_chain(chain@);
    let mut i: usize = 0;
    while i < chain.len()
        invariant
            ls == views_of_chain(chain@),
            i <= ls.len(),
            ls.len() == chain@.len(),
            forall|j: int| 0 <= j < i ==> !dir_qualifies(ls[j]),
        decreases ls.len() - i,
    {
        assert(ls[i as int] == chain@[i as int]@);
        if dir_contains_manifest_file(&chain[i]) {
            proof {
                lemma_closest_root_wins(ls, i as int);
            }
            return Some(i);
        }
        i += 1;
    }
    proof {
        lemma_no_manifest_no_root(ls);
    }
    None
}

/// The resolver's verdict on a chain of listings: the depth of the
/// project root, or, when no directory in the chain qualifies, the
/// not-inside-a-project error — a user-facing condition of its own,
/// not a filesystem failure.
pub fn resolve_root_outcome(chain: &Vec<Vec<FsEntry>>) -> (r: Result<usize, Error>)
    ensures
        match r {
            Ok(i) => project_root_index(views_of_chain(chain@)) == Some(i as int),
            Err(e) => project_root_index(views_of_chain(chain@)) is None && (e
                matches Error::Other(m) && m@ == "not inside a project"@),
        },
{
    match find_project_root(chain) {
        Some(i) => Ok(i),
        None => Err(Error::Other(String::from_str("not inside a project"))),
    }
}

/// Builds the configuration for a found root from the manifest text
/// read at that root: the parsed manifest together with the root path.
pub fn config_from_manifest_text(root: String, text: &str) -> (r: Result<Config, Error>)
    ensures
        match r {
            Ok(c) => manifest_name_of(text@) == Some(c.manifest.package.name@) && c.root@
                == root@,
            Err(e) => manifest_name_of(text@) is None && e == Error::ManifestParse,
        },
{
    match parse_manifest(text) {
        Ok(m) => Ok(Config { manifest: m, root }),
        Err(e) => Err(e),
    }
}

} // verus!
