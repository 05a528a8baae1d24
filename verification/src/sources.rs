use vstd::prelude::*;

use crate::resolve::FsEntry;

verus! {

/// A path joined from a directory and an entry name, separated by a
/// single forward slash.
pub open spec fn path_join(dir: Seq<char>, name: Seq<char>) -> Seq<char> {
    dir + "/"@ + name
}

/// Joins a directory path and an entry name.
pub fn join_path(dir: &str, name: &str) -> (r: String)
    ensures
        r@ == path_join(dir@, name@),
{
    let mut r = String::from_str(dir);
    r.append("/");
    r.append(name);
    r
}

/// The names of the regular-file entries of a listing, in listing
/// order; entries that are not regular files contribute nothing.
pub open spec fn source_file_names(entries: Seq<FsEntry>) -> Seq<Seq<char>>
    decreases entries.len(),
{
    if entries.len() == 0 {
        Seq::empty()
    } else {
        source_file_names(entries.drop_last()) + if entries.last().is_file {
            seq![entries.last().name@]
        } else {
            Seq::empty()
        }
    }
}

/// The paths of the source files in a directory: each regular-file
/// entry name joined onto the directory path, in listing order.
pub open spec fn source_paths(dir: Seq<char>, entries: Seq<FsEntry>) -> Seq<Seq<char>> {
    source_file_names(entries).map_values(|n: Seq<char>| path_join(dir, n))
}

/// The character sequences of a vector of strings.
pub open spec fn views_of_strings(v: Seq<String>) -> Seq<Seq<char>> {
    v.map_values(|s: String| s@)
}

/// Collects the compilable sources of a source directory from its
/// listing: only the direct regular-file entries count, so
/// subdirectories, and everything inside them, are left out. An empty
/// listing yields an empty collection.
pub fn get_source_files_in_dir(dir: &str, entries: &Vec<FsEntry>) -> (r: Vec<String>)
    ensures
        views_of_strings(r@) == source_paths(dir@, entries@),
{
    let mut r: Vec<String> = Vec::new();
    let mut i: usize = 0;
    while i < entries.len()
        invariant
            i <= entries@.len(),
            views_of_strings(r@) == source_paths(dir@, entries@.take(i as int)),
        decreases entries@.len() - i,
    {
        let e = &entries[i];
        let ghost prev = entries@.take(i as int);
        if e.is_file {
            let p = join_path(dir, e.name.as_str());
            let ghost r0 = r@;
            r.push(p);
            proof {
                let taken = entries@.take(i + 1int);
                assert(taken.drop_last() =~= prev);
                assert(taken.last() == entries@[i as int]);
                assert(source_file_names(taken) =~= source_file_names(prev).push(e.name@));
                assert(views_of_strings(r@) =~= views_of_strings(r0).push(p@));
                assert(source_paths(dir@, taken) =~= source_paths(dir@, prev).push(
                    path_join(dir@, e.name@),
                ));
            }
        } else {
            proof {
                let taken = entries@.take(i + 1int);
                assert(taken.drop_last() =~= prev);
                assert(taken.last() == entries@[i as int]);
                assert(source_file_names(taken) =~= source_file_names(prev));
                assert(source_paths(dir@, taken) =~= source_paths(dir@, prev));
            }
        }
        i += 1;
    }
    proof {
        assert(entries@.take(entries@.len() as int) =~= entries@);
    }
    r
}

} // verus!
