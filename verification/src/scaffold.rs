use vstd::prelude::*;

use crate::manifest::{
    lemma_manifest_round_trip, manifest_name_of, manifest_text, render_manifest, valid_name,
    Manifest, Package,
};
use crate::resolve::{dir_qualifies, lemma_closest_root_wins, project_root_index, FsEntry};
use crate::sources::{join_path, path_join};

verus! {

/// One file that scaffolding lays down: where, and with what contents.
#[derive(Debug, PartialEq, Eq, Clone)]
pub struct ScaffoldFile {
    pub path: String,
    pub contents: String,
}

/// Everything scaffolding creates under a base directory: the
/// directories first, then the files.
#[derive(Debug, PartialEq, Eq, Clone)]
pub struct ScaffoldPlan {
    pub dirs: Vec<String>,
    pub files: Vec<ScaffoldFile>,
}

/// The stub program a fresh project starts from.
pub open spec fn main_c_stub() -> Seq<char> {
    "int main(void) {\n    return 0;\n}\n"@
}

/// Lays out what scaffolding a project creates under `base`: the
/// `src/headers` directory chain, the manifest file with the given
/// package name, and a stub `src/main.c`. The name must fit the
/// manifest grammar; the empty name is allowed, as is scaffolding it.
pub fn scaffold_plan(base: &str, name: &String) -> (r: ScaffoldPlan)
    requires
        valid_name(name@),
    ensures
        r.dirs@.len() == 1,
        r.dirs@[0]@ == path_join(path_join(base@, "src"@), "headers"@),
        r.files@.len() == 2,
        r.files@[0].path@ == path_join(base@, "Ocean.toml"@),
        r.files@[0].contents@ == manifest_text(name@),
        manifest_name_of(r.files@[0].contents@) == Some(name@),
        r.files@[1].path@ == path_join(path_join(base@, "src"@), "main.c"@),
        r.files@[1].contents@ == main_c_stub(),
{
    proof {
        lemma_manifest_round_trip(name@);
    }
    let src_dir = join_path(base, "src");
    let headers_dir = join_path(src_dir.as_str(), "headers");
    let manifest = Manifest { package: Package { name: name.clone() } };
    let manifest_file = ScaffoldFile {
        path: join_path(base, "Ocean.toml"),
        contents: render_manifest(&manifest),
    };
    let main_file = ScaffoldFile {
        path: join_path(src_dir.as_str(), "main.c"),
        contents: String::from_str("int main(void) {\n    return 0;\n}\n"),
    };
    let mut dirs: Vec<String> = Vec::new();
    dirs.push(headers_dir);
    let mut files: Vec<ScaffoldFile> = Vec::new();
    files.push(manifest_file);
    files.push(main_file);
    ScaffoldPlan { dirs, files }
}

/// Round trip from scaffolding to resolution: a newly scaffolded
/// directory qualifies as a project root, so resolution started inside
/// it stops right there, and parsing the manifest that scaffolding
/// wrote yields exactly the name that was scaffolded.
pub proof fn lemma_scaffold_then_resolve(name: Seq<char>, chain: Seq<Seq<FsEntry>>)
    requires
        valid_name(name),
        chain.len() > 0,
        dir_qualifies(chain[0]),
    ensures
        project_root_index(chain) == Some(0int),
        manifest_name_of(manifest_text(name)) == Some(name),
{
    lemma_closest_root_wins(chain, 0);
    lemma_manifest_round_trip(name);
}

} // verus!
