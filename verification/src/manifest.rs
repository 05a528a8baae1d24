use vstd::prelude::*;

use crate::Error;

verus! {

/// Package metadata declared in the manifest: the project's name, used
/// as the artifact's base name and as the directory name when
/// scaffolding a new project.
#[derive(Debug, PartialEq, Eq, Clone)]
pub struct Package {
    pub name: String,
}

/// The manifest: a `[package]` table with a `name` entry.
#[derive(Debug, PartialEq, Eq, Clone)]
pub struct Manifest {
    pub package: Package,
}

/// The characters a package name may hold inside the manifest text: a
/// double quote would end the quoted value early and a newline would
/// break the line structure, so both are excluded. The empty name is
/// allowed; it yields an artifact with an empty base name.
pub open spec fn valid_name(name: Seq<char>) -> bool {
    forall|i: int| 0 <= i < name.len() ==> name[i] != '"' && name[i] != '\n'
}

/// The text that precedes the package name in the manifest.
pub open spec fn manifest_prefix() -> Seq<char> {
    "[package]\nname = \""@
}

/// The text that follows the package name in the manifest.
pub open spec fn manifest_suffix() -> Seq<char> {
    "\"\n"@
}

/// The manifest text for a package name: a `[package]` header line
/// followed by a `name` entry holding the name in double quotes.
pub open spec fn manifest_text(name: Seq<char>) -> Seq<char> {
    manifest_prefix() + name + manifest_suffix()
}

/// What parsing a manifest text yields: the package name, when the text
/// is the manifest text of exactly one valid name, and nothing
/// otherwise.
pub open spec fn manifest_name_of(text: Seq<char>) -> Option<Seq<char>> {
    let p = manifest_prefix().len() as int;
    let s = manifest_suffix().len() as int;
    let n = text.len() as int;
    if n >= p + s && text.subrange(0, p) == manifest_prefix() && text.subrange(n - s, n)
        == manifest_suffix() && valid_name(text.subrange(p, n - s)) {
        Some(text.subrange(p, n - s))
    } else {
        None
    }
}

/// Whether two string slices hold the same characters.
pub fn str_eq(a: &str, b: &str) -> (r: bool)
    ensures
        r == (a@ == b@),
{
    let sa = String::from_str(a);
    let sb = String::from_str(b);
    sa == sb
}

/// Parses a manifest text. Accepts exactly the text that
/// `render_manifest` writes: the `[package]` header and a quoted `name`
/// entry whose value holds neither a double quote nor a newline.
pub fn parse_manifest(text: &str) -> (r: Result<Manifest, Error>)
    ensures
        match r {
            Ok(m) => manifest_name_of(text@) == Some(m.package.name@),
            Err(e) => manifest_name_of(text@) is None && e == Error::ManifestParse,
        },
{
    proof {
        reveal_strlit("[package]\nname = \"");
        reveal_strlit("\"\n");
    }
    let n = text.unicode_len();
    if n < 20 {
        return Err(Error::ManifestParse);
    }
    let prefix = text.substring_char(0, 18);
    if !str_eq(prefix, "[package]\nname = \"") {
        return Err(Error::ManifestParse);
    }
    let suffix = text.substring_char(n - 2, n);
    if !str_eq(suffix, "\"\n") {
        return Err(Error::ManifestParse);
    }
    let name = text.substring_char(18, n - 2);
    let name_len = n - 20;
    let mut i: usize = 0;
    while i < name_len
        invariant
            manifest_prefix().len() == 18,
            manifest_suffix().len() == 2,
            n == text@.len(),
            20 <= n,
            name@ == text@.subrange(18, n as int - 2),
            name_len == name@.len(),
            i <= name_len,
            forall|j: int| 0 <= j < i ==> name@[j] != '"' && name@[j] != '\n',
        decreases name_len - i,
    {
        let c = name.get_char(i);
        if c == '"' || c == '\n' {
            return Err(Error::ManifestParse);
        }
        i += 1;
    }
    Ok(Manifest { package: Package { name: name.to_owned() } })
}

/// Renders the manifest text of a manifest.
pub fn render_manifest(m: &Manifest) -> (r: String)
    ensures
        r@ == manifest_text(m.package.name@),
{
    let mut r = String::from_str("[package]\nname = \"");
    r.append(m.package.name.as_str());
    r.append("\"\n");
    r
}

/// Round trip: parsing the rendered manifest text of a valid name
/// yields that name back.
pub proof fn lemma_manifest_round_trip(name: Seq<char>)
    requires
        valid_name(name),
    ensures
        manifest_name_of(manifest_text(name)) == Some(name),
{
    reveal_strlit("[package]\nname = \"");
    reveal_strlit("\"\n");
    let text = manifest_text(name);
    let p = manifest_prefix().len() as int;
    let s = manifest_suffix().len() as int;
    let n = text.len() as int;
    assert(text.subrange(0, p) =~= manifest_prefix());
    assert(text.subrange(n - s, n) =~= manifest_suffix());
    assert(text.subrange(p, n - s) =~= name);
}

/// A parsed name is faithful to its text: whenever parsing yields a
/// name, the name is valid and rendering it gives the text back, so a
/// manifest text determines its name and the name its text.
pub proof fn lemma_parse_faithful(text: Seq<char>, name: Seq<char>)
    requires
        manifest_name_of(text) == Some(name),
    ensures
        valid_name(name),
        text == manifest_text(name),
{
    reveal_strlit("[package]\nname = \"");
    reveal_strlit("\"\n");
    assert(text =~= manifest_text(name));
}

} // verus!
