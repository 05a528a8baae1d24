use ocean::manifest::{parse_manifest, render_manifest, Manifest, Package};
use ocean::Error;

fn manifest(name: &str) -> Manifest {
    Manifest { package: Package { name: name.to_string() } }
}

#[test]
fn render_writes_canonical_text() {
    let text = render_manifest(&manifest("foo"));
    assert_eq!(text, "[package]\nname = \"foo\"\n");
}

#[test]
fn parse_reads_canonical_text() {
    let m = parse_manifest("[package]\nname = \"foo\"\n").unwrap();
    assert_eq!(m.package.name, "foo");
}

#[test]
fn parse_render_round_trip() {
    for name in ["foo", "a", "hello-world", "x y z", "under_score.1"] {
        let m = parse_manifest(&render_manifest(&manifest(name))).unwrap();
        assert_eq!(m.package.name, name);
    }
}

#[test]
fn empty_name_is_accepted() {
    let text = render_manifest(&manifest(""));
    assert_eq!(text, "[package]\nname = \"\"\n");
    let m = parse_manifest(&text).unwrap();
    assert_eq!(m.package.name, "");
}

#[test]
fn parse_rejects_short_text() {
    assert_eq!(parse_manifest(""), Err(Error::ManifestParse));
    assert_eq!(parse_manifest("[package]"), Err(Error::ManifestParse));
}

#[test]
fn parse_rejects_wrong_header() {
    assert_eq!(parse_manifest("[packing]\nname = \"foo\"\n"), Err(Error::ManifestParse));
    assert_eq!(parse_manifest("[package]\ntitle = \"foo\"\n"), Err(Error::ManifestParse));
}

#[test]
fn parse_rejects_unterminated_value() {
    assert_eq!(parse_manifest("[package]\nname = \"foo\n"), Err(Error::ManifestParse));
    assert_eq!(parse_manifest("[package]\nname = \"foo\""), Err(Error::ManifestParse));
}

#[test]
fn parse_rejects_quote_inside_name() {
    assert_eq!(parse_manifest("[package]\nname = \"f\"o\"\n"), Err(Error::ManifestParse));
}

#[test]
fn parse_rejects_newline_inside_name() {
    assert_eq!(parse_manifest("[package]\nname = \"f\no\"\n"), Err(Error::ManifestParse));
}

#[test]
fn error_messages() {
    assert_eq!(Error::ManifestParse.message(), "manifest parse error");
    assert_eq!(Error::Io("broken pipe".to_string()).message(), "IO error (broken pipe)");
    assert_eq!(Error::Other("not inside a project".to_string()).message(), "error (not inside a project)");
}
