use doc_opener::resolve::{to_absolute_path, Phase, Request, Resolution};
use std::path::Path;

fn text(s: &str) -> Option<String> {
    Some(s.to_string())
}

#[test]
fn a_resolution_begins_with_a_probe() {
    let relative = Resolution::start("notes.md".to_string(), false);
    assert_eq!(relative.phase(), Phase::ProbeRelative);
    assert_eq!(relative.request(), Request::Canonicalize);
    assert_eq!(relative.path(), "notes.md");
    let absolute = Resolution::start("/srv/notes.md".to_string(), true);
    assert_eq!(absolute.phase(), Phase::ProbeAbsolute);
    assert_eq!(absolute.request(), Request::Canonicalize);
    assert_eq!(absolute.path(), "/srv/notes.md");
}

#[test]
fn an_existing_relative_path_resolves_to_its_canonical_form() {
    let r = Resolution::start("notes.md".to_string(), false).on_canonical(text("/home/me/notes.md"));
    assert_eq!(r.phase(), Phase::Resolved);
    assert_eq!(r.request(), Request::Nothing);
    assert_eq!(r.into_path(), "/home/me/notes.md");
}

#[test]
fn an_existing_absolute_path_resolves_to_its_canonical_form() {
    let r = Resolution::start("/home/me/../me/notes.md".to_string(), true)
        .on_canonical(text("/home/me/notes.md"));
    assert_eq!(r.phase(), Phase::Resolved);
    assert_eq!(r.into_path(), "/home/me/notes.md");
}

#[test]
fn a_missing_absolute_path_stays_as_it_is() {
    let r = Resolution::start("/home/me/../new.md".to_string(), true).on_canonical(None);
    assert_eq!(r.phase(), Phase::Resolved);
    assert_eq!(r.request(), Request::Nothing);
    assert_eq!(r.into_path(), "/home/me/../new.md");
}

#[test]
fn a_missing_relative_path_asks_for_the_working_directory() {
    let r = Resolution::start("new.md".to_string(), false).on_canonical(None);
    assert_eq!(r.phase(), Phase::WorkingDir);
    assert_eq!(r.request(), Request::WorkingDir);
    assert_eq!(r.path(), "new.md");
}

#[test]
fn a_missing_relative_path_resolves_to_the_joined_path() {
    let r = Resolution::start("new.md".to_string(), false)
        .on_canonical(None)
        .on_joined(text("/work/new.md"));
    assert_eq!(r.phase(), Phase::ProbeJoined);
    assert_eq!(r.request(), Request::Canonicalize);
    assert_eq!(r.path(), "/work/new.md");
    let r = r.on_canonical(None);
    assert_eq!(r.phase(), Phase::Resolved);
    assert_eq!(r.into_path(), "/work/new.md");
}

#[test]
fn a_joined_path_resolves_to_its_canonical_form() {
    let r = Resolution::start("sub/../new.md".to_string(), false)
        .on_canonical(None)
        .on_joined(text("/work/sub/../new.md"))
        .on_canonical(text("/work/new.md"));
    assert_eq!(r.phase(), Phase::Resolved);
    assert_eq!(r.into_path(), "/work/new.md");
}

#[test]
fn without_a_working_directory_the_cleaned_path_is_the_result() {
    let r = Resolution::start("new.md".to_string(), false).on_canonical(None).on_working_dir(None);
    assert_eq!(r.phase(), Phase::Resolved);
    assert_eq!(r.into_path(), "new.md");
    let r = Resolution::start("new.md".to_string(), false).on_canonical(None).on_joined(None);
    assert_eq!(r.phase(), Phase::Resolved);
    assert_eq!(r.into_path(), "new.md");
}

#[test]
fn the_working_directory_is_joined_by_the_rules_of_the_platform() {
    let dir = if Path::new("/work").is_absolute() { "/work" } else { "C:\\work" };
    let expected = Path::new(dir).join("sub/new.md");
    let r = Resolution::start("sub/new.md".to_string(), false)
        .on_canonical(None)
        .on_working_dir(text(dir));
    assert_eq!(r.phase(), Phase::ProbeJoined);
    assert_eq!(r.request(), Request::Canonicalize);
    assert_eq!(Some(r.path()), expected.to_str());
    assert_ne!(r.path(), "sub/new.md");
    assert_ne!(r.path(), dir);
}

#[test]
fn an_answer_that_is_not_awaited_changes_nothing() {
    let r = Resolution::start("new.md".to_string(), false).on_joined(text("/work/new.md"));
    assert_eq!(r.phase(), Phase::ProbeRelative);
    assert_eq!(r.path(), "new.md");
    let r = r.on_working_dir(text("/work"));
    assert_eq!(r.phase(), Phase::ProbeRelative);
    assert_eq!(r.path(), "new.md");
    let r = r.on_canonical(None).on_canonical(text("/elsewhere/new.md"));
    assert_eq!(r.phase(), Phase::WorkingDir);
    assert_eq!(r.path(), "new.md");
    let r = r.on_joined(None);
    assert_eq!(r.phase(), Phase::Resolved);
    let r = r.on_canonical(text("/a")).on_joined(text("/b")).on_working_dir(text("/c"));
    assert_eq!(r.phase(), Phase::Resolved);
    assert_eq!(r.into_path(), "new.md");
}

#[test]
fn resolution_begins_with_the_cleaned_path() {
    let r = to_absolute_path(" 'notes.md' ");
    assert_eq!(r.path(), "'notes.md'");
    let r = to_absolute_path("\"notes.md\"");
    assert_eq!(r.path(), "notes.md");
    assert_eq!(r.request(), Request::Canonicalize);
}

#[test]
fn resolution_tells_relative_from_absolute_by_the_rules_of_the_platform() {
    assert_eq!(to_absolute_path("notes.md").phase(), Phase::ProbeRelative);
    assert_eq!(to_absolute_path("sub/notes.md").phase(), Phase::ProbeRelative);
    assert_eq!(to_absolute_path("").phase(), Phase::ProbeRelative);
    for path in ["/srv/notes.md", "C:\\srv\\notes.md", "\\\\host\\share\\notes.md"] {
        let expected = if Path::new(path).is_absolute() {
            Phase::ProbeAbsolute
        } else {
            Phase::ProbeRelative
        };
        assert_eq!(to_absolute_path(path).phase(), expected, "{}", path);
    }
    let rooted = if Path::new("/srv").is_absolute() { "\"/srv/notes.md\"" } else { "\"C:\\srv\\notes.md\"" };
    assert_eq!(to_absolute_path(rooted).phase(), Phase::ProbeAbsolute);
}

#[test]
fn resolution_takes_one_layer_of_quotes() {
    assert_eq!(to_absolute_path("\"\"notes.md\"\"").path(), "\"notes.md\"");
    assert_eq!(to_absolute_path("'notes.md\"").path(), "notes.md");
}

#[test]
fn a_working_directory_that_is_not_awaited_is_not_joined() {
    let r = Resolution::start("/srv/new.md".to_string(), true).on_working_dir(text("/work"));
    assert_eq!(r.phase(), Phase::ProbeAbsolute);
    assert_eq!(r.path(), "/srv/new.md");
}
