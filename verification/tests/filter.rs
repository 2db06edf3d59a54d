use doc_opener::filter::{ends_with, is_supported_file, is_supported_lowercase, select_file_arg};

#[test]
fn supported_whatever_the_letter_case() {
    assert!(is_supported_file("FOO.MD"));
    assert!(!is_supported_file("foo.exe"));
}

#[test]
fn each_supported_extension_is_accepted() {
    assert!(is_supported_file("notes.md"));
    assert!(is_supported_file("notes.markdown"));
    assert!(is_supported_file("notes.txt"));
    assert!(is_supported_file("/home/me/Notes.Markdown"));
    assert!(is_supported_file("C:\\Users\\me\\README.TxT"));
}

#[test]
fn a_bare_extension_is_accepted() {
    assert!(is_supported_file(".md"));
    assert!(is_supported_file(".txt"));
    assert!(is_supported_file(".markdown"));
}

#[test]
fn other_endings_are_refused() {
    assert!(!is_supported_file(""));
    assert!(!is_supported_file("md"));
    assert!(!is_supported_file("notes.md.bak"));
    assert!(!is_supported_file("notes.md "));
    assert!(!is_supported_file("notes.mdx"));
    assert!(!is_supported_file("notes.markdow"));
    assert!(!is_supported_file("notes_txt"));
    assert!(!is_supported_file("notes.text"));
}

#[test]
fn the_extension_needs_no_separate_stem() {
    assert!(is_supported_file("notesmd.md"));
    assert!(is_supported_file("a.b.c.txt"));
    assert!(is_supported_file("x.md.md"));
}

#[test]
fn lower_case_is_the_unicode_one() {
    // The Kelvin sign has the letter k as its lower-case form.
    assert!(is_supported_file("notes.mar\u{212a}down"));
    assert!(!is_supported_lowercase("notes.mar\u{212a}down"));
}

#[test]
fn lower_case_match_is_exact() {
    assert!(is_supported_lowercase("foo.md"));
    assert!(is_supported_lowercase("foo.markdown"));
    assert!(is_supported_lowercase("foo.txt"));
    assert!(!is_supported_lowercase("FOO.MD"));
    assert!(!is_supported_lowercase("foo.Txt"));
    assert!(!is_supported_lowercase("foo.exe"));
}

#[test]
fn ends_with_compares_the_tail() {
    assert!(ends_with("notes.md", ".md"));
    assert!(ends_with("notes.md", ""));
    assert!(ends_with("", ""));
    assert!(ends_with(".md", ".md"));
    assert!(!ends_with("md", ".md"));
    assert!(!ends_with("notes.md", ".MD"));
    assert!(!ends_with("notes.md", "notes"));
    assert!(!ends_with("", "a"));
    assert!(ends_with("日本語.txt", "語.txt"));
    assert!(!ends_with("日本語.txt", "本.txt"));
}

#[test]
fn ends_with_agrees_with_the_standard_library() {
    let texts = vec!["", "a", "ab", "ba", "aba", "é", "aé", "éa", ".md", "x.md"];
    for s in &texts {
        for t in &texts {
            assert_eq!(ends_with(s, t), s.ends_with(t), "{:?} {:?}", s, t);
        }
    }
}

fn args(list: &[&str]) -> Vec<String> {
    list.iter().map(|s| s.to_string()).collect()
}

#[test]
fn the_first_supported_argument_is_selected() {
    let picked = select_file_arg(&args(&["--flag", "a.exe", "b.md", "c.txt"]));
    assert_eq!(picked, Some("b.md".to_string()));
}

#[test]
fn the_selected_argument_is_cleaned() {
    let picked = select_file_arg(&args(&["a.exe", "\"my notes.TXT\"", "b.md"]));
    assert_eq!(picked, Some("my notes.TXT".to_string()));
}

#[test]
fn an_argument_is_judged_in_its_cleaned_form() {
    let picked = select_file_arg(&args(&["a.md.bak", "'b.markdown'", "c.md"]));
    assert_eq!(picked, Some("b.markdown".to_string()));
    let shielded = select_file_arg(&args(&[" \"a.md\" ", "c.md"]));
    assert_eq!(shielded, Some("c.md".to_string()));
}

#[test]
fn nothing_is_selected_without_a_supported_argument() {
    assert_eq!(select_file_arg(&args(&[])), None);
    assert_eq!(select_file_arg(&args(&["a.exe", "--open", ""])), None);
}
