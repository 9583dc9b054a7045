use pandoc_bot::formats::{
    filetype_to_extension, from_filetypes, is_from_filetype, is_to_filetype, same_text,
    to_filetypes,
};

#[test]
fn source_types_are_markdown_only() {
    assert_eq!(from_filetypes(), vec!["markdown".to_string()]);
}

#[test]
fn target_types_keep_their_order() {
    let expected: Vec<String> =
        vec!["pdf".to_string(), "latex".to_string(), "docx".to_string(), "odt".to_string()];
    assert_eq!(to_filetypes(), expected);
}

#[test]
fn markdown_is_a_source_type() {
    assert!(is_from_filetype("markdown"));
}

#[test]
fn target_types_are_no_source_types() {
    assert!(!is_from_filetype("pdf"));
    assert!(!is_from_filetype("latex"));
    assert!(!is_from_filetype("docx"));
    assert!(!is_from_filetype("odt"));
}

#[test]
fn source_type_is_matched_exactly() {
    assert!(!is_from_filetype(""));
    assert!(!is_from_filetype("Markdown"));
    assert!(!is_from_filetype("markdown "));
    assert!(!is_from_filetype("markdow"));
    assert!(!is_from_filetype("bogus"));
}

#[test]
fn every_listed_target_type_is_accepted() {
    for tag in to_filetypes() {
        assert!(is_to_filetype(&tag), "{}", tag);
    }
}

#[test]
fn every_listed_source_type_is_accepted() {
    for tag in from_filetypes() {
        assert!(is_from_filetype(&tag), "{}", tag);
    }
}

#[test]
fn markdown_is_no_target_type() {
    assert!(!is_to_filetype("markdown"));
}

#[test]
fn target_type_is_matched_exactly() {
    assert!(!is_to_filetype(""));
    assert!(!is_to_filetype("PDF"));
    assert!(!is_to_filetype("pdf\n"));
    assert!(!is_to_filetype("tex"));
    assert!(!is_to_filetype("bogus"));
}

#[test]
fn extension_of_each_known_type() {
    assert_eq!(filetype_to_extension("markdown"), "md");
    assert_eq!(filetype_to_extension("pdf"), "pdf");
    assert_eq!(filetype_to_extension("latex"), "tex");
    assert_eq!(filetype_to_extension("docx"), "docx");
    assert_eq!(filetype_to_extension("odt"), "odt");
}

#[test]
fn extension_of_an_unknown_type_is_txt() {
    assert_eq!(filetype_to_extension("bogus"), "txt");
    assert_eq!(filetype_to_extension(""), "txt");
    assert_eq!(filetype_to_extension("md"), "txt");
    assert_eq!(filetype_to_extension("LaTeX"), "txt");
}

#[test]
fn same_text_on_equal_slices() {
    assert!(same_text("", ""));
    assert!(same_text("pdf", "pdf"));
    assert!(same_text("gr\u{fc}\u{df}e \u{1f600}", "gr\u{fc}\u{df}e \u{1f600}"));
}

#[test]
fn same_text_on_different_slices() {
    assert!(!same_text("pdf", "pdg"));
    assert!(!same_text("pdf", "pd"));
    assert!(!same_text("", "x"));
    assert!(!same_text("\u{e9}", "e"));
    assert!(!same_text("odt", "tdo"));
}
