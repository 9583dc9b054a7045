//! The document types the bot converts between, and the file extension of each.

use vstd::prelude::*;
use vstd::utf8::*;

verus! {

/// The document types accepted as the source of a conversion.
pub open spec fn from_filetype_tags() -> Seq<Seq<char>> {
    seq!["markdown"@]
}

/// The document types accepted as the target of a conversion.
pub open spec fn to_filetype_tags() -> Seq<Seq<char>> {
    seq!["pdf"@, "latex"@, "docx"@, "odt"@]
}

/// The file extension that goes with a document type; `txt` for any type
/// that is not known.
pub open spec fn extension_of(filetype: Seq<char>) -> Seq<char> {
    if filetype == "markdown"@ {
        "md"@
    } else if filetype == "pdf"@ {
        "pdf"@
    } else if filetype == "latex"@ {
        "tex"@
    } else if filetype == "docx"@ {
        "docx"@
    } else if filetype == "odt"@ {
        "odt"@
    } else {
        "txt"@
    }
}

/// Whether two slices hold the same bytes.
pub fn same_bytes(a: &[u8], b: &[u8]) -> (same: bool)
    ensures
        same == (a@ == b@),
{
    if a.len() != b.len() {
        return false;
    }
    let mut i: usize = 0;
    while i < a.len()
        invariant
            i <= a.len(),
            a.len() == b.len(),
            forall|j: int| 0 <= j < i ==> a@[j] == b@[j],
        decreases a.len() - i,
    {
        if a[i] != b[i] {
            return false;
        }
        i += 1;
    }
    assert(a@ =~= b@);
    true
}

/// Whether two string slices hold the same text.
pub fn same_text(a: &str, b: &str) -> (same: bool)
    ensures
        same == (a@ == b@),
{
    proof {
        // The UTF-8 encoding determines the text, so equal bytes mean equal text.
        encode_utf8_decode_utf8(a@);
        encode_utf8_decode_utf8(b@);
    }
    same_bytes(a.as_bytes(), b.as_bytes())
}

/// Whether `tag` names a document type a conversion may start from.
pub fn is_from_filetype(tag: &str) -> (known: bool)
    ensures
        known == from_filetype_tags().contains(tag@),
{
    let known = same_text(tag, "markdown");
    proof {
        if known {
            assert(from_filetype_tags()[0] == tag@);
        }
    }
    known
}

/// Whether `tag` names a document type a conversion may produce.
pub fn is_to_filetype(tag: &str) -> (known: bool)
    ensures
        known == to_filetype_tags().contains(tag@),
{
    let known = same_text(tag, "pdf") || same_text(tag, "latex") || same_text(tag, "docx")
        || same_text(tag, "odt");
    proof {
        let tags = to_filetype_tags();
        if known {
            assert(tags[0] == tag@ || tags[1] == tag@ || tags[2] == tag@ || tags[3] == tag@);
        }
    }
    known
}

/// The texts of a list of strings.
pub open spec fn texts(list: Seq<String>) -> Seq<Seq<char>> {
    list.map_values(|s: String| s@)
}

/// The source document types, in the order they are offered.
pub fn from_filetypes() -> (list: Vec<String>)
    ensures
        texts(list@) == from_filetype_tags(),
{
    let mut list: Vec<String> = Vec::new();
    list.push("markdown".to_owned());
    assert(texts(list@) =~= from_filetype_tags());
    list
}

/// The target document types, in the order they are offered.
pub fn to_filetypes() -> (list: Vec<String>)
    ensures
        texts(list@) == to_filetype_tags(),
{
    let mut list: Vec<String> = Vec::new();
    list.push("pdf".to_owned());
    list.push("latex".to_owned());
    list.push("docx".to_owned());
    list.push("odt".to_owned());
    assert(texts(list@) =~= to_filetype_tags());
    list
}

/// The file extension for a document type.
pub fn filetype_to_extension(filetype: &str) -> (ext: &'static str)
    ensures
        ext@ == extension_of(filetype@),
{
    if same_text(filetype, "markdown") {
        "md"
    } else if same_text(filetype, "pdf") {
        "pdf"
    } else if same_text(filetype, "latex") {
        "tex"
    } else if same_text(filetype, "docx") {
        "docx"
    } else if same_text(filetype, "odt") {
        "odt"
    } else {
        "txt"
    }
}

} // verus!
