//! The files of a folder that the packer can work on.

use crate::text::{chars_of, glue, texts};
use vstd::prelude::*;

verus! {

/// What a folder scan is asked for.
#[derive(Debug, PartialEq, Eq)]
pub struct ScanFolderOptions {
    pub folder_path: String,
    pub include_subfolders: bool,
}

/// An entry of a folder.
#[derive(Debug, PartialEq, Eq)]
pub enum Entry {
    /// A file: its path where that is valid Unicode, and the extension of
    /// its name where it has one.
    File { path: Option<String>, extension: Option<String> },
    /// A folder and its entries.
    Directory { entries: Vec<Entry> },
    /// Neither of the two.
    Other,
}

/// What lies at the path that a scan starts from.
#[derive(Debug, PartialEq, Eq)]
pub enum Root {
    /// Nothing.
    Missing,
    /// Something that is no folder.
    NotDirectory,
    /// A folder with these entries.
    Directory(Vec<Entry>),
}

/// `c` as a lower-case letter where it is an upper-case letter of ASCII.
pub open spec fn ascii_lower(c: char) -> char {
    if 'A' <= c <= 'Z' {
        ((c as u8) + 32) as char
    } else {
        c
    }
}

/// Whether `text` is `word` but for the case of its ASCII letters.
pub open spec fn is_word(text: Seq<char>, word: Seq<char>) -> bool {
    text.map_values(|c: char| ascii_lower(c)) == word
}

/// Whether the packer works on files with this extension: executables and
/// dynamic libraries, in any case of letters.
pub open spec fn is_supported(extension: Seq<char>) -> bool {
    is_word(extension, "exe"@) || is_word(extension, "dll"@)
}

/// The path under which a file is listed: it must have a supported
/// extension and a path.
pub open spec fn listed_as(path: Option<String>, extension: Option<String>) -> Option<Seq<char>> {
    match (extension, path) {
        (Some(e), Some(p)) => if is_supported(e@) {
            Some(p@)
        } else {
            None
        },
        _ => None,
    }
}

/// The files that a scan lists for one entry: the file itself, or what a
/// folder holds where subfolders are included.
pub open spec fn found_in(entry: Entry, include_subfolders: bool) -> Seq<Seq<char>>
    decreases entry,
{
    match entry {
        Entry::File { path, extension } => match listed_as(path, extension) {
            Some(p) => seq![p],
            None => Seq::empty(),
        },
        Entry::Directory { entries } => if include_subfolders {
            found_among(entries@, include_subfolders)
        } else {
            Seq::empty()
        },
        Entry::Other => Seq::empty(),
    }
}

/// The files that a scan lists for the entries of a folder, in their order.
pub open spec fn found_among(entries: Seq<Entry>, include_subfolders: bool) -> Seq<Seq<char>>
    decreases entries,
{
    if entries.len() == 0 {
        Seq::empty()
    } else {
        found_in(entries[0], include_subfolders) + found_among(
            entries.skip(1),
            include_subfolders,
        )
    }
}

/// What a scan comes to: the files found, or why the path cannot be
/// scanned.
pub open spec fn scanned(options: ScanFolderOptions, root: Root) -> Result<
    Seq<Seq<char>>,
    Seq<char>,
> {
    match root {
        Root::Missing => Err("路径不存在: "@ + options.folder_path@),
        Root::NotDirectory => Err("不是文件夹: "@ + options.folder_path@),
        Root::Directory(entries) => Ok(found_among(entries@, options.include_subfolders)),
    }
}

/// Tells whether `text` is `word` but for the case of its ASCII letters;
/// `word` is in lower case.
fn matches_word(text: &Vec<char>, word: &str) -> (b: bool)
    ensures
        b == is_word(text@, word@),
{
    let w = chars_of(word);
    if text.len() != w.len() {
        return false;
    }
    let mut i: usize = 0;
    while i < text.len()
        invariant
            i <= text@.len() == w@.len(),
            w@ == word@,
            forall|k: int| 0 <= k < i ==> ascii_lower(text@[k]) == w@[k],
        decreases text@.len() - i,
    {
        let c = text[i];
        let lower = if 'A' <= c && c <= 'Z' {
            ((c as u8) + 32) as char
        } else {
            c
        };
        if lower != w[i] {
            return false;
        }
        i += 1;
    }
    assert(text@.map_values(|c: char| ascii_lower(c)) =~= word@);
    true
}

/// Tells whether the packer works on files with this extension.
pub fn is_supported_extension(extension: &str) -> (b: bool)
    ensures
        b == is_supported(extension@),
{
    let chars = chars_of(extension);
    matches_word(&chars, "exe") || matches_word(&chars, "dll")
}

/// The files among `entries` that the packer can work on, in their order;
/// those of subfolders too where `include_subfolders` says so.
pub fn scan_folder_recursive(entries: &Vec<Entry>, include_subfolders: bool) -> (files: Vec<
    String,
>)
    ensures
        texts(files@) == found_among(entries@, include_subfolders),
    decreases entries,
{
    let mut files: Vec<String> = Vec::new();
    let mut i: usize = 0;
    assert(entries@.skip(0) == entries@);
    while i < entries.len()
        invariant
            i <= entries@.len(),
            found_among(entries@, include_subfolders) == texts(files@) + found_among(
                entries@.skip(i as int),
                include_subfolders,
            ),
        decreases entries@.len() - i,
    {
        let ghost before = texts(files@);
        let ghost rest = entries@.skip(i as int);
        proof {
            assert(rest.skip(1) == entries@.skip(i + 1));
        }
        match &entries[i] {
            Entry::Directory { entries: inner } => {
                if include_subfolders {
                    let mut found = scan_folder_recursive(inner, true);
                    files.append(&mut found);
                }
            },
            Entry::File { path, extension } => {
                if let Some(e) = extension {
                    if is_supported_extension(e.as_str()) {
                        if let Some(p) = path {
                            files.push(p.clone());
                        }
                    }
                }
            },
            Entry::Other => {},
        }
        assert(before + (found_in(rest[0], include_subfolders) + found_among(
            rest.skip(1),
            include_subfolders,
        )) == (before + found_in(rest[0], include_subfolders)) + found_among(
            rest.skip(1),
            include_subfolders,
        ));
        i += 1;
    }
    assert(found_among(entries@.skip(i as int), include_subfolders) == Seq::<
        Seq<char>,
    >::empty());
    files
}

/// The files of a folder that the packer can work on. What lies at the path
/// must be a folder.
pub fn scan_folder(options: &ScanFolderOptions, root: &Root) -> (result: Result<
    Vec<String>,
    String,
>)
    ensures
        match result {
            Ok(files) => scanned(*options, *root) == Ok::<Seq<Seq<char>>, Seq<char>>(
                texts(files@),
            ),
            Err(why) => scanned(*options, *root) == Err::<Seq<Seq<char>>, Seq<char>>(why@),
        },
{
    match root {
        Root::Missing => Err(glue("路径不存在: ", options.folder_path.as_str())),
        Root::NotDirectory => Err(glue("不是文件夹: ", options.folder_path.as_str())),
        Root::Directory(entries) => Ok(
            scan_folder_recursive(entries, options.include_subfolders),
        ),
    }
}

} // verus!
