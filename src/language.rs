//! Languages and display tags keyed by file extension. One fixed table
//! sorts an extension into a known kind; the language, the status-line label
//! and the file icon are all read off that kind.

use crate::text::same_text;
use vstd::prelude::*;

verus! {

/// The language of a document, as told by its file extension.
#[derive(Clone, Copy, Debug, PartialEq, Eq, Structural)]
pub enum Language {
    Python,
    Rust,
    Asm,
    C,
    Cpp,
    Lua,
    Php,
    Html,
    Css,
    Javascript,
    Java,
    Txt,
    Json,
    Csharp,
    Perl,
    Haskell,
    Cobol,
    Markdown,
    Go,
}

/// The file extensions the editor knows, and `Unknown` for all others.
#[derive(Clone, Copy, Debug, PartialEq, Eq, Structural)]
pub enum Extension {
    Rs,
    Md,
    Py,
    Asm,
    C,
    Cpp,
    H,
    Html,
    Css,
    Go,
    Lua,
    Php,
    Pl,
    Js,
    Java,
    Json,
    Cs,
    Unknown,
}

/// The kind of an extension; the match is case-sensitive.
pub open spec fn extension_kind(e: Seq<char>) -> Extension {
    if e == "rs"@ {
        Extension::Rs
    } else if e == "md"@ {
        Extension::Md
    } else if e == "py"@ {
        Extension::Py
    } else if e == "asm"@ {
        Extension::Asm
    } else if e == "c"@ {
        Extension::C
    } else if e == "cpp"@ {
        Extension::Cpp
    } else if e == "h"@ {
        Extension::H
    } else if e == "html"@ {
        Extension::Html
    } else if e == "css"@ {
        Extension::Css
    } else if e == "go"@ {
        Extension::Go
    } else if e == "lua"@ {
        Extension::Lua
    } else if e == "php"@ {
        Extension::Php
    } else if e == "pl"@ {
        Extension::Pl
    } else if e == "js"@ {
        Extension::Js
    } else if e == "java"@ {
        Extension::Java
    } else if e == "json"@ {
        Extension::Json
    } else if e == "cs"@ {
        Extension::Cs
    } else {
        Extension::Unknown
    }
}

/// The language of an extension kind; `Txt` for an unknown one.
pub open spec fn language_of(k: Extension) -> Language {
    match k {
        Extension::Rs => Language::Rust,
        Extension::Md => Language::Markdown,
        Extension::Py => Language::Python,
        Extension::Asm => Language::Asm,
        Extension::C => Language::C,
        Extension::Cpp => Language::Cpp,
        Extension::H => Language::C,
        Extension::Html => Language::Html,
        Extension::Css => Language::Css,
        Extension::Go => Language::Go,
        Extension::Lua => Language::Lua,
        Extension::Php => Language::Php,
        Extension::Pl => Language::Perl,
        Extension::Js => Language::Javascript,
        Extension::Java => Language::Java,
        Extension::Json => Language::Json,
        Extension::Cs => Language::Csharp,
        Extension::Unknown => Language::Txt,
    }
}

/// The status-line label of an extension kind; `TXT` for an unknown one.
pub open spec fn label_of(k: Extension) -> Seq<char> {
    match k {
        Extension::Rs => "\u{e7a8} Rust"@,
        Extension::Md => "\u{e73e} Markdown"@,
        Extension::Py => "\u{e73c} Python"@,
        Extension::Asm => "Assembly"@,
        Extension::C => "\u{e61e} C"@,
        Extension::Cpp => "\u{e61d} C++"@,
        Extension::H => "\u{e61e} C"@,
        Extension::Html => "\u{e736} HTML"@,
        Extension::Css => "\u{e749} CSS"@,
        Extension::Go => "\u{e626} Go"@,
        Extension::Lua => "\u{e620} Lua"@,
        Extension::Php => "\u{e73d} PHP"@,
        Extension::Pl => "\u{e769} Perl"@,
        Extension::Js => "\u{e74e} Javascript"@,
        Extension::Java => "\u{e738} Java"@,
        Extension::Json => "\u{fb25} Json"@,
        Extension::Cs => "\u{f81a} C#"@,
        Extension::Unknown => "TXT"@,
    }
}

/// The file icon of an extension kind.
pub open spec fn icon_of(k: Extension) -> Seq<char> {
    match k {
        Extension::Rs => "\u{e7a8}"@,
        Extension::Md => "\u{e73e}"@,
        Extension::Py => "\u{e73c}"@,
        Extension::Asm => "\u{e796}"@,
        Extension::C => "\u{e61e}"@,
        Extension::Cpp => "\u{e61d}"@,
        Extension::H => "\u{e61e}"@,
        Extension::Html => "\u{e736}"@,
        Extension::Css => "\u{e749}"@,
        Extension::Go => "\u{e626}"@,
        Extension::Lua => "\u{e620}"@,
        Extension::Php => "\u{e73d}"@,
        Extension::Pl => "\u{e769}"@,
        Extension::Js => "\u{e718}"@,
        Extension::Java => "\u{e718}"@,
        Extension::Json => "\u{fb25}"@,
        Extension::Cs => "\u{f81a}"@,
        Extension::Unknown => "\u{f15c}"@,
    }
}

/// The kind of an extension.
pub fn kind_of_extension(ext: &str) -> (r: Extension)
    ensures
        r == extension_kind(ext@),
{
    if same_text(ext, "rs") {
        Extension::Rs
    } else if same_text(ext, "md") {
        Extension::Md
    } else if same_text(ext, "py") {
        Extension::Py
    } else if same_text(ext, "asm") {
        Extension::Asm
    } else if same_text(ext, "c") {
        Extension::C
    } else if same_text(ext, "cpp") {
        Extension::Cpp
    } else if same_text(ext, "h") {
        Extension::H
    } else if same_text(ext, "html") {
        Extension::Html
    } else if same_text(ext, "css") {
        Extension::Css
    } else if same_text(ext, "go") {
        Extension::Go
    } else if same_text(ext, "lua") {
        Extension::Lua
    } else if same_text(ext, "php") {
        Extension::Php
    } else if same_text(ext, "pl") {
        Extension::Pl
    } else if same_text(ext, "js") {
        Extension::Js
    } else if same_text(ext, "java") {
        Extension::Java
    } else if same_text(ext, "json") {
        Extension::Json
    } else if same_text(ext, "cs") {
        Extension::Cs
    } else {
        Extension::Unknown
    }
}

/// The language of an extension kind.
pub fn language_for(k: Extension) -> (r: Language)
    ensures
        r == language_of(k),
{
    match k {
        Extension::Rs => Language::Rust,
        Extension::Md => Language::Markdown,
        Extension::Py => Language::Python,
        Extension::Asm => Language::Asm,
        Extension::C => Language::C,
        Extension::Cpp => Language::Cpp,
        Extension::H => Language::C,
        Extension::Html => Language::Html,
        Extension::Css => Language::Css,
        Extension::Go => Language::Go,
        Extension::Lua => Language::Lua,
        Extension::Php => Language::Php,
        Extension::Pl => Language::Perl,
        Extension::Js => Language::Javascript,
        Extension::Java => Language::Java,
        Extension::Json => Language::Json,
        Extension::Cs => Language::Csharp,
        Extension::Unknown => Language::Txt,
    }
}

/// The status-line label of an extension kind.
pub fn label_for(k: Extension) -> (r: &'static str)
    ensures
        r@ == label_of(k),
{
    match k {
        Extension::Rs => "\u{e7a8} Rust",
        Extension::Md => "\u{e73e} Markdown",
        Extension::Py => "\u{e73c} Python",
        Extension::Asm => "Assembly",
        Extension::C => "\u{e61e} C",
        Extension::Cpp => "\u{e61d} C++",
        Extension::H => "\u{e61e} C",
        Extension::Html => "\u{e736} HTML",
        Extension::Css => "\u{e749} CSS",
        Extension::Go => "\u{e626} Go",
        Extension::Lua => "\u{e620} Lua",
        Extension::Php => "\u{e73d} PHP",
        Extension::Pl => "\u{e769} Perl",
        Extension::Js => "\u{e74e} Javascript",
        Extension::Java => "\u{e738} Java",
        Extension::Json => "\u{fb25} Json",
        Extension::Cs => "\u{f81a} C#",
        Extension::Unknown => "TXT",
    }
}

/// The file icon of an extension kind.
pub fn icon_for(k: Extension) -> (r: &'static str)
    ensures
        r@ == icon_of(k),
{
    match k {
        Extension::Rs => "\u{e7a8}",
        Extension::Md => "\u{e73e}",
        Extension::Py => "\u{e73c}",
        Extension::Asm => "\u{e796}",
        Extension::C => "\u{e61e}",
        Extension::Cpp => "\u{e61d}",
        Extension::H => "\u{e61e}",
        Extension::Html => "\u{e736}",
        Extension::Css => "\u{e749}",
        Extension::Go => "\u{e626}",
        Extension::Lua => "\u{e620}",
        Extension::Php => "\u{e73d}",
        Extension::Pl => "\u{e769}",
        Extension::Js => "\u{e718}",
        Extension::Java => "\u{e718}",
        Extension::Json => "\u{fb25}",
        Extension::Cs => "\u{f81a}",
        Extension::Unknown => "\u{f15c}",
    }
}

/// The extension of a path's file name, when it has one.
pub uninterp spec fn extension_of(path: Seq<char>) -> Option<Seq<char>>;

/// Relies on `std::path::Path::extension`: the part of the file name after
/// its last dot, if the name has a dot that does not start it. A `&str`
/// path is valid UTF-8, so the extension always converts to a `String`.
/// A path without any dot has no extension.
#[verifier::external_body]
fn path_extension(path: &str) -> (r: Option<String>)
    ensures
        r is None <==> extension_of(path@) is None,
        !path@.contains('.') ==> r is None,
        r is Some ==> extension_of(path@) == Some(r->0@),
{
    let ext = std::path::Path::new(path).extension()?;
    Some(ext.to_str()?.to_owned())
}

/// The extension kind of a path; a path without extension is `Unknown`.
pub open spec fn path_kind(path: Seq<char>) -> Extension {
    match extension_of(path) {
        Some(e) => extension_kind(e),
        None => Extension::Unknown,
    }
}

/// The extension kind of a path.
pub fn kind_of_path(path: &str) -> (r: Extension)
    ensures
        r == path_kind(path@),
        !path@.contains('.') ==> r == Extension::Unknown,
{
    match path_extension(path) {
        Some(e) => kind_of_extension(e.as_str()),
        None => Extension::Unknown,
    }
}

/// The language of a file extension: `rs` is Rust, an unknown one is `Txt`.
pub fn language_of_extension(ext: &str) -> (r: Language)
    ensures
        r == language_of(extension_kind(ext@)),
{
    language_for(kind_of_extension(ext))
}

/// The status-line label of a file extension; `TXT` for an unknown one.
pub fn label_of_extension(ext: &str) -> (r: &'static str)
    ensures
        r@ == label_of(extension_kind(ext@)),
{
    label_for(kind_of_extension(ext))
}

/// The file icon of a file extension.
pub fn icon_of_extension(ext: &str) -> (r: &'static str)
    ensures
        r@ == icon_of(extension_kind(ext@)),
{
    icon_for(kind_of_extension(ext))
}

/// The language of a file, from its path's extension.
pub fn derive_file_type(path: &str) -> (r: Language)
    ensures
        r == language_of(path_kind(path@)),
        !path@.contains('.') ==> r == Language::Txt,
{
    language_for(kind_of_path(path))
}

/// The status-line label of a file, from its path's extension.
pub fn derive_file_str(path: &str) -> (r: &'static str)
    ensures
        r@ == label_of(path_kind(path@)),
        !path@.contains('.') ==> r@ == "TXT"@,
{
    label_for(kind_of_path(path))
}

/// The icon of a file, from its path's extension.
pub fn derive_file_icon(path: &str) -> (r: &'static str)
    ensures
        r@ == icon_of(path_kind(path@)),
{
    icon_for(kind_of_path(path))
}

/// Every path gets a language: a path with no extension, or with one
/// outside the table, is plain text labelled `TXT`, and no other path is
/// plain text.
pub proof fn lemma_unknown_is_txt(path: Seq<char>)
    ensures
        extension_of(path) is None ==> path_kind(path) == Extension::Unknown,
        language_of(path_kind(path)) == Language::Txt <==> path_kind(path) == Extension::Unknown,
        path_kind(path) == Extension::Unknown ==> label_of(path_kind(path)) == "TXT"@ && icon_of(
            path_kind(path),
        ) == "\u{f15c}"@,
{
}

} // verus!
