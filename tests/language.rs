use zed::language::{
    derive_file_icon, derive_file_str, derive_file_type, icon_of_extension, label_of_extension,
    language_of_extension, Language,
};

#[test]
fn rust_extension_is_rust() {
    assert_eq!(derive_file_type("x.rs"), Language::Rust);
    assert_eq!(derive_file_str("x.rs"), "\u{e7a8} Rust");
}

#[test]
fn unknown_extension_is_txt() {
    assert_eq!(derive_file_type("x.qqq"), Language::Txt);
    assert_eq!(derive_file_str("x.qqq"), "TXT");
}

#[test]
fn missing_extension_is_txt() {
    assert_eq!(derive_file_type("noext"), Language::Txt);
    assert_eq!(derive_file_str("noext"), "TXT");
    assert_eq!(derive_file_type(".bashrc"), Language::Txt);
}

#[test]
fn extension_is_read_from_the_file_name() {
    assert_eq!(derive_file_type("src/main.rs"), Language::Rust);
    assert_eq!(derive_file_type("dir.py/notes"), Language::Txt);
    assert_eq!(derive_file_type("archive.tar.md"), Language::Markdown);
}

#[test]
fn mapping_is_case_sensitive() {
    assert_eq!(derive_file_type("x.RS"), Language::Txt);
    assert_eq!(language_of_extension("Rs"), Language::Txt);
}

#[test]
fn every_listed_extension_maps() {
    let table = [
        ("rs", Language::Rust),
        ("md", Language::Markdown),
        ("py", Language::Python),
        ("asm", Language::Asm),
        ("c", Language::C),
        ("h", Language::C),
        ("cpp", Language::Cpp),
        ("html", Language::Html),
        ("css", Language::Css),
        ("go", Language::Go),
        ("lua", Language::Lua),
        ("php", Language::Php),
        ("pl", Language::Perl),
        ("js", Language::Javascript),
        ("java", Language::Java),
        ("json", Language::Json),
        ("cs", Language::Csharp),
    ];
    for (ext, lang) in table {
        assert_eq!(language_of_extension(ext), lang);
        assert_ne!(label_of_extension(ext), "TXT");
    }
}

#[test]
fn labels_and_icons() {
    assert_eq!(label_of_extension("h"), "\u{e61e} C");
    assert_eq!(derive_file_str("x.h"), derive_file_str("x.c"));
    assert_eq!(label_of_extension("cs"), "\u{f81a} C#");
    assert_eq!(label_of_extension("asm"), "Assembly");
    assert_eq!(icon_of_extension("asm"), "\u{e796}");
    assert_eq!(icon_of_extension("zzz"), "\u{f15c}");
    assert_eq!(derive_file_icon("README.md"), "\u{e73e}");
    assert_eq!(derive_file_icon("Makefile"), "\u{f15c}");
}

#[test]
fn mapping_is_pure() {
    assert_eq!(derive_file_type("a.go"), derive_file_type("a.go"));
    assert_eq!(derive_file_str("a.go"), derive_file_str("b.go"));
}
