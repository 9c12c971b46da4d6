use witchfile::category::{classify, table_entries, tables_disjoint, Category};

fn categories_with_tables() -> Vec<Category> {
    vec![
        Category::Executable,
        Category::Special,
        Category::Programming,
        Category::Office,
        Category::Media,
        Category::Archive,
        Category::Other,
    ]
}

#[test]
fn every_known_extension_classifies_to_its_table() {
    for cat in categories_with_tables() {
        for ext in table_entries(cat) {
            assert_eq!(classify(ext.as_str()), cat, "extension {ext}");
        }
    }
}

#[test]
fn unknown_extensions_are_unclassified() {
    for ext in ["", "xyzzy", "rs2", "ars", "x", "Rs", "EXE", "tar.gz", "r s"] {
        assert_eq!(classify(ext), Category::Unclassified, "extension {ext}");
    }
}

#[test]
fn matching_is_exact_not_substring() {
    // each of these contains a table entry as a substring but is no entry
    for ext in ["rst2", "pyc", "ttar", "zsh1", "aexe", "llog"] {
        assert_eq!(classify(ext), Category::Unclassified, "extension {ext}");
    }
    // "rst" itself is special, though "rs" is programming
    assert_eq!(classify("rst"), Category::Special);
    assert_eq!(classify("rs"), Category::Programming);
}

#[test]
fn classify_is_deterministic() {
    for cat in categories_with_tables() {
        for ext in table_entries(cat) {
            assert_eq!(classify(ext.as_str()), classify(ext.as_str()));
        }
    }
    assert_eq!(classify("nonesuch"), classify("nonesuch"));
}

#[test]
fn category_tables_are_disjoint() {
    assert!(tables_disjoint());
}

#[test]
fn sample_extensions() {
    assert_eq!(classify("exe"), Category::Executable);
    assert_eq!(classify("toml"), Category::Special);
    assert_eq!(classify("py"), Category::Programming);
    assert_eq!(classify("pdf"), Category::Office);
    assert_eq!(classify("png"), Category::Media);
    assert_eq!(classify("zip"), Category::Archive);
    assert_eq!(classify("txt"), Category::Other);
    assert_eq!(classify("~"), Category::Other);
}
