//! The extension classifier: an ordered list of (category, exact-match table)
//! pairs, evaluated first-match-wins. Matching is by string equality, never by
//! substring containment. An extension in no table is `Unclassified`.

use vstd::prelude::*;

verus! {

/// Coarse content classification derived from a file's extension.
#[derive(Clone, Copy, Debug, PartialEq, Eq, Structural)]
pub enum Category {
    Executable,
    Special,
    Programming,
    Office,
    Media,
    Archive,
    Other,
    Unclassified,
}

/// The known executable extensions.
pub open spec fn executable_table() -> Seq<Seq<char>> {
    seq!["exe"@, "msi"@, "bat"@]
}

/// The known configuration and markup extensions.
pub open spec fn special_table() -> Seq<Seq<char>> {
    seq![
        "md"@, "cgf"@, "conf"@, "config"@, "ini"@, "json"@, "tml"@, "toml"@, "yaml"@,
        "yml"@, "csv"@, "markdown"@, "org"@, "rst"@, "xml"@, "log"@, "ron"@,
    ]
}

/// The known source-code extensions.
pub open spec fn programming_table() -> Seq<Seq<char>> {
    seq![
        "py"@, "pl"@, "rs"@, "c"@, "cpp"@, "awk"@, "vb"@, "cabal"@, "clj"@, "cs"@,
        "csx"@, "css"@, "h"@, "hpp"@, "dart"@, "ex"@, "exs"@, "elc"@, "elm"@, "erl"@,
        "fs"@, "go"@, "hs"@, "ipynb"@, "java"@, "bsh"@, "js"@, "jl"@, "kt"@, "tex"@,
        "lisp"@, "lua"@, "matlab"@, "pas"@, "p"@, "php"@, "ps1"@, "r"@, "rb"@,
        "scala"@, "sh"@, "bash"@, "zsh"@, "fish"@, "sql"@, "swift"@, "ts"@, "tsx"@,
        "vim"@, "cmake"@, "make"@,
    ]
}

/// The known document extensions.
pub open spec fn office_table() -> Seq<Seq<char>> {
    seq![
        "doc"@, "docx"@, "epub"@, "odt"@, "pdf"@, "ps"@, "xls"@, "xlsx"@, "ods"@,
        "xlr"@, "ppt"@, "pptx"@, "odp"@, "pps"@, "ics"@,
    ]
}

/// The known image, audio, video and font extensions.
pub open spec fn media_table() -> Seq<Seq<char>> {
    seq![
        "bmp"@, "gif"@, "jpeg"@, "jpg"@, "png"@, "svg"@, "avi"@, "mp4"@, "wmv"@,
        "wma"@, "mp3"@, "wav"@, "mid"@, "ttf"@, "m4a"@,
    ]
}

/// The known archive and disk-image extensions.
pub open spec fn archive_table() -> Seq<Seq<char>> {
    seq![
        "apk"@, "deb"@, "rpm"@, "xbps"@, "bag"@, "bin"@, "dmg"@, "img"@, "iso"@,
        "toast"@, "vcd"@, "7z"@, "arj"@, "gz"@, "zip"@, "pkg"@, "tar"@, "jar"@,
        "rar"@, "tgz"@, "z"@, "zst"@, "xz"@,
    ]
}

/// The catch-all table of dotfile-like suffixes.
pub open spec fn other_table() -> Seq<Seq<char>> {
    seq!["~"@, "git"@, "gitignore"@, "tmp"@, "lock"@, "txt"@]
}

/// The table of a category; `Unclassified` owns no table.
pub open spec fn spec_table(c: Category) -> Seq<Seq<char>> {
    match c {
        Category::Executable => executable_table(),
        Category::Special => special_table(),
        Category::Programming => programming_table(),
        Category::Office => office_table(),
        Category::Media => media_table(),
        Category::Archive => archive_table(),
        Category::Other => other_table(),
        Category::Unclassified => Seq::empty(),
    }
}

/// Exact membership of an extension in a category's table.
pub open spec fn in_table(ext: Seq<char>, c: Category) -> bool {
    spec_table(c).contains(ext)
}

/// First-match-wins classification over the tables, in their declared order.
pub open spec fn spec_classify(ext: Seq<char>) -> Category {
    if in_table(ext, Category::Executable) {
        Category::Executable
    } else if in_table(ext, Category::Special) {
        Category::Special
    } else if in_table(ext, Category::Programming) {
        Category::Programming
    } else if in_table(ext, Category::Office) {
        Category::Office
    } else if in_table(ext, Category::Media) {
        Category::Media
    } else if in_table(ext, Category::Archive) {
        Category::Archive
    } else if in_table(ext, Category::Other) {
        Category::Other
    } else {
        Category::Unclassified
    }
}

/// The entries of a category's table, for callers that walk the known
/// extensions themselves.
pub fn table_entries(c: Category) -> (v: Vec<String>)
    ensures
        v@.map_values(|s: String| s@) == spec_table(c),
{
    let mut v: Vec<String> = Vec::new();
    match c {
        Category::Executable => {
            v.push("exe".to_owned());
            v.push("msi".to_owned());
            v.push("bat".to_owned());
        },
        Category::Special => {
            v.push("md".to_owned());
            v.push("cgf".to_owned());
            v.push("conf".to_owned());
            v.push("config".to_owned());
            v.push("ini".to_owned());
            v.push("json".to_owned());
            v.push("tml".to_owned());
            v.push("toml".to_owned());
            v.push("yaml".to_owned());
            v.push("yml".to_owned());
            v.push("csv".to_owned());
            v.push("markdown".to_owned());
            v.push("org".to_owned());
            v.push("rst".to_owned());
            v.push("xml".to_owned());
            v.push("log".to_owned());
            v.push("ron".to_owned());
        },
        Category::Programming => {
            v.push("py".to_owned());
            v.push("pl".to_owned());
            v.push("rs".to_owned());
            v.push("c".to_owned());
            v.push("cpp".to_owned());
            v.push("awk".to_owned());
            v.push("vb".to_owned());
            v.push("cabal".to_owned());
            v.push("clj".to_owned());
            v.push("cs".to_owned());
            v.push("csx".to_owned());
            v.push("css".to_owned());
            v.push("h".to_owned());
            v.push("hpp".to_owned());
            v.push("dart".to_owned());
            v.push("ex".to_owned());
            v.push("exs".to_owned());
            v.push("elc".to_owned());
            v.push("elm".to_owned());
            v.push("erl".to_owned());
            v.push("fs".to_owned());
            v.push("go".to_owned());
            v.push("hs".to_owned());
            v.push("ipynb".to_owned());
            v.push("java".to_owned());
            v.push("bsh".to_owned());
            v.push("js".to_owned());
            v.push("jl".to_owned());
            v.push("kt".to_owned());
            v.push("tex".to_owned());
            v.push("lisp".to_owned());
            v.push("lua".to_owned());
            v.push("matlab".to_owned());
            v.push("pas".to_owned());
            v.push("p".to_owned());
            v.push("php".to_owned());
            v.push("ps1".to_owned());
            v.push("r".to_owned());
            v.push("rb".to_owned());
            v.push("scala".to_owned());
            v.push("sh".to_owned());
            v.push("bash".to_owned());
            v.push("zsh".to_owned());
            v.push("fish".to_owned());
            v.push("sql".to_owned());
            v.push("swift".to_owned());
            v.push("ts".to_owned());
            v.push("tsx".to_owned());
            v.push("vim".to_owned());
            v.push("cmake".to_owned());
            v.push("make".to_owned());
        },
        Category::Office => {
            v.push("doc".to_owned());
            v.push("docx".to_owned());
            v.push("epub".to_owned());
            v.push("odt".to_owned());
            v.push("pdf".to_owned());
            v.push("ps".to_owned());
            v.push("xls".to_owned());
            v.push("xlsx".to_owned());
            v.push("ods".to_owned());
            v.push("xlr".to_owned());
            v.push("ppt".to_owned());
            v.push("pptx".to_owned());
            v.push("odp".to_owned());
            v.push("pps".to_owned());
            v.push("ics".to_owned());
        },
        Category::Media => {
            v.push("bmp".to_owned());
            v.push("gif".to_owned());
            v.push("jpeg".to_owned());
            v.push("jpg".to_owned());
            v.push("png".to_owned());
            v.push("svg".to_owned());
            v.push("avi".to_owned());
            v.push("mp4".to_owned());
            v.push("wmv".to_owned());
            v.push("wma".to_owned());
            v.push("mp3".to_owned());
            v.push("wav".to_owned());
            v.push("mid".to_owned());
            v.push("ttf".to_owned());
            v.push("m4a".to_owned());
        },
        Category::Archive => {
            v.push("apk".to_owned());
            v.push("deb".to_owned());
            v.push("rpm".to_owned());
            v.push("xbps".to_owned());
            v.push("bag".to_owned());
            v.push("bin".to_owned());
            v.push("dmg".to_owned());
            v.push("img".to_owned());
            v.push("iso".to_owned());
            v.push("toast".to_owned());
            v.push("vcd".to_owned());
            v.push("7z".to_owned());
            v.push("arj".to_owned());
            v.push("gz".to_owned());
            v.push("zip".to_owned());
            v.push("pkg".to_owned());
            v.push("tar".to_owned());
            v.push("jar".to_owned());
            v.push("rar".to_owned());
            v.push("tgz".to_owned());
            v.push("z".to_owned());
            v.push("zst".to_owned());
            v.push("xz".to_owned());
        },
        Category::Other => {
            v.push("~".to_owned());
            v.push("git".to_owned());
            v.push("gitignore".to_owned());
            v.push("tmp".to_owned());
            v.push("lock".to_owned());
            v.push("txt".to_owned());
        },
        Category::Unclassified => {},
    }
    proof {
        assert(v@.map_values(|s: String| s@) =~= spec_table(c));
    }
    v
}

/// Exact membership of `ext` among the given entries.
fn contains_entry(entries: &Vec<String>, ext: &str) -> (r: bool)
    ensures
        r == entries@.map_values(|s: String| s@).contains(ext@),
{
    let e: String = ext.to_owned();
    let mut i: usize = 0;
    while i < entries.len()
        invariant
            i <= entries.len(),
            e@ == ext@,
            forall|j: int| 0 <= j < i ==> entries@[j]@ != ext@,
        decreases entries.len() - i,
    {
        if entries[i] == e {
            proof {
                assert(entries@.map_values(|s: String| s@)[i as int] == ext@);
            }
            return true;
        }
        i += 1;
    }
    proof {
        let m = entries@.map_values(|s: String| s@);
        if m.contains(ext@) {
            let j = choose|j: int| 0 <= j < m.len() && m[j] == ext@;
            assert(entries@[j]@ == ext@);
            assert(false);
        }
    }
    false
}

/// Maps an extension to its category: the first table, in declared order,
/// that holds the extension exactly; `Unclassified` when none does.
pub fn classify(ext: &str) -> (c: Category)
    ensures
        c == spec_classify(ext@),
{
    if contains_entry(&table_entries(Category::Executable), ext) {
        Category::Executable
    } else if contains_entry(&table_entries(Category::Special), ext) {
        Category::Special
    } else if contains_entry(&table_entries(Category::Programming), ext) {
        Category::Programming
    } else if contains_entry(&table_entries(Category::Office), ext) {
        Category::Office
    } else if contains_entry(&table_entries(Category::Media), ext) {
        Category::Media
    } else if contains_entry(&table_entries(Category::Archive), ext) {
        Category::Archive
    } else if contains_entry(&table_entries(Category::Other), ext) {
        Category::Other
    } else {
        Category::Unclassified
    }
}

/// An extension that stands in exactly one category's table is classified as
/// that category.
pub proof fn lemma_classify_known(ext: Seq<char>, c: Category)
    requires
        c != Category::Unclassified,
        in_table(ext, c),
        forall|c2: Category| c2 != c ==> !(#[trigger] in_table(ext, c2)),
    ensures
        spec_classify(ext) == c,
{
}

/// An extension that stands in no category's table is `Unclassified`.
pub proof fn lemma_classify_unknown(ext: Seq<char>)
    requires
        forall|c: Category| !(#[trigger] in_table(ext, c)),
    ensures
        spec_classify(ext) == Category::Unclassified,
{
}

/// Conversely, an extension classified as `Unclassified` stands in no
/// category's table.
pub proof fn lemma_unclassified_means_unknown(ext: Seq<char>)
    requires
        spec_classify(ext) == Category::Unclassified,
    ensures
        forall|c: Category| !(#[trigger] in_table(ext, c)),
{
    assert forall|c: Category| !(#[trigger] in_table(ext, c)) by {
        if in_table(ext, c) {
            assert(spec_table(Category::Unclassified).len() == 0);
            assert(c != Category::Unclassified);
            assert(spec_classify(ext) != Category::Unclassified);
        }
    }
}

/// Classification is deterministic: repeated calls on the same extension
/// agree, because `classify` returns exactly `spec_classify` of its input.
pub proof fn lemma_classify_deterministic(ext: Seq<char>, c1: Category, c2: Category)
    requires
        c1 == spec_classify(ext),
        c2 == spec_classify(ext),
    ensures
        c1 == c2,
{
}

/// True when no extension stands in the tables of two different categories:
/// first-match-wins then never hides a second category an extension would
/// also belong to.
pub open spec fn spec_tables_disjoint() -> bool {
    forall|e: Seq<char>, c1: Category, c2: Category|
        c1 != c2 ==> !(#[trigger] in_table(e, c1) && #[trigger] in_table(e, c2))
}

/// Decides whether no entry of one category's table stands in another's.
fn table_pair_disjoint(a: Category, b: Category) -> (r: bool)
    ensures
        r == (forall|e: Seq<char>| !(#[trigger] in_table(e, a) && in_table(e, b))),
{
    let ta = table_entries(a);
    let tb = table_entries(b);
    let mut i: usize = 0;
    while i < ta.len()
        invariant
            i <= ta@.len(),
            ta@.map_values(|s: String| s@) == spec_table(a),
            tb@.map_values(|s: String| s@) == spec_table(b),
            forall|k: int| 0 <= k < i ==> !in_table(#[trigger] ta@[k]@, b),
        decreases ta@.len() - i,
    {
        if contains_entry(&tb, ta[i].as_str()) {
            proof {
                assert(spec_table(a)[i as int] == ta@[i as int]@);
                assert(in_table(ta@[i as int]@, a));
            }
            return false;
        }
        i += 1;
    }
    proof {
        assert forall|e: Seq<char>| !(#[trigger] in_table(e, a) && in_table(e, b)) by {
            if in_table(e, a) && in_table(e, b) {
                let k = choose|k: int| 0 <= k < spec_table(a).len() && spec_table(a)[k] == e;
                assert(spec_table(a)[k] == ta@[k]@);
                assert(!in_table(ta@[k]@, b));
                assert(false);
            }
        }
    }
    true
}

/// Decides whether the category tables are pairwise disjoint, the regression
/// guard against an extension slipping into two tables.
pub fn tables_disjoint() -> (r: bool)
    ensures
        r == spec_tables_disjoint(),
{
    if !table_pair_disjoint(Category::Executable, Category::Special) {
        return false;
    }
    if !table_pair_disjoint(Category::Executable, Category::Programming) {
        return false;
    }
    if !table_pair_disjoint(Category::Executable, Category::Office) {
        return false;
    }
    if !table_pair_disjoint(Category::Executable, Category::Media) {
        return false;
    }
    if !table_pair_disjoint(Category::Executable, Category::Archive) {
        return false;
    }
    if !table_pair_disjoint(Category::Executable, Category::Other) {
        return false;
    }
    if !table_pair_disjoint(Category::Special, Category::Programming) {
        return false;
    }
    if !table_pair_disjoint(Category::Special, Category::Office) {
        return false;
    }
    if !table_pair_disjoint(Category::Special, Category::Media) {
        return false;
    }
    if !table_pair_disjoint(Category::Special, Category::Archive) {
        return false;
    }
    if !table_pair_disjoint(Category::Special, Category::Other) {
        return false;
    }
    if !table_pair_disjoint(Category::Programming, Category::Office) {
        return false;
    }
    if !table_pair_disjoint(Category::Programming, Category::Media) {
        return false;
    }
    if !table_pair_disjoint(Category::Programming, Category::Archive) {
        return false;
    }
    if !table_pair_disjoint(Category::Programming, Category::Other) {
        return false;
    }
    if !table_pair_disjoint(Category::Office, Category::Media) {
        return false;
    }
    if !table_pair_disjoint(Category::Office, Category::Archive) {
        return false;
    }
    if !table_pair_disjoint(Category::Office, Category::Other) {
        return false;
    }
    if !table_pair_disjoint(Category::Media, Category::Archive) {
        return false;
    }
    if !table_pair_disjoint(Category::Media, Category::Other) {
        return false;
    }
    if !table_pair_disjoint(Category::Archive, Category::Other) {
        return false;
    }
    proof {
        assert forall|e: Seq<char>, c1: Category, c2: Category| c1 != c2 implies !(#[trigger]
        in_table(e, c1) && #[trigger] in_table(e, c2)) by {
            if in_table(e, c1) && in_table(e, c2) {
                assert(spec_table(Category::Unclassified).len() == 0);
                assert(c1 != Category::Unclassified);
                assert(c2 != Category::Unclassified);
                assert(false);
            }
        }
    }
    true
}

} // verus!
