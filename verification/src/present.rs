//! The presenter: pure formatting of a record into label/value rows for the
//! single-path view, one five-cell row per entry for the bulk view, and the
//! log-viewing message. Absent fields are rendered as a dash placeholder, so
//! the column layout stays fixed.

use vstd::prelude::*;

use crate::category::Category;
use crate::elapsed::{
    humanize_elapsed, render_elapsed, spec_elapsed_amount, spec_elapsed_unit, spec_render_elapsed,
    ElapsedDisplay,
};
use crate::encoding::TextEncoding;
use crate::record::{FileKind, FileRecord};
use crate::size::{
    humanize_size, render_size, spec_render_size, spec_size_tenths, spec_size_unit, SizeDisplay,
};
use vstd::string::StringExecFns;

verus! {

/// The placeholder an absent field is rendered as.
pub open spec fn spec_placeholder() -> Seq<char> {
    "-"@
}

/// The display wording of an entry type.
pub open spec fn spec_kind_label(k: FileKind) -> Seq<char> {
    match k {
        FileKind::File => "file"@,
        FileKind::Directory => "directory"@,
        FileKind::Symlink => "symlink"@,
        FileKind::Unknown => ""@,
    }
}

/// The display wording of an entry type.
pub fn kind_label(k: FileKind) -> (s: String)
    ensures
        s@ == spec_kind_label(k),
{
    match k {
        FileKind::File => String::from_str("file"),
        FileKind::Directory => String::from_str("directory"),
        FileKind::Symlink => String::from_str("symlink"),
        FileKind::Unknown => String::from_str(""),
    }
}

/// The display wording of a category; an unclassified extension shows an
/// empty cell.
pub open spec fn spec_category_label(c: Category) -> Seq<char> {
    match c {
        Category::Executable => "executable"@,
        Category::Special => "special"@,
        Category::Programming => "programming"@,
        Category::Office => "office"@,
        Category::Media => "media"@,
        Category::Archive => "archives"@,
        Category::Other => "other"@,
        Category::Unclassified => ""@,
    }
}

/// The display wording of a category.
pub fn category_label(c: Category) -> (s: String)
    ensures
        s@ == spec_category_label(c),
{
    match c {
        Category::Executable => String::from_str("executable"),
        Category::Special => String::from_str("special"),
        Category::Programming => String::from_str("programming"),
        Category::Office => String::from_str("office"),
        Category::Media => String::from_str("media"),
        Category::Archive => String::from_str("archives"),
        Category::Other => String::from_str("other"),
        Category::Unclassified => String::from_str(""),
    }
}

/// The display wording of an encoding guess.
pub open spec fn spec_encoding_label(e: TextEncoding) -> Seq<char> {
    match e {
        TextEncoding::UnicodeText => "unicode"@,
        TextEncoding::AsciiText => "ascii"@,
        TextEncoding::Binary => "binary"@,
    }
}

/// The display wording of an encoding guess.
pub fn encoding_label(e: TextEncoding) -> (s: String)
    ensures
        s@ == spec_encoding_label(e),
{
    match e {
        TextEncoding::UnicodeText => String::from_str("unicode"),
        TextEncoding::AsciiText => String::from_str("ascii"),
        TextEncoding::Binary => String::from_str("binary"),
    }
}

/// A yes/no cell.
pub open spec fn spec_yes_no(b: bool) -> Seq<char> {
    if b {
        "yes"@
    } else {
        "no"@
    }
}

/// A yes/no cell.
pub fn yes_no(b: bool) -> (s: String)
    ensures
        s@ == spec_yes_no(b),
{
    if b {
        String::from_str("yes")
    } else {
        String::from_str("no")
    }
}

/// The Unicode cell: whether the content decodes as Unicode text; a dash
/// where no guess was made.
pub open spec fn spec_unicode_cell(enc: Option<TextEncoding>) -> Seq<char> {
    match enc {
        None => spec_placeholder(),
        Some(e) => spec_yes_no(e != TextEncoding::Binary),
    }
}

/// The ASCII cell: whether the content stays in the ASCII subset; a dash
/// where no guess was made.
pub open spec fn spec_ascii_cell(enc: Option<TextEncoding>) -> Seq<char> {
    match enc {
        None => spec_placeholder(),
        Some(e) => spec_yes_no(e == TextEncoding::AsciiText),
    }
}

/// The size a byte count is displayed as.
pub open spec fn spec_size_display(bytes: u64) -> SizeDisplay {
    SizeDisplay { tenths: spec_size_tenths(bytes) as u64, unit: spec_size_unit(bytes) }
}

/// The size cell.
pub open spec fn spec_size_cell(bytes: u64) -> Seq<char> {
    spec_render_size(spec_size_display(bytes))
}

/// Re-parsing the displayed size cell of any byte count recovers the scaled
/// magnitude and unit exactly.
pub proof fn lemma_size_cell_round_trip(bytes: u64)
    ensures
        crate::size::spec_parse_size(spec_size_cell(bytes)) == Some(spec_size_display(bytes)),
{
    crate::size::lemma_size_round_trip(spec_size_display(bytes));
}

/// The elapsed time a second count is displayed as.
pub open spec fn spec_elapsed_display(secs: u64) -> ElapsedDisplay {
    ElapsedDisplay { amount: spec_elapsed_amount(secs) as u64, unit: spec_elapsed_unit(secs) }
}

/// A timestamp cell: the relative time, or a dash where the platform gave no
/// timestamp.
pub open spec fn spec_elapsed_cell(secs: Option<u64>) -> Seq<char> {
    match secs {
        None => spec_placeholder(),
        Some(s) => spec_render_elapsed(spec_elapsed_display(s)),
    }
}

/// A timestamp cell.
pub fn elapsed_cell(secs: Option<u64>) -> (s: String)
    ensures
        s@ == spec_elapsed_cell(secs),
{
    match secs {
        None => String::from_str("-"),
        Some(v) => render_elapsed(&humanize_elapsed(v)),
    }
}

/// One label/value row of the single-path view.
pub struct Row {
    /// The field's name.
    pub label: String,
    /// The field's rendered value.
    pub value: String,
}

/// True when a row carries the given label and value.
pub open spec fn row_is(r: Row, label: Seq<char>, value: Seq<char>) -> bool {
    r.label@ == label && r.value@ == value
}

/// Renders a record as the fourteen label/value rows of the single-path
/// view, in their fixed order.
pub fn detail_rows(rec: &FileRecord) -> (rows: Vec<Row>)
    ensures
        rows@.len() == 14,
        row_is(rows@[0], "Name"@, rec.name@),
        row_is(rows@[1], "Type"@, spec_kind_label(rec.kind)),
        row_is(rows@[2], "Extension"@, rec.extension@),
        row_is(rows@[3], "Category"@, spec_category_label(rec.category)),
        row_is(rows@[4], "Unicode"@, spec_unicode_cell(rec.encoding)),
        row_is(rows@[5], "ASCII"@, spec_ascii_cell(rec.encoding)),
        row_is(rows@[6], "Size"@, spec_size_cell(rec.size_bytes)),
        row_is(rows@[7], "Created"@, spec_elapsed_cell(rec.created_secs_ago)),
        row_is(rows@[8], "Accessed"@, spec_elapsed_cell(rec.accessed_secs_ago)),
        row_is(rows@[9], "Modified"@, spec_elapsed_cell(rec.modified_secs_ago)),
        row_is(rows@[10], "Hidden"@, spec_yes_no(rec.attributes.hidden)),
        row_is(rows@[11], "System"@, spec_yes_no(rec.attributes.system)),
        row_is(rows@[12], "Temporary"@, spec_yes_no(rec.attributes.temporary)),
        row_is(rows@[13], "Readonly"@, spec_yes_no(rec.attributes.readonly)),
{
    let mut rows: Vec<Row> = Vec::new();
    rows.push(Row { label: String::from_str("Name"), value: rec.name.clone() });
    rows.push(Row { label: String::from_str("Type"), value: kind_label(rec.kind) });
    rows.push(Row { label: String::from_str("Extension"), value: rec.extension.clone() });
    rows.push(Row { label: String::from_str("Category"), value: category_label(rec.category) });
    let unicode_cell = match rec.encoding {
        None => String::from_str("-"),
        Some(e) => yes_no(!matches!(e, TextEncoding::Binary)),
    };
    rows.push(Row { label: String::from_str("Unicode"), value: unicode_cell });
    let ascii_cell = match rec.encoding {
        None => String::from_str("-"),
        Some(e) => yes_no(matches!(e, TextEncoding::AsciiText)),
    };
    rows.push(Row { label: String::from_str("ASCII"), value: ascii_cell });
    rows.push(Row {
        label: String::from_str("Size"),
        value: render_size(&humanize_size(rec.size_bytes)),
    });
    rows.push(Row {
        label: String::from_str("Created"),
        value: elapsed_cell(rec.created_secs_ago),
    });
    rows.push(Row {
        label: String::from_str("Accessed"),
        value: elapsed_cell(rec.accessed_secs_ago),
    });
    rows.push(Row {
        label: String::from_str("Modified"),
        value: elapsed_cell(rec.modified_secs_ago),
    });
    rows.push(Row { label: String::from_str("Hidden"), value: yes_no(rec.attributes.hidden) });
    rows.push(Row { label: String::from_str("System"), value: yes_no(rec.attributes.system) });
    rows.push(Row {
        label: String::from_str("Temporary"),
        value: yes_no(rec.attributes.temporary),
    });
    rows.push(Row { label: String::from_str("Readonly"), value: yes_no(rec.attributes.readonly) });
    rows
}

/// One five-cell row of the bulk view.
pub struct EntryRow {
    /// The entry's stem.
    pub name: String,
    /// The entry type's wording.
    pub kind: String,
    /// The entry's extension.
    pub extension: String,
    /// The category's wording.
    pub category: String,
    /// The encoding guess's wording; empty where no guess was made.
    pub encoding: String,
}

/// True when a bulk row renders the given record.
pub open spec fn entry_row_matches(row: EntryRow, rec: FileRecord) -> bool {
    &&& row.name@ == rec.name@
    &&& row.kind@ == spec_kind_label(rec.kind)
    &&& row.extension@ == rec.extension@
    &&& row.category@ == spec_category_label(rec.category)
    &&& row.encoding@ == match rec.encoding {
        None => ""@,
        Some(e) => spec_encoding_label(e),
    }
}

/// Renders one record as a row of the bulk view.
pub fn bulk_row(rec: &FileRecord) -> (row: EntryRow)
    ensures
        entry_row_matches(row, *rec),
{
    let encoding = match rec.encoding {
        None => String::from_str(""),
        Some(e) => encoding_label(e),
    };
    EntryRow {
        name: rec.name.clone(),
        kind: kind_label(rec.kind),
        extension: rec.extension.clone(),
        category: category_label(rec.category),
        encoding,
    }
}

/// The records that survived a bulk enumeration, in enumeration order.
pub open spec fn kept_records(s: Seq<Option<FileRecord>>) -> Seq<FileRecord>
    decreases s.len(),
{
    if s.len() == 0 {
        Seq::empty()
    } else {
        kept_records(s.drop_last()) + match s.last() {
            Some(r) => seq![r],
            None => Seq::empty(),
        }
    }
}

/// Renders the entries of a bulk enumeration: every readable entry becomes a
/// row, in enumeration order; every unreadable entry is skipped and counted,
/// and enumeration goes on. No row is discarded for a later failure.
pub fn collect_rows(entries: &Vec<Option<FileRecord>>) -> (r: (Vec<EntryRow>, usize))
    ensures
        r.0@.len() == kept_records(entries@).len(),
        r.0@.len() + r.1 == entries@.len(),
        forall|j: int|
            0 <= j < r.0@.len() ==> entry_row_matches(#[trigger] r.0@[j], kept_records(entries@)[j]),
{
    let mut rows: Vec<EntryRow> = Vec::new();
    let mut skipped: usize = 0;
    let mut i: usize = 0;
    while i < entries.len()
        invariant
            0 <= i <= entries@.len(),
            rows@.len() == kept_records(entries@.take(i as int)).len(),
            rows@.len() + skipped == i,
            forall|j: int|
                0 <= j < rows@.len() ==> entry_row_matches(
                    #[trigger] rows@[j],
                    kept_records(entries@.take(i as int))[j],
                ),
        decreases entries@.len() - i,
    {
        proof {
            assert(entries@.take(i + 1).drop_last() =~= entries@.take(i as int));
            assert(entries@.take(i + 1).last() == entries@[i as int]);
        }
        match &entries[i] {
            Some(rec) => {
                let row = bulk_row(rec);
                rows.push(row);
            },
            None => {
                skipped = skipped + 1;
            },
        }
        i = i + 1;
    }
    proof {
        assert(entries@.take(entries@.len() as int) =~= entries@);
    }
    (rows, skipped)
}

/// The message of the log-viewing command: the log's location and its whole
/// content, or a note that no log file exists yet at that location.
pub open spec fn spec_log_view(location: Seq<char>, content: Option<Seq<char>>) -> Seq<char> {
    match content {
        Some(c) => "Log location: "@ + location + "\n"@ + c,
        None => "No log file found: "@ + location,
    }
}

/// Renders the message of the log-viewing command.
pub fn log_view_message(location: &str, content: Option<&String>) -> (s: String)
    ensures
        s@ == spec_log_view(location@, match content {
            Some(c) => Some(c@),
            None => None,
        }),
{
    match content {
        Some(c) => {
            let mut s = String::from_str("Log location: ");
            s.append(location);
            s.append("\n");
            s.append(c.as_str());
            s
        },
        None => {
            let mut s = String::from_str("No log file found: ");
            s.append(location);
            s
        },
    }
}

} // verus!
