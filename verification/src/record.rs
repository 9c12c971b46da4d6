//! The record of one query: the snapshot of a filesystem entry's metadata,
//! assembled once from plain values, rendered, and discarded. The category is
//! always derived from the extension, and an encoding guess is carried only
//! for regular files.

use vstd::prelude::*;

use crate::category::{classify, spec_classify, Category};
use crate::encoding::{encoding_of, spec_encoding_of, TextEncoding};
use crate::filename::{spec_ext, spec_stem, split_file_name};

verus! {

/// The filesystem entry type.
#[derive(Clone, Copy, Debug, PartialEq, Eq, Structural)]
pub enum FileKind {
    File,
    Directory,
    Symlink,
    Unknown,
}

/// The entry type, decided from the three filesystem type queries in the
/// order they are asked: file first, then directory, then symlink.
pub open spec fn spec_kind_from_flags(is_file: bool, is_dir: bool, is_symlink: bool) -> FileKind {
    if is_file {
        FileKind::File
    } else if is_dir {
        FileKind::Directory
    } else if is_symlink {
        FileKind::Symlink
    } else {
        FileKind::Unknown
    }
}

/// Decides the entry type from the three filesystem type queries.
pub fn kind_from_flags(is_file: bool, is_dir: bool, is_symlink: bool) -> (k: FileKind)
    ensures
        k == spec_kind_from_flags(is_file, is_dir, is_symlink),
{
    if is_file {
        FileKind::File
    } else if is_dir {
        FileKind::Directory
    } else if is_symlink {
        FileKind::Symlink
    } else {
        FileKind::Unknown
    }
}

/// The platform attribute flags of an entry; all false where the platform
/// has no such concept.
#[derive(Clone, Copy, Debug, PartialEq, Eq, Structural)]
pub struct AttributeFlags {
    pub hidden: bool,
    pub system: bool,
    pub temporary: bool,
    pub readonly: bool,
}

/// True when the hidden bit is set in a platform attribute word.
pub fn is_hidden(attributes: u32) -> (r: bool)
    ensures
        r == ((attributes & 0x2) != 0),
{
    (attributes & 0x2) > 0
}

/// True when the system bit is set in a platform attribute word.
pub fn is_systemfile(attributes: u32) -> (r: bool)
    ensures
        r == ((attributes & 0x4) != 0),
{
    (attributes & 0x4) > 0
}

/// True when the temporary bit is set in a platform attribute word.
pub fn is_temporary(attributes: u32) -> (r: bool)
    ensures
        r == ((attributes & 0x100) != 0),
{
    (attributes & 0x100) > 0
}

/// Reads the attribute flags out of a platform attribute word, where the
/// platform supplies one, and the read-only permission bit.
pub fn attributes_from_bits(bits: Option<u32>, readonly: bool) -> (a: AttributeFlags)
    ensures
        a.readonly == readonly,
        match bits {
            Some(b) => a.hidden == ((b & 0x2) != 0) && a.system == ((b & 0x4) != 0)
                && a.temporary == ((b & 0x100) != 0),
            None => !a.hidden && !a.system && !a.temporary,
        },
{
    match bits {
        Some(b) => AttributeFlags {
            hidden: is_hidden(b),
            system: is_systemfile(b),
            temporary: is_temporary(b),
            readonly,
        },
        None => AttributeFlags { hidden: false, system: false, temporary: false, readonly },
    }
}

/// The snapshot of one filesystem entry, ready for rendering.
pub struct FileRecord {
    /// The final component's stem; empty when undeterminable.
    pub name: String,
    /// The entry type.
    pub kind: FileKind,
    /// The final component's extension; empty when there is none.
    pub extension: String,
    /// The category derived from the extension.
    pub category: Category,
    /// The encoding guess; present only for regular files whose content
    /// could be read.
    pub encoding: Option<TextEncoding>,
    /// The entry's size in bytes.
    pub size_bytes: u64,
    /// Whole seconds since creation, where the platform supplies it.
    pub created_secs_ago: Option<u64>,
    /// Whole seconds since the last access, where the platform supplies it.
    pub accessed_secs_ago: Option<u64>,
    /// Whole seconds since the last modification, where the platform
    /// supplies it.
    pub modified_secs_ago: Option<u64>,
    /// The platform attribute flags.
    pub attributes: AttributeFlags,
}

impl FileRecord {
    /// A record is well formed when its category is the one its extension
    /// classifies to, and an encoding guess is carried only for regular
    /// files.
    pub open spec fn wf(self) -> bool {
        &&& self.category == spec_classify(self.extension@)
        &&& (self.kind != FileKind::File ==> self.encoding is None)
    }
}

/// Assembles the record of one entry from the plain values read off the
/// operating system: the path's final component, the entry type, the file's
/// content where it is a readable regular file, the size, the elapsed
/// seconds of the three timestamps where supplied, and the attribute flags.
pub fn build_record(
    component: &str,
    kind: FileKind,
    content: Option<&Vec<u8>>,
    size_bytes: u64,
    created_secs_ago: Option<u64>,
    accessed_secs_ago: Option<u64>,
    modified_secs_ago: Option<u64>,
    attributes: AttributeFlags,
) -> (r: FileRecord)
    ensures
        r.name@ == spec_stem(component@),
        r.extension@ == spec_ext(component@),
        r.category == spec_classify(spec_ext(component@)),
        r.kind == kind,
        kind == FileKind::File && content is Some ==> r.encoding == Some(
            spec_encoding_of(content.unwrap()@),
        ),
        kind != FileKind::File || content is None ==> r.encoding is None,
        r.size_bytes == size_bytes,
        r.created_secs_ago == created_secs_ago,
        r.accessed_secs_ago == accessed_secs_ago,
        r.modified_secs_ago == modified_secs_ago,
        r.attributes == attributes,
        r.wf(),
{
    let (name, extension) = split_file_name(component);
    let category = classify(extension.as_str());
    let encoding = match (kind, content) {
        (FileKind::File, Some(bytes)) => Some(encoding_of(bytes.as_slice())),
        _ => None,
    };
    FileRecord {
        name,
        kind,
        extension,
        category,
        encoding,
        size_bytes,
        created_secs_ago,
        accessed_secs_ago,
        modified_secs_ago,
        attributes,
    }
}

} // verus!
