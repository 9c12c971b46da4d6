//! Inspect one filesystem entry (or all entries of a directory) and report
//! descriptive metadata: name, kind, extension, a content category derived
//! from the extension, an encoding guess, a human-scaled size, relative
//! timestamps, and platform attribute flags.
//!
//! The crate holds the verified core: the extension classifier, the two
//! human-readable converters (byte size and elapsed time), the text-encoding
//! detector, file-name splitting, record assembly, the presenter, and the
//! error policy. Everything here is a stateless transformation over plain
//! values; reading the values from the operating system is left to the
//! program around the library.

pub mod category;
pub mod digits;
pub mod elapsed;
pub mod encoding;
pub mod filename;
pub mod errors;
pub mod present;
pub mod record;
pub mod size;
