//! A correctness-critical reader for the fixed-column header of the
//! Molfile/CTfile family of chemical-structure formats.
//!
//! Every field of the header has a format-mandated column width with strict
//! padding and sign rules; a shifted column silently changes the chemistry a
//! downstream tool sees.  The crate therefore models each field as a small
//! state machine consuming one printable symbol at a time, and proves that
//! the streaming reader drives those machines exactly as their mathematical
//! models prescribe.

pub mod molfile;
pub mod primitive;
pub mod protocol;
pub mod read;
pub mod text;
