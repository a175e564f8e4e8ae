//! Source positions and item metadata.

use crate::ids::FileId;
use vstd::prelude::*;

verus! {

/// A position inside a file.
#[derive(Debug, Clone, Copy, PartialEq, Eq, Structural, Hash)]
pub struct Loc {
    /// The (1-based) line number.
    pub line: usize,
    /// The (0-based) column offset.
    pub col: usize,
}

/// A span inside a file. Spans store the file id, not the file name: the
/// id-to-name table lives in the translation context and is exported once.
#[derive(Debug, Clone, Copy, PartialEq, Eq, Structural, Hash)]
pub struct Span {
    pub file_id: FileId,
    pub beg: Loc,
    pub end: Loc,
}

/// Diagnostic-position metadata attached to statements and declarations.
#[derive(Debug, Clone, Copy, PartialEq, Eq, Structural, Hash)]
pub struct Meta {
    /// The span of the item in its source file.
    pub span: Span,
    /// For an item that stands in for code written elsewhere, the span of
    /// that original site.
    pub generated_from_span: Option<Span>,
}

/// The name of a source file.
#[derive(Debug, Clone)]
pub enum FileName {
    /// A file that does not exist on disk (e.g., generated by a macro).
    Virtual(String),
    /// A path to a local file.
    Local(String),
    /// A name that does not correspond to a file path.
    NotReal(String),
}

/// Metadata attached to a declaration.
#[derive(Debug, Clone)]
pub struct ItemMeta {
    pub meta: Meta,
    /// The raw attributes found on the declaration.
    pub attributes: Vec<String>,
}

/// Order on locations: by line, then by column.
pub open spec fn loc_le(a: Loc, b: Loc) -> bool {
    a.line < b.line || (a.line == b.line && a.col <= b.col)
}

/// The smaller of two locations.
pub fn loc_min(a: Loc, b: Loc) -> (r: Loc)
    ensures
        r == (if loc_le(a, b) {
            a
        } else {
            b
        }),
{
    if a.line < b.line || (a.line == b.line && a.col <= b.col) {
        a
    } else {
        b
    }
}

/// The larger of two locations.
pub fn loc_max(a: Loc, b: Loc) -> (r: Loc)
    ensures
        r == (if loc_le(a, b) {
            b
        } else {
            a
        }),
{
    if a.line < b.line || (a.line == b.line && a.col <= b.col) {
        b
    } else {
        a
    }
}

/// What combining two metas yields: if both spans lie in the same file, the
/// hull of the two spans; otherwise the first meta's span. The
/// generated-from information is not meaningful for a combined span and is
/// dropped.
pub open spec fn spec_combine_meta(m0: Meta, m1: Meta) -> Meta {
    if m0.span.file_id == m1.span.file_id {
        Meta {
            span: Span {
                file_id: m0.span.file_id,
                beg: if loc_le(m0.span.beg, m1.span.beg) {
                    m0.span.beg
                } else {
                    m1.span.beg
                },
                end: if loc_le(m0.span.end, m1.span.end) {
                    m1.span.end
                } else {
                    m0.span.end
                },
            },
            generated_from_span: None,
        }
    } else {
        Meta { span: m0.span, generated_from_span: None }
    }
}

/// Combine the metadata of two adjacent statements into the metadata of the
/// statement that replaces them.
pub fn combine_meta(m0: &Meta, m1: &Meta) -> (r: Meta)
    ensures
        r == spec_combine_meta(*m0, *m1),
{
    if m0.span.file_id.index == m1.span.file_id.index {
        Meta {
            span: Span {
                file_id: m0.span.file_id,
                beg: loc_min(m0.span.beg, m1.span.beg),
                end: loc_max(m0.span.end, m1.span.end),
            },
            generated_from_span: None,
        }
    } else {
        Meta { span: m0.span, generated_from_span: None }
    }
}

} // verus!
