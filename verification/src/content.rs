//! Coarse content-type classification of a byte buffer.
//!
//! The classification looks for a byte order mark, then for a null byte
//! within the first 1024 bytes, then for two magic numbers; everything
//! else counts as plain UTF-8 text. The actual scan is done by the
//! `content_inspector` crate; `spec_classify` states the same decision
//! procedure over a byte sequence, and the wrapper's contract ties the
//! two together.

use vstd::prelude::*;

verus! {

/// Content classification tag, one per tag that `content_inspector`
/// can assign.
#[derive(Clone, Copy, Debug, PartialEq, Eq, Structural)]
pub enum ContentKind {
    Binary,
    Utf8,
    Utf8Bom,
    Utf16Le,
    Utf16Be,
    Utf32Le,
    Utf32Be,
}

/// True when `b` begins with the prefix `p`.
pub open spec fn starts_with_bytes(b: Seq<u8>, p: Seq<u8>) -> bool {
    p.len() <= b.len() && b.take(p.len() as int) == p
}

/// True when a null byte occurs among the first 1024 bytes of `b`.
pub open spec fn has_early_zero_byte(b: Seq<u8>) -> bool {
    exists|i: int| 0 <= i < b.len() && i < 1024 && b[i] == 0u8
}

/// The classification decision, in the order the scan applies its rules:
/// byte order marks first (UTF-32 before UTF-16, since their marks
/// overlap), then the null-byte scan, then the two binary magic numbers
/// (PDF and PNG), and UTF-8 for everything else. The empty buffer is
/// UTF-8.
pub open spec fn spec_classify(b: Seq<u8>) -> ContentKind {
    if starts_with_bytes(b, seq![0xEFu8, 0xBBu8, 0xBFu8]) {
        ContentKind::Utf8Bom
    } else if starts_with_bytes(b, seq![0x00u8, 0x00u8, 0xFEu8, 0xFFu8]) {
        ContentKind::Utf32Be
    } else if starts_with_bytes(b, seq![0xFFu8, 0xFEu8, 0x00u8, 0x00u8]) {
        ContentKind::Utf32Le
    } else if starts_with_bytes(b, seq![0xFEu8, 0xFFu8]) {
        ContentKind::Utf16Be
    } else if starts_with_bytes(b, seq![0xFFu8, 0xFEu8]) {
        ContentKind::Utf16Le
    } else if has_early_zero_byte(b) {
        ContentKind::Binary
    } else if starts_with_bytes(b, seq![0x25u8, 0x50u8, 0x44u8, 0x46u8]) {
        ContentKind::Binary
    } else if starts_with_bytes(b, seq![0x89u8, 0x50u8, 0x4Eu8, 0x47u8]) {
        ContentKind::Binary
    } else {
        ContentKind::Utf8
    }
}

/// Relies on `content_inspector::inspect`: it returns the tag of the
/// first matching byte order mark (UTF-8 BOM, then UTF-32, then UTF-16),
/// else BINARY when a null byte lies in the first 1024 bytes or the
/// buffer starts with the PDF or PNG magic number, else UTF-8.
#[verifier::external_body]
pub(crate) fn inspect_bytes(buffer: &[u8]) -> (r: ContentKind)
    ensures
        r == spec_classify(buffer@),
{
    match content_inspector::inspect(buffer) {
        content_inspector::ContentType::BINARY => ContentKind::Binary,
        content_inspector::ContentType::UTF_8 => ContentKind::Utf8,
        content_inspector::ContentType::UTF_8_BOM => ContentKind::Utf8Bom,
        content_inspector::ContentType::UTF_16LE => ContentKind::Utf16Le,
        content_inspector::ContentType::UTF_16BE => ContentKind::Utf16Be,
        content_inspector::ContentType::UTF_32LE => ContentKind::Utf32Le,
        content_inspector::ContentType::UTF_32BE => ContentKind::Utf32Be,
    }
}

proof fn lemma_starts_with_take(b: Seq<u8>, p: Seq<u8>, n: int)
    requires
        p.len() <= n <= b.len(),
    ensures
        starts_with_bytes(b.take(n), p) == starts_with_bytes(b, p),
{
    assert(b.take(n).take(p.len() as int) =~= b.take(p.len() as int));
}

proof fn lemma_zero_byte_take(b: Seq<u8>)
    requires
        b.len() >= 1024,
    ensures
        has_early_zero_byte(b.take(1024)) == has_early_zero_byte(b),
{
    if has_early_zero_byte(b) {
        let i = choose|i: int| 0 <= i < b.len() && i < 1024 && b[i] == 0u8;
        assert(b.take(1024)[i] == 0u8);
    }
    if has_early_zero_byte(b.take(1024)) {
        let i = choose|i: int|
            0 <= i < b.take(1024).len() && i < 1024 && b.take(1024)[i] == 0u8;
        assert(b[i] == 0u8);
    }
}

/// The classification looks at the first 1024 bytes alone: a buffer and
/// its 1024-byte truncation classify alike.
pub proof fn lemma_classify_truncate(b: Seq<u8>)
    requires
        b.len() >= 1024,
    ensures
        spec_classify(b.take(1024)) == spec_classify(b),
{
    lemma_starts_with_take(b, seq![0xEFu8, 0xBBu8, 0xBFu8], 1024);
    lemma_starts_with_take(b, seq![0x00u8, 0x00u8, 0xFEu8, 0xFFu8], 1024);
    lemma_starts_with_take(b, seq![0xFFu8, 0xFEu8, 0x00u8, 0x00u8], 1024);
    lemma_starts_with_take(b, seq![0xFEu8, 0xFFu8], 1024);
    lemma_starts_with_take(b, seq![0xFFu8, 0xFEu8], 1024);
    lemma_zero_byte_take(b);
    lemma_starts_with_take(b, seq![0x25u8, 0x50u8, 0x44u8, 0x46u8], 1024);
    lemma_starts_with_take(b, seq![0x89u8, 0x50u8, 0x4Eu8, 0x47u8], 1024);
}

/// Two buffers that agree on their first 1024 bytes classify alike:
/// what a file holds past that prefix never changes its tag.
pub proof fn lemma_classify_first_1024_agree(b1: Seq<u8>, b2: Seq<u8>)
    requires
        b1.len() >= 1024,
        b2.len() >= 1024,
        b1.take(1024) == b2.take(1024),
    ensures
        spec_classify(b1) == spec_classify(b2),
{
    lemma_classify_truncate(b1);
    lemma_classify_truncate(b2);
}

impl ContentKind {
    /// The tag's name as it appears in a result line.
    pub open spec fn spec_label(&self) -> Seq<char> {
        match self {
            ContentKind::Binary => "BINARY"@,
            ContentKind::Utf8 => "UTF_8"@,
            ContentKind::Utf8Bom => "UTF_8_BOM"@,
            ContentKind::Utf16Le => "UTF_16LE"@,
            ContentKind::Utf16Be => "UTF_16BE"@,
            ContentKind::Utf32Le => "UTF_32LE"@,
            ContentKind::Utf32Be => "UTF_32BE"@,
        }
    }

    /// The tag's name as it appears in a result line.
    pub fn label(&self) -> (r: String)
        ensures
            r@ == self.spec_label(),
    {
        match self {
            ContentKind::Binary => String::from_str("BINARY"),
            ContentKind::Utf8 => String::from_str("UTF_8"),
            ContentKind::Utf8Bom => String::from_str("UTF_8_BOM"),
            ContentKind::Utf16Le => String::from_str("UTF_16LE"),
            ContentKind::Utf16Be => String::from_str("UTF_16BE"),
            ContentKind::Utf32Le => String::from_str("UTF_32LE"),
            ContentKind::Utf32Be => String::from_str("UTF_32BE"),
        }
    }
}

} // verus!
