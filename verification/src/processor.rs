//! Per-file work: streaming a file's bytes through an incremental hash
//! accumulator and, on the first non-empty chunk, through the content
//! classifier; the terminal record a worker produces for each file.

use vstd::prelude::*;
use vstd::slice::{slice_subrange, slice_to_vec};
use vstd::utf8::{decode_utf8, valid_utf8};
use crate::content::{inspect_bytes, lemma_classify_truncate, spec_classify, ContentKind};
use crate::hashing::{
    hex_lower, sha1_absorbed, sha1_finalize, sha1_new, sha1_update, spec_file_hash,
};
use crate::text::utf8_to_string;

verus! {

/// The terminal record for one successfully read file: its rendered
/// hash, its classification (`None` for an empty file), and its raw
/// bytes when it was not classified as binary.
pub struct ParsedFile {
    hash: String,
    content_type: Option<ContentKind>,
    content: Vec<u8>,
}

impl ParsedFile {
    /// The rendered hash.
    pub closed spec fn spec_hash(self) -> Seq<char> {
        self.hash@
    }

    /// The classification, `None` when no byte was ever read.
    pub closed spec fn spec_content_type(self) -> Option<ContentKind> {
        self.content_type
    }

    /// The kept raw bytes.
    pub closed spec fn spec_content(self) -> Seq<u8> {
        self.content@
    }

    pub fn new(hash: String, content: Vec<u8>, content_type: Option<ContentKind>) -> (r: Self)
        ensures
            r.spec_hash() == hash@,
            r.spec_content() == content@,
            r.spec_content_type() == content_type,
    {
        Self { hash, content_type, content }
    }

    pub fn hash(&self) -> (r: &str)
        ensures
            r@ == self.spec_hash(),
    {
        self.hash.as_str()
    }

    pub fn content_type(&self) -> (r: Option<ContentKind>)
        ensures
            r == self.spec_content_type(),
    {
        self.content_type
    }

    /// The text handed to a downstream consumer: `None` for an empty or
    /// binary file (UTF-32 goes unconsumed too), else the kept bytes
    /// decoded as UTF-8, or nothing when they are not well-formed UTF-8.
    pub open spec fn spec_str_content(self) -> Option<Seq<char>> {
        match self.spec_content_type() {
            Option::None => Option::None,
            Option::Some(k) => match k {
                ContentKind::Binary => Option::None,
                ContentKind::Utf32Le => Option::None,
                ContentKind::Utf32Be => Option::None,
                _ => Option::Some(
                    if valid_utf8(self.spec_content()) {
                        decode_utf8(self.spec_content())
                    } else {
                        Seq::empty()
                    },
                ),
            },
        }
    }

    pub fn str_content(&self) -> (r: Option<String>)
        ensures
            r is Some <==> self.spec_str_content() is Some,
            r matches Some(s) ==> self.spec_str_content() matches Some(t) && s@ == t,
    {
        match self.content_type {
            Option::None => Option::None,
            Option::Some(k) => match k {
                ContentKind::Binary => Option::None,
                ContentKind::Utf32Le => Option::None,
                ContentKind::Utf32Be => Option::None,
                _ => match utf8_to_string(self.content.as_slice()) {
                    Option::Some(s) => Option::Some(s),
                    Option::None => Option::Some(String::new()),
                },
            },
        }
    }
}

/// The classification after one more chunk: fixed once set, set from
/// the first non-empty chunk, never set by an empty one.
pub open spec fn classification_after(
    k: Option<ContentKind>,
    chunk: Seq<u8>,
) -> Option<ContentKind> {
    if k is Some || chunk.len() == 0 {
        k
    } else {
        Option::Some(spec_classify(chunk))
    }
}

/// The kept bytes after one more chunk: a non-empty chunk of a file not
/// (or not yet) classified as binary is appended whole.
pub open spec fn kept_after(k: Option<ContentKind>, text: Seq<u8>, chunk: Seq<u8>) -> Seq<u8> {
    if chunk.len() > 0 && classification_after(k, chunk) != Option::Some(ContentKind::Binary) {
        text + chunk
    } else {
        text
    }
}

/// Streams one file's bytes chunk by chunk: every chunk is hashed; the
/// classification is taken from at most the first 1024 bytes of the
/// first non-empty chunk and never revised; the raw bytes of a file not
/// classified as binary are kept for downstream consumers.
pub struct FileAccumulator {
    hasher: sha1::Sha1,
    content_type: Option<ContentKind>,
    content: Vec<u8>,
}

impl FileAccumulator {
    /// All bytes fed so far.
    pub closed spec fn fed(self) -> Seq<u8> {
        sha1_absorbed(self.hasher)
    }

    /// The classification so far.
    pub closed spec fn kind(self) -> Option<ContentKind> {
        self.content_type
    }

    /// The bytes kept so far.
    pub closed spec fn text(self) -> Seq<u8> {
        self.content@
    }

    pub fn new() -> (r: Self)
        ensures
            r.fed() == Seq::<u8>::empty(),
            r.kind() is None,
            r.text() == Seq::<u8>::empty(),
    {
        Self { hasher: sha1_new(), content_type: Option::None, content: Vec::new() }
    }

    pub fn update(&mut self, chunk: &[u8])
        ensures
            final(self).fed() == old(self).fed() + chunk@,
            final(self).kind() == classification_after(old(self).kind(), chunk@),
            final(self).text() == kept_after(old(self).kind(), old(self).text(), chunk@),
    {
        sha1_update(&mut self.hasher, chunk);
        let n = chunk.len();
        if n > 0 {
            if self.content_type.is_none() {
                let scan: usize = if n > 1024 {
                    1024
                } else {
                    n
                };
                let prefix = slice_subrange(chunk, 0, scan);
                let k = inspect_bytes(prefix);
                proof {
                    if n > 1024 {
                        lemma_classify_truncate(chunk@);
                    } else {
                        assert(chunk@.take(n as int) =~= chunk@);
                    }
                }
                self.content_type = Option::Some(k);
            }
            let keeps = match self.content_type {
                Option::Some(ContentKind::Binary) => false,
                _ => true,
            };
            if keeps {
                let mut extra = slice_to_vec(chunk);
                self.content.append(&mut extra);
            }
        }
    }

    pub fn finish(self) -> (r: ParsedFile)
        ensures
            r.spec_hash() == spec_file_hash(self.fed()),
            r.spec_content_type() == self.kind(),
            r.spec_content() == self.text(),
    {
        let digest = sha1_finalize(self.hasher);
        let hash = hex_lower(&digest);
        ParsedFile::new(hash, self.content, self.content_type)
    }
}

/// The bytes of the first `k` chunks, in order.
pub open spec fn cat_chunks(chunks: Seq<Seq<u8>>, k: int) -> Seq<u8>
    decreases k,
{
    if k <= 0 {
        Seq::empty()
    } else {
        cat_chunks(chunks, k - 1) + chunks[k - 1]
    }
}

/// The classification after the first `k` chunks.
pub open spec fn classify_chunks(chunks: Seq<Seq<u8>>, k: int) -> Option<ContentKind>
    decreases k,
{
    if k <= 0 {
        Option::None
    } else {
        classification_after(classify_chunks(chunks, k - 1), chunks[k - 1])
    }
}

/// The kept bytes after the first `k` chunks.
pub open spec fn kept_chunks(chunks: Seq<Seq<u8>>, k: int) -> Seq<u8>
    decreases k,
{
    if k <= 0 {
        Seq::empty()
    } else {
        kept_after(classify_chunks(chunks, k - 1), kept_chunks(chunks, k - 1), chunks[k - 1])
    }
}

/// Processes one whole file, its bytes given as the chunks a reader
/// produced in order, and returns its terminal record. Opening and
/// reading the file — and turning a read failure into a skip — is the
/// caller's business.
pub fn process(chunks: &Vec<Vec<u8>>) -> (r: ParsedFile)
    ensures
        r.spec_hash() == spec_file_hash(cat_chunks(chunks.deep_view(), chunks@.len() as int)),
        r.spec_content_type() == classify_chunks(chunks.deep_view(), chunks@.len() as int),
        r.spec_content() == kept_chunks(chunks.deep_view(), chunks@.len() as int),
{
    let mut acc = FileAccumulator::new();
    let mut i: usize = 0;
    while i < chunks.len()
        invariant
            i <= chunks.len(),
            acc.fed() == cat_chunks(chunks.deep_view(), i as int),
            acc.kind() == classify_chunks(chunks.deep_view(), i as int),
            acc.text() == kept_chunks(chunks.deep_view(), i as int),
        decreases chunks.len() - i,
    {
        proof {
            assert(chunks.deep_view()[i as int] == chunks@[i as int]@);
        }
        acc.update(chunks[i].as_slice());
        i = i + 1;
    }
    acc.finish()
}

} // verus!
