//! The marshaling layer: between native UTF-8 text and the C calling
//! convention's null-terminated byte buffers.
//!
//! Contracts here are stated against vstd's UTF-8 model (`encode_utf8`,
//! `decode_utf8`, `valid_utf8`), so the round trip from native text through
//! the C representation and back is a theorem, not a convention.

use vstd::prelude::*;
use vstd::slice::slice_to_vec;
use vstd::string::StringSliceAdditionalSpecFns;
use vstd::utf8::{decode_utf8, encode_utf8, encode_utf8_decode_utf8, encode_utf8_valid_utf8, valid_utf8};
use crate::errors::DucklingError;

verus! {

/// Native text has a C-string representation exactly when its UTF-8
/// encoding contains no null byte.
pub open spec fn text_marshalable(s: Seq<char>) -> bool {
    !encode_utf8(s).contains(0u8)
}

/// Whether `bytes` holds a null byte; the exec mirror of `Seq::contains`.
fn contains_nul(bytes: &[u8]) -> (r: bool)
    ensures
        r == bytes@.contains(0u8),
{
    let n = bytes.len();
    let mut i: usize = 0;
    while i < n
        invariant
            n == bytes@.len(),
            0 <= i <= n,
            forall|j: int| 0 <= j < i ==> bytes@[j] != 0u8,
        decreases n - i,
    {
        if bytes[i] == 0 {
            assert(bytes@.contains(0u8)) by {
                assert(bytes@[i as int] == 0u8);
            }
            return true;
        }
        i = i + 1;
    }
    false
}

/// A null-terminated byte buffer ready to cross the C boundary: the
/// content bytes, none of which is null, followed by one null terminator.
///
/// The buffer is owned on the native side; while a `CText` is alive, the
/// backing bytes stay alive, so a foreign call may read them for its whole
/// duration.
#[derive(Debug)]
pub struct CText {
    bytes: Vec<u8>,
}

impl CText {
    /// The whole buffer, terminator included.
    pub closed spec fn all_bytes(self) -> Seq<u8> {
        self.bytes@
    }

    /// The content bytes, without the terminator.
    pub open spec fn content(self) -> Seq<u8> {
        self.all_bytes().drop_last()
    }

    /// Well-formedness: non-empty, null-terminated, no interior null.
    pub open spec fn wf(self) -> bool {
        &&& self.all_bytes().len() >= 1
        &&& self.all_bytes().last() == 0u8
        &&& forall|i: int| 0 <= i < self.all_bytes().len() - 1 ==> self.all_bytes()[i] != 0u8
    }

    /// Converts native text into its C representation; fails exactly when
    /// the text's UTF-8 encoding holds an embedded null byte, and fails
    /// before any buffer is handed anywhere.
    pub fn from_native(s: &str) -> (r: Result<CText, DucklingError>)
        ensures
            r is Ok <==> text_marshalable(s@),
            r matches Ok(t) ==> t.wf() && t.content() == encode_utf8(s@),
            r is Err ==> r == Err::<CText, DucklingError>(DucklingError::InvalidText),
    {
        let raw = s.as_bytes();
        if contains_nul(raw) {
            return Err(DucklingError::InvalidText);
        }
        let mut bytes = slice_to_vec(raw);
        bytes.push(0);
        let t = CText { bytes };
        proof {
            assert(t.content() =~= encode_utf8(s@));
        }
        Ok(t)
    }

    /// Adopts content bytes that arrived from elsewhere (for instance read
    /// back from a foreign C string); fails exactly when they hold a null
    /// byte.
    pub fn from_content_bytes(content: Vec<u8>) -> (r: Result<CText, DucklingError>)
        ensures
            r is Ok <==> !content@.contains(0u8),
            r matches Ok(t) ==> t.wf() && t.content() == content@,
            r is Err ==> r == Err::<CText, DucklingError>(DucklingError::InvalidText),
    {
        if contains_nul(content.as_slice()) {
            return Err(DucklingError::InvalidText);
        }
        let ghost orig = content@;
        let mut bytes = content;
        bytes.push(0);
        let t = CText { bytes };
        proof {
            assert(t.content() =~= orig);
        }
        Ok(t)
    }

    /// The whole buffer, terminator included, as the foreign side will
    /// read it.
    pub fn terminated(&self) -> (r: &Vec<u8>)
        ensures
            r@ == self.all_bytes(),
    {
        &self.bytes
    }

    /// A fresh copy of the content bytes, without the terminator.
    pub fn content_bytes(&self) -> (r: Vec<u8>)
        requires
            self.wf(),
        ensures
            r@ == self.content(),
    {
        let n = self.bytes.len();
        let mut out: Vec<u8> = Vec::new();
        let mut i: usize = 0;
        while i < n - 1
            invariant
                self.wf(),
                n == self.all_bytes().len(),
                n >= 1,
                0 <= i <= n - 1,
                out@ == self.all_bytes().subrange(0, i as int),
            decreases n - 1 - i,
        {
            let b = self.bytes[i];
            out.push(b);
            proof {
                assert(out@ =~= self.all_bytes().subrange(0, i + 1));
            }
            i = i + 1;
        }
        proof {
            assert(out@ =~= self.content());
        }
        out
    }
}

/// Converts an ordered list of native strings into its foreign shape: one
/// C buffer per element, every element under the null-byte rule, order
/// preserved.  Fails exactly when some element's UTF-8 encoding holds an
/// embedded null byte, and then before any buffer is handed anywhere; on
/// success the i-th buffer's content is exactly the encoding of the i-th
/// input.
pub fn marshal_texts(texts: &Vec<String>) -> (r: Result<Vec<CText>, DucklingError>)
    ensures
        r is Ok <==> (forall|k: int| 0 <= k < texts@.len() ==> text_marshalable(#[trigger] texts@[k]@)),
        r matches Ok(cs) ==> cs@.len() == texts@.len() && (forall|k: int|
            0 <= k < texts@.len() ==> (#[trigger] cs@[k]).wf() && cs@[k].content() == encode_utf8(
                texts@[k]@,
            )),
        r is Err ==> r == Err::<Vec<CText>, DucklingError>(DucklingError::InvalidText),
{
    let n = texts.len();
    let mut out: Vec<CText> = Vec::new();
    let mut i: usize = 0;
    while i < n
        invariant
            n == texts@.len(),
            0 <= i <= n,
            out@.len() == i,
            forall|k: int| 0 <= k < i ==> text_marshalable(#[trigger] texts@[k]@),
            forall|k: int| 0 <= k < i ==> (#[trigger] out@[k]).wf() && out@[k].content()
                == encode_utf8(texts@[k]@),
        decreases n - i,
    {
        match CText::from_native(texts[i].as_str()) {
            Ok(t) => {
                out.push(t);
            },
            Err(e) => {
                proof {
                    assert(!text_marshalable(texts@[i as int]@));
                }
                return Err(e);
            },
        }
        i = i + 1;
    }
    Ok(out)
}

/// What `String::from_utf8_lossy` makes of a byte sequence: a pure
/// function of the bytes alone, named here so that contracts can speak of
/// it without writing out the replacement-character algorithm.
pub uninterp spec fn lossy_decoded(bytes: Seq<u8>) -> Seq<char>;

/// Relies on `String::from_utf8`: it succeeds exactly on valid UTF-8 and
/// then returns the decoding of the bytes.
#[verifier::external_body]
fn decode_strict(bytes: Vec<u8>) -> (r: Option<String>)
    ensures
        r is Some <==> valid_utf8(bytes@),
        r matches Some(s) ==> s@ == decode_utf8(bytes@),
{
    String::from_utf8(bytes).ok()
}

/// Relies on `String::from_utf8_lossy`: the result depends on the bytes
/// alone; on valid UTF-8 it coincides with strict decoding; and it drops
/// no input — the result is empty exactly when the bytes are (an invalid
/// sequence becomes a replacement character, never nothing).
#[verifier::external_body]
pub(crate) fn decode_lossy(bytes: &Vec<u8>) -> (r: String)
    ensures
        r@ == lossy_decoded(bytes@),
        valid_utf8(bytes@) ==> r@ == decode_utf8(bytes@),
        bytes@.len() == 0 <==> r@.len() == 0,
{
    String::from_utf8_lossy(bytes.as_slice()).into_owned()
}

/// A caller-owned string in its foreign-facing representation.
///
/// This is the one handle a caller may construct directly from native
/// text.  Its buffer is released at most once, whether by the explicit
/// [`ManagedString::clear`] or by a finalizer driving the same method; its
/// accessor decodes strictly and refuses bytes that are not valid UTF-8.
#[derive(Debug)]
pub struct ManagedString {
    text: CText,
    released: bool,
}

impl ManagedString {
    /// The content bytes the string holds.
    pub closed spec fn content(self) -> Seq<u8> {
        self.text.content()
    }

    /// Whether the buffer was already released.
    pub closed spec fn cleared(self) -> bool {
        self.released
    }

    /// Well-formedness of the underlying buffer.
    pub closed spec fn wf(self) -> bool {
        self.text.wf()
    }

    /// Constructs the foreign representation of native text; fails exactly
    /// when the text's UTF-8 encoding holds an embedded null byte, before
    /// any buffer exists.
    pub fn new(s: &str) -> (r: Result<ManagedString, DucklingError>)
        ensures
            r is Ok <==> text_marshalable(s@),
            r matches Ok(m) ==> m.wf() && !m.cleared() && m.content() == encode_utf8(s@),
            r is Err ==> r == Err::<ManagedString, DucklingError>(DucklingError::InvalidText),
    {
        match CText::from_native(s) {
            Ok(text) => Ok(ManagedString { text, released: false }),
            Err(e) => Err(e),
        }
    }

    /// Adopts bytes that the foreign side handed back as a C string; fails
    /// exactly when they hold a null byte.
    pub fn from_foreign_bytes(content: Vec<u8>) -> (r: Result<ManagedString, DucklingError>)
        ensures
            r is Ok <==> !content@.contains(0u8),
            r matches Ok(m) ==> m.wf() && !m.cleared() && m.content() == content@,
            r is Err ==> r == Err::<ManagedString, DucklingError>(DucklingError::InvalidText),
    {
        match CText::from_content_bytes(content) {
            Ok(text) => Ok(ManagedString { text, released: false }),
            Err(e) => Err(e),
        }
    }

    /// Whether the buffer was already released.
    pub fn is_cleared(&self) -> (b: bool)
        ensures
            b == self.cleared(),
    {
        self.released
    }

    /// Decodes the held bytes back into native text, strictly: fails with
    /// an encoding error exactly when they are not valid UTF-8.
    pub fn value(&self) -> (r: Result<String, DucklingError>)
        requires
            !self.cleared(),
            self.wf(),
        ensures
            r is Ok <==> valid_utf8(self.content()),
            r matches Ok(s) ==> s@ == decode_utf8(self.content()),
            r is Err ==> r == Err::<String, DucklingError>(DucklingError::Encoding),
    {
        let bytes = self.text.content_bytes();
        match decode_strict(bytes) {
            Some(s) => Ok(s),
            None => Err(DucklingError::Encoding),
        }
    }

    /// Releases the buffer; the release happens on the first call alone,
    /// and the returned flag says whether this call was the one that fired.
    pub fn clear(&mut self) -> (fired: bool)
        requires
            old(self).wf(),
        ensures
            final(self).cleared(),
            final(self).wf(),
            fired == !old(self).cleared(),
    {
        if self.released {
            return false;
        }
        self.released = true;
        self.text = CText { bytes: vec![0u8] };
        proof {
            assert(self.text.all_bytes() =~= seq![0u8]);
        }
        true
    }
}

/// Law: converting native text `s` whose encoding holds no null byte into
/// its C representation and decoding that representation strictly yields
/// exactly `s` — the round trip of [`ManagedString::new`] followed by
/// [`ManagedString::value`].
pub proof fn lemma_text_round_trip(s: Seq<char>)
    ensures
        valid_utf8(encode_utf8(s)),
        decode_utf8(encode_utf8(s)) == s,
{
    encode_utf8_valid_utf8(s);
    encode_utf8_decode_utf8(s);
}

} // verus!
