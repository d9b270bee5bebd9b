//! Canonical SHA-256 digests.

use vstd::prelude::*;
use crate::text::Text;

verus! {

/// The number of hexadecimal digits in a canonical digest.
pub const HEX_LENGTH: usize = 64;

/// Whether `c` is a lower-case hexadecimal digit.
pub open spec fn is_hex_digit(c: char) -> bool {
    ('0' <= c && c <= '9') || ('a' <= c && c <= 'f')
}

/// Whether `text` is the canonical form of a digest.
pub open spec fn is_canonical_digest(text: Seq<char>) -> bool {
    &&& text.len() == HEX_LENGTH
    &&& forall|i: int| 0 <= i < text.len() ==> is_hex_digit(#[trigger] text[i])
}

/// A SHA-256 digest in canonical form.
#[derive(Debug)]
pub struct Sha256Digest {
    hex: Text,
}

impl View for Sha256Digest {
    type V = Seq<char>;

    closed spec fn view(&self) -> Seq<char> {
        self.hex@
    }
}

impl PartialEq for Sha256Digest {
    fn eq(&self, other: &Self) -> (r: bool) {
        self.hex == other.hex
    }
}

impl Eq for Sha256Digest {
}

impl vstd::std_specs::cmp::PartialEqSpecImpl for Sha256Digest {
    open spec fn obeys_eq_spec() -> bool {
        true
    }

    open spec fn eq_spec(&self, other: &Self) -> bool {
        self@ == other@
    }
}

impl Clone for Sha256Digest {
    fn clone(&self) -> (r: Self)
        ensures
            r == *self,
    {
        proof {
            use_type_invariant(self);
        }
        Sha256Digest { hex: self.hex.clone() }
    }
}

impl Sha256Digest {
    #[verifier::type_invariant]
    spec fn canonical(self) -> bool {
        is_canonical_digest(self.hex@)
    }

    /// The digest that `text` writes.
    pub closed spec fn written_as(text: Text) -> Sha256Digest {
        Sha256Digest { hex: text }
    }

    /// A digest reads as it was written.
    pub proof fn lemma_reads_as_written(text: Text)
        ensures
            Sha256Digest::written_as(text)@ == text@,
    {
    }

    /// What `text` reads as: a digest exactly where it is the canonical form of one.
    pub open spec fn read_in(text: Text) -> Option<Sha256Digest> {
        if is_canonical_digest(text@) {
            Some(Sha256Digest::written_as(text))
        } else {
            None
        }
    }

    /// Reads a digest; `None` exactly where the text is not its canonical form.
    pub fn parse(text: &Text) -> (r: Option<Sha256Digest>)
        ensures
            r == Sha256Digest::read_in(*text),
            r is Some <==> is_canonical_digest(text@),
            r matches Some(digest) ==> digest@ == text@,
    {
        let length = text.value.as_str().unicode_len();
        if length != HEX_LENGTH {
            return None;
        }
        let mut i: usize = 0;
        while i < length
            invariant
                length == text@.len(),
                length == HEX_LENGTH,
                i <= length,
                forall|j: int| 0 <= j < i ==> is_hex_digit(#[trigger] text@[j]),
            decreases length - i,
        {
            let c = text.value.as_str().get_char(i);
            if !(('0' <= c && c <= '9') || ('a' <= c && c <= 'f')) {
                assert(!is_hex_digit(text@[i as int]));
                return None;
            }
            i += 1;
        }
        Some(Sha256Digest { hex: text.clone() })
    }

    /// The digest in hexadecimal.
    pub closed spec fn text(self) -> Text {
        self.hex
    }

    /// The digest in hexadecimal.
    pub fn as_text(&self) -> (r: &Text)
        ensures
            *r == self.text(),
            r@ == self@,
            is_canonical_digest(r@),
    {
        proof {
            use_type_invariant(self);
        }
        &self.hex
    }

    /// Whether the digest reads exactly like `text`.
    pub fn reads(&self, text: &Text) -> (r: bool)
        ensures
            r == (self@ == text@),
    {
        self.hex == *text
    }
}

} // verus!
