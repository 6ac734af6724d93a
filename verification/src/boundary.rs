//! The string that crosses the boundary: owned text that a terminating zero
//! byte can follow, because no zero byte stands inside it.

use vstd::prelude::*;
use vstd::string::*;
use vstd::utf8::*;
use crate::json::text_of;

verus! {

/// No byte of the text's UTF-8 form is zero.
pub open spec fn nul_free(text: Seq<char>) -> bool {
    forall|i: int| 0 <= i < encode_utf8(text).len() ==> #[trigger] encode_utf8(text)[i] != 0
}

/// Every character of the text is an ASCII character other than the zero
/// character.
pub open spec fn plain(text: Seq<char>) -> bool {
    forall|i: int| 0 <= i < text.len() ==> '\u{1}' <= #[trigger] text[i] <= '\u{7f}'
}

/// A plain text is free of zero bytes: each of its characters is encoded as
/// the one byte of its own number.
pub proof fn lemma_plain_is_nul_free(text: Seq<char>)
    requires
        plain(text),
    ensures
        nul_free(text),
{
    assert(is_ascii_chars(text));
    is_ascii_chars_encode_utf8(text);
    assert forall|i: int| 0 <= i < encode_utf8(text).len() implies #[trigger] encode_utf8(text)[i]
        != 0 by {
        assert(text[i] as u8 == encode_utf8(text)[i]);
        assert('\u{1}' <= text[i]);
    }
}

/// The UTF-8 form of two texts in a row is the two UTF-8 forms in a row.
pub proof fn lemma_encode_concat(a: Seq<char>, b: Seq<char>)
    ensures
        encode_utf8(a + b) == encode_utf8(a) + encode_utf8(b),
    decreases a.len(),
{
    if a.len() == 0 {
        assert(a + b =~= b);
        assert(encode_utf8(a) + encode_utf8(b) =~= encode_utf8(b));
    } else {
        lemma_encode_concat(a.drop_first(), b);
        assert((a + b).drop_first() =~= a.drop_first() + b);
        assert((a + b)[0] == a[0]);
        assert(encode_utf8(a + b) =~= encode_utf8(a) + encode_utf8(b));
    }
}

/// Two texts that are free of zero bytes are so in a row.
pub proof fn lemma_nul_free_concat(a: Seq<char>, b: Seq<char>)
    requires
        nul_free(a),
        nul_free(b),
    ensures
        nul_free(a + b),
{
    lemma_encode_concat(a, b);
}

/// What is handed out for an encoding: the text itself where there is one
/// and it is free of zero bytes, nothing otherwise.
pub open spec fn boundary_of(text: Option<Seq<char>>) -> Option<Seq<char>> {
    match text {
        Some(chars) => if nul_free(chars) {
            Some(chars)
        } else {
            None
        },
        None => None,
    }
}

/// Text that is handed to the caller, who owns it until the release.
pub struct BoundaryString {
    text: String,
}

/// The text behind a handle; a null handle has none.
pub open spec fn handle_text(handle: Option<BoundaryString>) -> Option<Seq<char>> {
    match handle {
        Some(string) => Some(string@),
        None => None,
    }
}

impl View for BoundaryString {
    type V = Seq<char>;

    closed spec fn view(&self) -> Seq<char> {
        self.text@
    }
}

impl BoundaryString {
    #[verifier::type_invariant]
    spec fn well_formed(self) -> bool {
        nul_free(self.text@)
    }

    /// Takes the text over, unless a zero byte stands in it.
    pub fn new(text: String) -> (handle: Option<BoundaryString>)
        ensures
            handle_text(handle) == boundary_of(Some(text@)),
    {
        let bytes = text.as_str().as_bytes();
        let mut i: usize = 0;
        while i < bytes.len()
            invariant
                i <= bytes@.len(),
                bytes@ == encode_utf8(text@),
                forall|k: int| 0 <= k < i ==> bytes@[k] != 0,
            decreases bytes@.len() - i,
        {
            if bytes[i] == 0 {
                return None;
            }
            i += 1;
        }
        Some(BoundaryString { text })
    }

    /// Takes over an encoding that may have failed.
    pub fn issue(encoded: Option<String>) -> (handle: Option<BoundaryString>)
        ensures
            handle_text(handle) == boundary_of(text_of(encoded)),
    {
        match encoded {
            Some(text) => BoundaryString::new(text),
            None => None,
        }
    }

    /// The text, for reading.
    pub fn as_str(&self) -> (text: &str)
        ensures
            text@ == self@,
            nul_free(text@),
    {
        proof {
            use_type_invariant(self);
        }
        self.text.as_str()
    }

    /// Gives the text up and ends the handle.
    pub fn into_string(self) -> (text: String)
        ensures
            text@ == self@,
            nul_free(text@),
    {
        proof {
            use_type_invariant(&self);
        }
        self.text
    }
}

} // verus!
