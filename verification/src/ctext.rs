//! Text in the form the host reads it: bytes without a zero among them,
//! closed by one zero byte.

use vstd::prelude::*;
use vstd::string::*;

verus! {

/// Bytes that `chars` has in UTF-8 if they can stand in a NUL-terminated
/// string, that is if none of them is zero; `None` otherwise.
pub open spec fn c_text(chars: Seq<char>) -> Option<Seq<u8>> {
    let bytes = vstd::utf8::encode_utf8(chars);
    if bytes.contains(0u8) {
        None
    } else {
        Some(bytes)
    }
}

/// Text made of ASCII characters other than NUL converts, one byte for each
/// character.
pub proof fn lemma_c_text_ascii(chars: Seq<char>)
    requires
        forall|i: int| 0 <= i < chars.len() ==> '\u{1}' <= #[trigger] chars[i] <= '\u{7f}',
    ensures
        c_text(chars) == Some(Seq::new(chars.len(), |i: int| chars[i] as u8)),
{
    assert(vstd::utf8::is_ascii_chars(chars));
    vstd::utf8::is_ascii_chars_encode_utf8(chars);
    let bytes = vstd::utf8::encode_utf8(chars);
    assert(bytes =~= Seq::new(chars.len(), |i: int| chars[i] as u8));
    assert forall|i: int| 0 <= i < bytes.len() implies bytes[i] != 0u8 by {
        assert(chars[i] as u8 == bytes[i]);
    }
}

/// An owned NUL-terminated string.
///
/// The view is the content, without the closing zero byte.
#[derive(Debug, PartialEq, Eq)]
pub struct CText {
    bytes: Vec<u8>,
}

impl View for CText {
    type V = Seq<u8>;

    closed spec fn view(&self) -> Seq<u8> {
        self.bytes@.drop_last()
    }
}

impl DeepView for CText {
    type V = Seq<u8>;

    open spec fn deep_view(&self) -> Seq<u8> {
        self@
    }
}

impl Clone for CText {
    fn clone(&self) -> (r: Self)
        ensures
            r@ == self@,
    {
        proof {
            use_type_invariant(self);
        }
        let bytes = self.bytes.clone();
        assert(bytes@ =~= self.bytes@);
        CText { bytes }
    }
}

impl CText {
    #[verifier::type_invariant]
    spec fn terminated(self) -> bool {
        &&& self.bytes@.len() >= 1
        &&& self.bytes@.last() == 0u8
        &&& !self.bytes@.drop_last().contains(0u8)
    }

    /// Converts `text`, or refuses it because it holds a zero byte.
    pub fn new(text: &str) -> (r: Option<CText>)
        ensures
            r is Some <==> c_text(text@) is Some,
            r matches Some(c) ==> Some(c@) == c_text(text@),
    {
        let mut bytes = text.as_bytes_vec();
        let n = bytes.len();
        let mut i: usize = 0;
        while i < n
            invariant
                n == bytes@.len(),
                bytes@ == text.spec_bytes(),
                i <= n,
                forall|j: int| 0 <= j < i ==> bytes@[j] != 0u8,
            decreases n - i,
        {
            if bytes[i] == 0 {
                return None;
            }
            i += 1;
        }
        let ghost content = bytes@;
        bytes.push(0);
        assert(bytes@.drop_last() == content);
        Some(CText { bytes })
    }

    /// Number of content bytes.
    pub fn len(&self) -> (n: usize)
        ensures
            n == self@.len(),
    {
        proof {
            use_type_invariant(self);
        }
        self.bytes.len() - 1
    }

    /// The content followed by its closing zero byte, as the host expects it.
    pub fn as_bytes_with_nul(&self) -> (r: &[u8])
        ensures
            r@ == self@.push(0u8),
            !self@.contains(0u8),
    {
        proof {
            use_type_invariant(self);
            assert(self.bytes@ == self.bytes@.drop_last().push(self.bytes@.last()));
        }
        self.bytes.as_slice()
    }
}

} // verus!
