//! Borrowed views of text.
//!
//! A [`StringRef`] is what the C interface takes and returns wherever it
//! speaks of text: some bytes owned by someone else, with a length and no
//! terminator. Text handed in with a trailing NUL has it left out of view, so
//! that C-style literals can be passed as they are.

use vstd::prelude::*;
use vstd::utf8::*;
use vstd::slice::slice_subrange;
use crate::foreign::Reply;
use crate::raw::MlirStringRef;

verus! {

broadcast use vstd::slice::group_slice_axioms;

#[verifier::external_type_specification]
#[verifier::external_body]
pub struct ExUtf8Error(core::str::Utf8Error);

/// `core::str::from_utf8` accepts exactly the byte sequences that are
/// well-formed UTF-8, and the text it returns is made of the very bytes it
/// was given.
pub assume_specification[ core::str::from_utf8 ](v: &[u8]) -> (res: Result<
    &str,
    core::str::Utf8Error,
>)
    ensures
        res is Ok <==> valid_utf8(v@),
        res matches Ok(s) ==> encode_utf8(s@) == v@,
;

/// The bytes with one trailing NUL, if there is one, left out.
pub open spec fn without_terminator(bytes: Seq<u8>) -> Seq<u8> {
    if bytes.len() > 0 && bytes.last() == 0 {
        bytes.drop_last()
    } else {
        bytes
    }
}

/// The characters with one trailing NUL, if there is one, left out.
pub open spec fn without_terminator_char(text: Seq<char>) -> Seq<char> {
    if text.len() > 0 && text.last() == '\0' {
        text.drop_last()
    } else {
        text
    }
}

/// A non-owning view of bytes that outlive it.
#[derive(Clone, Copy, Debug)]
pub struct StringRef<'a> {
    pub(crate) inner: MlirStringRef<'a>,
}

impl<'a> View for StringRef<'a> {
    type V = Seq<u8>;

    closed spec fn view(&self) -> Seq<u8> {
        self.inner@
    }
}

impl<'a> StringRef<'a> {
    /// Views the bytes of `text`, leaving out one trailing NUL if `text`
    /// ends in one.
    pub fn new(text: &'a str) -> (s: StringRef<'a>)
        ensures
            s@ == without_terminator(encode_utf8(text@)),
    {
        let bytes = text.as_bytes();
        let n = bytes.len();
        let end = if n > 0 && bytes[n - 1] == 0 {
            n - 1
        } else {
            n
        };
        let data = slice_subrange(bytes, 0, end);
        assert(data@ =~= without_terminator(encode_utf8(text@)));
        StringRef { inner: MlirStringRef { data } }
    }

    /// Wraps a view received from the foreign interface.
    pub fn from_raw(s: MlirStringRef<'a>) -> (wrapped: StringRef<'a>)
        ensures
            wrapped@ == s@,
    {
        StringRef { inner: s }
    }

    /// Whether `text` is what wrapping `raw` gives: a view of the same
    /// bytes, or nothing where there is nothing to wrap.
    pub open spec fn shows(text: Option<StringRef<'a>>, raw: Option<MlirStringRef<'a>>) -> bool {
        match (text, raw) {
            (Some(t), Some(r)) => t@ == r@,
            (None, None) => true,
            _ => false,
        }
    }

    /// The text a reply carries, if it carries text.
    pub fn from_reply(reply: &Reply<'a>) -> (text: Option<StringRef<'a>>)
        ensures
            StringRef::shows(text, reply.text()),
    {
        match reply.text() {
            Some(raw) => Some(StringRef::from_raw(raw)),
            None => None,
        }
    }

    /// The view in the form the foreign interface takes.
    pub fn as_raw(&self) -> (raw: MlirStringRef<'a>)
        ensures
            raw@ == self@,
    {
        self.inner
    }

    /// The bytes in view.
    pub fn as_bytes(&self) -> (bytes: &'a [u8])
        ensures
            bytes@ == self@,
    {
        self.inner.data
    }

    /// The bytes in view as text, or `None` if they are not well-formed
    /// UTF-8.
    pub fn to_str(&self) -> (text: Option<&'a str>)
        ensures
            text is Some <==> valid_utf8(self@),
            text matches Some(s) ==> encode_utf8(s@) == self@ && s@ == decode_utf8(self@),
    {
        match core::str::from_utf8(self.inner.data) {
            Ok(s) => {
                proof {
                    encode_utf8_decode_utf8(s@);
                }
                Some(s)
            },
            Err(_) => None,
        }
    }
}

impl<'a> From<&'a str> for StringRef<'a> {
    fn from(value: &'a str) -> (s: StringRef<'a>)
        ensures
            s@ == without_terminator(encode_utf8(value@)),
    {
        let s = StringRef::new(value);
        proof {
            lemma_view_determines(s, viewing(without_terminator(encode_utf8(value@))));
        }
        s
    }
}

impl<'a> vstd::std_specs::convert::FromSpecImpl<&'a str> for StringRef<'a> {
    open spec fn obeys_from_spec() -> bool {
        true
    }

    open spec fn from_spec(value: &'a str) -> StringRef<'a> {
        viewing(without_terminator(encode_utf8(value@)))
    }
}

impl<'a> From<&'a String> for StringRef<'a> {
    fn from(value: &'a String) -> (s: StringRef<'a>)
        ensures
            s@ == without_terminator(encode_utf8(value@)),
    {
        let s = StringRef::new(value.as_str());
        proof {
            lemma_view_determines(s, viewing(without_terminator(encode_utf8(value@))));
        }
        s
    }
}

impl<'a> vstd::std_specs::convert::FromSpecImpl<&'a String> for StringRef<'a> {
    open spec fn obeys_from_spec() -> bool {
        true
    }

    open spec fn from_spec(value: &'a String) -> StringRef<'a> {
        viewing(without_terminator(encode_utf8(value@)))
    }
}

/// The view that shows exactly `bytes`.
pub open spec fn viewing<'a>(bytes: Seq<u8>) -> StringRef<'a> {
    choose|s: StringRef<'a>| s@ == bytes
}

/// Two views of the same bytes are the same view.
pub proof fn lemma_view_determines(a: StringRef<'_>, b: StringRef<'_>)
    requires
        a@ == b@,
    ensures
        a == b,
{
    assert(a.inner.data =~= b.inner.data);
}

/// Encoding distributes over concatenation.
pub proof fn lemma_encode_concat(a: Seq<char>, b: Seq<char>)
    ensures
        encode_utf8(a + b) == encode_utf8(a) + encode_utf8(b),
    decreases a.len(),
{
    if a.len() == 0 {
        assert(a + b =~= b);
        assert(encode_utf8(a) + encode_utf8(b) =~= encode_utf8(b));
    } else {
        assert((a + b).drop_first() =~= a.drop_first() + b);
        lemma_encode_concat(a.drop_first(), b);
        assert((a + b)[0] == a[0]);
        assert(encode_utf8(a + b) =~= encode_utf8(a) + encode_utf8(b));
    }
}

proof fn lemma_scalar_last_byte(c: u32)
    by (bit_vector)
    requires
        c <= 0x10FFFF,
    ensures
        c == 0 ==> (c & 0x7F) as u8 == 0,
        0 < c <= 0x7F ==> (c & 0x7F) as u8 != 0,
        (0x80u8 | (c & 0x3F) as u8) != 0,
{
}

/// The encoding of a character is never empty, and it ends in a NUL byte
/// exactly when the character is NUL, whose encoding is that one byte.
pub proof fn lemma_encode_scalar_last(c: char)
    ensures
        encode_scalar(c as u32).len() > 0,
        encode_scalar(c as u32).last() == 0 <==> c == '\0',
        c == '\0' ==> encode_scalar(c as u32) == seq![0u8],
{
    char_is_scalar(c);
    lemma_scalar_last_byte(c as u32);
    if c == '\0' {
        assert(c as u32 == 0);
        assert(encode_scalar(c as u32) =~= seq![0u8]);
    } else {
        assert(c as u32 != 0);
    }
}

/// Leaving the terminator out of encoded text is the same as encoding the
/// text without its terminator.
pub proof fn lemma_without_terminator_encode(text: Seq<char>)
    ensures
        without_terminator(encode_utf8(text)) == encode_utf8(without_terminator_char(text)),
{
    if text.len() == 0 {
    } else {
        let head = text.drop_last();
        let tail = seq![text.last()];
        assert(text =~= head + tail);
        lemma_encode_concat(head, tail);
        assert(tail.drop_first() =~= Seq::<char>::empty());
        assert(encode_utf8(Seq::<char>::empty()) =~= Seq::<u8>::empty());
        assert(encode_utf8(tail) =~= encode_scalar(text.last() as u32));
        lemma_encode_scalar_last(text.last());
        let enc = encode_scalar(text.last() as u32);
        assert(encode_utf8(text).last() == enc.last());
        if text.last() == '\0' {
            assert(encode_utf8(text).drop_last() =~= encode_utf8(head));
        }
    }
}

/// Viewing text and reading the view back as text gives the text again,
/// without its trailing NUL if it had one.
pub proof fn lemma_round_trip(text: &str, view: StringRef<'_>)
    requires
        view@ == without_terminator(encode_utf8(text@)),
    ensures
        valid_utf8(view@),
        decode_utf8(view@) == without_terminator_char(text@),
        text@.len() > 0 && text@.last() == '\0' ==> decode_utf8(view@) == text@.drop_last(),
{
    lemma_without_terminator_encode(text@);
    encode_utf8_valid_utf8(without_terminator_char(text@));
    encode_utf8_decode_utf8(without_terminator_char(text@));
}

} // verus!
