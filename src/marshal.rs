//! Conversion of native nul-terminated text into owned strings.
//!
//! A native string is given as the bytes of the buffer it starts, or `None` for
//! a null pointer; its text is the bytes before the first nul.

use vstd::prelude::*;
use vstd::utf8::*;

verus! {

/// Size of the buffer that the native library renders an address into.
pub const ADDRESS_STR_MAX: usize = 40;

/// `n` is where the text in `buf` ends: at the first nul, or at the end.
pub open spec fn ends_text(buf: Seq<u8>, n: int) -> bool {
    &&& 0 <= n <= buf.len()
    &&& forall|i: int| 0 <= i < n ==> buf[i] != 0
    &&& n < buf.len() ==> buf[n] == 0
}

/// The length of the text in `buf`.
pub open spec fn text_len(buf: Seq<u8>) -> int {
    choose|n: int| ends_text(buf, n)
}

/// The bytes of the text in `buf`.
pub open spec fn c_text(buf: Seq<u8>) -> Seq<u8> {
    buf.take(text_len(buf))
}

/// What lossy UTF-8 decoding makes of some bytes.
pub uninterp spec fn lossy_text(b: Seq<u8>) -> Seq<char>;

/// Relies on `String::from_utf8_lossy`: valid UTF-8 comes back as the text it
/// encodes; other bytes get replacement characters, by the bytes alone.
#[verifier::external_body]
fn utf8_lossy(b: &[u8]) -> (r: String)
    ensures
        r@ == lossy_text(b@),
        valid_utf8(b@) ==> r@ == decode_utf8(b@),
{
    String::from_utf8_lossy(b).into_owned()
}

/// At most one place ends the text of a buffer.
pub proof fn lemma_text_end_unique(buf: Seq<u8>, n: int, m: int)
    requires
        ends_text(buf, n),
        ends_text(buf, m),
    ensures
        n == m,
{
    if n < m {
        assert(buf[n] == 0);
    } else if m < n {
        assert(buf[m] == 0);
    }
}

/// Finds where the text in `buf` ends.
pub fn c_text_len(buf: &[u8]) -> (n: usize)
    ensures
        ends_text(buf@, n as int),
        n == text_len(buf@),
{
    let mut i: usize = 0;
    while i < buf.len() && buf[i] != 0
        invariant
            0 <= i <= buf@.len(),
            forall|k: int| 0 <= k < i ==> buf@[k] != 0,
        decreases buf@.len() - i,
    {
        i = i + 1;
    }
    proof {
        assert(ends_text(buf@, i as int));
        lemma_text_end_unique(buf@, i as int, text_len(buf@));
    }
    i
}

/// Decodes a native string: `None` for a null pointer, else the text before the
/// first nul, with invalid UTF-8 replaced rather than refused.
pub fn decode_text(s: Option<&[u8]>) -> (r: Option<String>)
    ensures
        s is None <==> r is None,
        s is Some ==> r.unwrap()@ == lossy_text(c_text(s.unwrap()@)),
        s is Some && valid_utf8(c_text(s.unwrap()@)) ==> r.unwrap()@ == decode_utf8(
            c_text(s.unwrap()@),
        ),
{
    match s {
        None => None,
        Some(buf) => {
            let n = c_text_len(buf);
            let mut text: Vec<u8> = Vec::new();
            let mut i: usize = 0;
            while i < n
                invariant
                    n <= buf@.len(),
                    0 <= i <= n,
                    text@ == buf@.take(i as int),
                decreases n - i,
            {
                text.push(buf[i]);
                i = i + 1;
                assert(text@ =~= buf@.take(i as int));
            }
            Some(utf8_lossy(text.as_slice()))
        },
    }
}

/// A zeroed buffer large enough for any rendered address.
pub fn address_buffer() -> (r: Vec<u8>)
    ensures
        r@.len() == ADDRESS_STR_MAX,
        forall|i: int| 0 <= i < r@.len() ==> r@[i] == 0,
{
    let mut r: Vec<u8> = Vec::new();
    while r.len() < ADDRESS_STR_MAX
        invariant
            r@.len() <= ADDRESS_STR_MAX,
            forall|i: int| 0 <= i < r@.len() ==> r@[i] == 0,
        decreases ADDRESS_STR_MAX - r@.len(),
    {
        r.push(0);
    }
    r
}

/// Decodes an address that the native library rendered into a buffer of
/// `ADDRESS_STR_MAX` bytes; `None` for a null address.
pub fn decode_address(rendered: Option<&[u8]>) -> (r: Option<String>)
    ensures
        rendered is None <==> r is None,
        rendered is Some ==> r.unwrap()@ == lossy_text(c_text(rendered.unwrap()@)),
{
    decode_text(rendered)
}

/// The text of a rendered text-record list, and whether the rendering must be
/// released.
pub struct TextRecords {
    pub text: Option<String>,
    pub release: bool,
}

/// Decodes the rendering of a text-record list; `None` for a null rendering.
/// Every rendering that is not null is to be released exactly once, whatever
/// its bytes decode to.
pub fn decode_text_records(rendered: Option<&[u8]>) -> (r: TextRecords)
    ensures
        r.release <==> rendered is Some,
        rendered is None <==> r.text is None,
        rendered is Some ==> r.text.unwrap()@ == lossy_text(c_text(rendered.unwrap()@)),
{
    let release = rendered.is_some();
    TextRecords { text: decode_text(rendered), release }
}

/// Text that holds no nul and is valid UTF-8, written out with a terminating
/// nul, decodes to what it encodes.
pub proof fn lemma_decode_valid_text(content: Seq<u8>, buf: Seq<u8>)
    requires
        valid_utf8(content),
        forall|i: int| 0 <= i < content.len() ==> content[i] != 0,
        buf.len() > content.len(),
        buf.take(content.len() as int) == content,
        buf[content.len() as int] == 0,
    ensures
        c_text(buf) == content,
        valid_utf8(c_text(buf)),
{
    assert forall|i: int| 0 <= i < content.len() implies buf[i] != 0 by {
        assert(buf.take(content.len() as int)[i] == buf[i]);
    }
    assert(ends_text(buf, content.len() as int));
    lemma_text_end_unique(buf, content.len() as int, text_len(buf));
}

/// The characters of a string, encoded without a nul byte and written out with
/// a terminating nul, decode to the same characters.
pub proof fn lemma_text_round_trip(s: Seq<char>, buf: Seq<u8>)
    requires
        forall|i: int| 0 <= i < encode_utf8(s).len() ==> encode_utf8(s)[i] != 0,
        buf == encode_utf8(s).push(0),
    ensures
        valid_utf8(c_text(buf)),
        decode_utf8(c_text(buf)) == s,
{
    encode_utf8_valid_utf8(s);
    encode_utf8_decode_utf8(s);
    assert(buf.take(encode_utf8(s).len() as int) =~= encode_utf8(s));
    lemma_decode_valid_text(encode_utf8(s), buf);
}

} // verus!
