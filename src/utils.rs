use vstd::prelude::*;
use vstd::string::StringExecFns;
use vstd::utf8::{encode_utf8, is_char_boundary};

verus! {

/// Boxes a value.
pub fn b<T>(i: T) -> (r: Box<T>)
    ensures
        *r == i,
{
    Box::new(i)
}

/// The byte range `[start, end)` of the UTF-8 text `bytes` begins on a
/// character boundary and ends on one, the end counted within the text that
/// follows `start`.
pub open spec fn on_boundaries(bytes: Seq<u8>, start: int, end: int) -> bool {
    &&& 0 <= start <= end <= bytes.len()
    &&& is_char_boundary(bytes, start)
    &&& is_char_boundary(bytes.subrange(start, bytes.len() as int), end - start)
}

/// The text of `s` without its first `start` bytes and its last
/// `pos_to_end` bytes.
pub fn slice_end_str(s: String, start: usize, pos_to_end: usize) -> (r: String)
    requires
        encode_utf8(s@).len() <= usize::MAX,
        pos_to_end <= encode_utf8(s@).len(),
        on_boundaries(encode_utf8(s@), start as int, encode_utf8(s@).len() - pos_to_end),
    ensures
        encode_utf8(r@) == encode_utf8(s@).subrange(start as int, encode_utf8(s@).len() - pos_to_end),
{
    let text = s.as_str();
    let str_len = text.len();
    assert(text@ == s@);
    assert(str_len == encode_utf8(s@).len());
    let (_, rest) = text.split_at(start);
    let (mid, _) = rest.split_at(str_len - pos_to_end - start);
    let r = String::from_str(mid);
    assert(encode_utf8(r@) =~= encode_utf8(s@).subrange(start as int, encode_utf8(s@).len() - pos_to_end));
    r
}

} // verus!
