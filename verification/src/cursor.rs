use vstd::prelude::*;
use vstd::string::StrSliceExecFns;
use vstd::string::StringExecFns;
use vstd::string::StringSliceAdditionalSpecFns;
use vstd::utf8::*;

verus! {

broadcast use vstd::string::group_string_axioms, vstd::slice::group_slice_axioms;

/// The cursor does not lie on a character position of the content.
#[derive(Clone, Copy, Debug, PartialEq, Eq, Structural)]
pub struct InvalidCursor;

/// The byte offset, in the UTF-8 storage encoding of `chars`, at which the
/// character with index `cursor` begins (or, for `cursor == chars.len()`,
/// the total byte length).
pub open spec fn storage_offset(chars: Seq<char>, cursor: int) -> int {
    encode_utf8(chars.take(cursor)).len() as int
}

/// The UTF-8 encoding of a concatenation is the concatenation of the
/// encodings.
pub proof fn lemma_encode_utf8_concat(a: Seq<char>, b: Seq<char>)
    ensures
        encode_utf8(a + b) == encode_utf8(a) + encode_utf8(b),
    decreases a.len(),
{
    if a.len() == 0 {
        assert(a + b =~= b);
        assert(encode_utf8(a) + encode_utf8(b) =~= encode_utf8(b));
    } else {
        lemma_encode_utf8_concat(a.drop_first(), b);
        assert((a + b).drop_first() =~= a.drop_first() + b);
        assert((a + b)[0] == a[0]);
        assert(encode_utf8(a + b) =~= encode_utf8(a) + encode_utf8(b));
    }
}

/// A singleton character sequence encodes to the encoding of its scalar.
pub proof fn lemma_encode_utf8_singleton(c: char)
    ensures
        encode_utf8(seq![c]) == encode_scalar(c as u32),
{
    assert(seq![c].drop_first() =~= Seq::<char>::empty());
    assert(encode_utf8(Seq::<char>::empty()) =~= Seq::<u8>::empty());
    assert(encode_utf8(seq![c]) == encode_scalar(c as u32) + encode_utf8(seq![c].drop_first()));
    assert(encode_utf8(seq![c]) =~= encode_scalar(c as u32));
}

/// Splitting the storage encoding of `chars` at the storage offset of a
/// character position never splits a character: the offset is a character
/// boundary, and the bytes on either side are exactly the encodings of the
/// characters on either side of the position.
pub proof fn lemma_storage_offset_boundary(chars: Seq<char>, cursor: int)
    requires
        0 <= cursor <= chars.len(),
    ensures
        0 <= storage_offset(chars, cursor) <= encode_utf8(chars).len(),
        encode_utf8(chars).subrange(0, storage_offset(chars, cursor)) == encode_utf8(
            chars.take(cursor),
        ),
        encode_utf8(chars).subrange(
            storage_offset(chars, cursor),
            encode_utf8(chars).len() as int,
        ) == encode_utf8(chars.skip(cursor)),
        is_char_boundary(encode_utf8(chars), storage_offset(chars, cursor)),
{
    let pre = chars.take(cursor);
    let post = chars.skip(cursor);
    assert(pre + post =~= chars);
    lemma_encode_utf8_concat(pre, post);
    let b1 = encode_utf8(pre);
    let b2 = encode_utf8(post);
    assert(encode_utf8(chars) == b1 + b2);
    assert((b1 + b2).subrange(0, b1.len() as int) =~= b1);
    assert((b1 + b2).subrange(b1.len() as int, (b1 + b2).len() as int) =~= b2);
    encode_utf8_valid_utf8(pre);
    encode_utf8_valid_utf8(post);
    valid_utf8_concat(b1, b2);
    if b1.len() == (b1 + b2).len() {
        is_char_boundary_start_end_of_seq(b1 + b2);
    } else {
        is_char_boundary_iff_not_is_continuation_byte(b2, 0);
        assert((b1 + b2)[b1.len() as int] == b2[0]);
        is_char_boundary_iff_not_is_continuation_byte(b1 + b2, b1.len() as int);
    }
}

/// The number of bytes that one character occupies in the storage encoding.
pub fn char_width(c: char) -> (r: usize)
    ensures
        r == encode_scalar(c as u32).len(),
        1 <= r <= 4,
{
    proof {
        char_is_scalar(c);
    }
    let u = c as u32;
    if u < 0x80 {
        1
    } else if u < 0x800 {
        2
    } else if u < 0x10000 {
        3
    } else {
        4
    }
}

/// Translates a character-unit cursor position into a byte offset of the
/// storage encoding of `content`. Succeeds exactly when the cursor lies in
/// `[0, char_length]`; the returned offset is always a character boundary,
/// so that slicing the storage there never splits a character.
pub fn to_storage_offset(content: &str, cursor: usize) -> (r: Result<usize, InvalidCursor>)
    ensures
        r is Ok <==> cursor <= content@.len(),
        r is Ok ==> r->Ok_0 == storage_offset(content@, cursor as int),
        r is Ok ==> r->Ok_0 <= content.spec_bytes().len(),
        r is Ok ==> is_char_boundary(content.spec_bytes(), r->Ok_0 as int),
        r is Ok ==> content.spec_bytes().subrange(0, r->Ok_0 as int) == encode_utf8(
            content@.take(cursor as int),
        ),
        r is Ok ==> content.spec_bytes().subrange(
            r->Ok_0 as int,
            content.spec_bytes().len() as int,
        ) == encode_utf8(content@.skip(cursor as int)),
{
    let n = content.unicode_len();
    if cursor > n {
        return Err(InvalidCursor);
    }
    let total = content.as_bytes().len();
    let ghost chars = content@;
    proof {
        assert(total == encode_utf8(chars).len());
    }
    let mut off: usize = 0;
    let mut i: usize = 0;
    while i < cursor
        invariant
            i <= cursor <= chars.len(),
            content@ == chars,
            total == encode_utf8(chars).len(),
            off == storage_offset(chars, i as int),
            off <= total,
        decreases cursor - i,
    {
        let c = content.get_char(i);
        proof {
            assert(chars.take(i as int + 1) =~= chars.take(i as int) + seq![c]);
            lemma_encode_utf8_concat(chars.take(i as int), seq![c]);
            lemma_encode_utf8_singleton(c);
            lemma_storage_offset_boundary(chars, i as int + 1);
        }
        off = off + char_width(c);
        i = i + 1;
    }
    proof {
        lemma_storage_offset_boundary(chars, cursor as int);
    }
    Ok(off)
}

/// Replaces the storage range of the single character at `cursor` with the
/// replacement text `s`: the storage is split at the two storage offsets
/// that bound that character, and the bytes between them are swapped for
/// the bytes of `s`. The bytes outside the replaced range are untouched,
/// and on the character level the result is the content with the one
/// character at `cursor` swapped for the characters of `s`.
pub fn splice_at(value: &str, cursor: usize, s: &str) -> (r: String)
    requires
        cursor < value@.len(),
    ensures
        r@ == value@.take(cursor as int) + s@ + value@.skip(cursor as int + 1),
        encode_utf8(r@) == value.spec_bytes().subrange(0, storage_offset(value@, cursor as int))
            + s.spec_bytes() + value.spec_bytes().subrange(
            storage_offset(value@, cursor as int + 1),
            value.spec_bytes().len() as int,
        ),
{
    let n = value.unicode_len();
    let start = to_storage_offset(value, cursor).unwrap();
    let end = to_storage_offset(value, cursor + 1).unwrap();
    proof {
        lemma_storage_offset_boundary(value@, cursor as int);
        lemma_storage_offset_boundary(value@, cursor as int + 1);
    }
    let (head, _) = value.split_at(start);
    let (_, tail) = value.split_at(end);
    let ghost pre = value@.take(cursor as int);
    let ghost post = value@.skip(cursor as int + 1);
    proof {
        encode_utf8_decode_utf8(head@);
        encode_utf8_decode_utf8(pre);
        assert(head.spec_bytes() == encode_utf8(pre));
        assert(head@ == pre);
        encode_utf8_decode_utf8(tail@);
        encode_utf8_decode_utf8(post);
        assert(tail.spec_bytes() == encode_utf8(post));
        assert(tail@ == post);
    }
    let mut r = head.to_owned();
    r.append(s);
    r.append(tail);
    proof {
        assert(r@ == pre + s@ + post);
        lemma_encode_utf8_concat(pre + s@, post);
        lemma_encode_utf8_concat(pre, s@);
        assert(encode_utf8(r@) == encode_utf8(pre) + encode_utf8(s@) + encode_utf8(post));
    }
    r
}

} // verus!
