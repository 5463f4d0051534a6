//! Byte offsets in UTF-8 text: the boundaries between code points, and the
//! two edits of a `String` that an editor makes at a boundary.
use vstd::prelude::*;
use vstd::utf8::*;

verus! {

/// The UTF-8 bytes of a text.
pub open spec fn utf8(text: Seq<char>) -> Seq<u8> {
    encode_utf8(text)
}

/// Whether offset `i` of the text's bytes lies between two code points, or
/// at either end.
pub open spec fn on_boundary(text: Seq<char>, i: int) -> bool {
    is_char_boundary(utf8(text), i)
}

/// Where the code point that starts at offset `i` ends.
pub open spec fn next_boundary(bytes: Seq<u8>, i: int) -> int {
    i + length_of_first_scalar(bytes.subrange(i, bytes.len() as int))
}

/// Where the code point that ends at offset `i` starts.
pub open spec fn prev_boundary(bytes: Seq<u8>, i: int) -> int {
    i - length_of_last_scalar(bytes.subrange(0, i))
}

/// `bytes` with `piece` put in at offset `i`.
pub open spec fn spliced(bytes: Seq<u8>, i: int, piece: Seq<u8>) -> Seq<u8> {
    bytes.subrange(0, i) + piece + bytes.subrange(i, bytes.len() as int)
}

/// `bytes` without the span from `from` up to `to`.
pub open spec fn cut(bytes: Seq<u8>, from: int, to: int) -> Seq<u8> {
    bytes.subrange(0, from) + bytes.subrange(to, bytes.len() as int)
}

/// A boundary lies within the bytes.
pub proof fn lemma_boundary_in_range(bytes: Seq<u8>, i: int)
    requires
        valid_utf8(bytes),
        is_char_boundary(bytes, i),
    ensures
        0 <= i <= bytes.len(),
{
}

/// Where two valid byte sequences meet there is a boundary.
pub proof fn lemma_join_boundary(a: Seq<u8>, b: Seq<u8>)
    requires
        valid_utf8(a),
        valid_utf8(b),
    ensures
        valid_utf8(a + b),
        is_char_boundary(a + b, a.len() as int),
    decreases a.len(),
{
    valid_utf8_concat(a, b);
    if a.len() != 0 {
        let rest = pop_first_scalar(a);
        lemma_join_boundary(rest, b);
        assert(pop_first_scalar(a + b) =~= rest + b);
        assert(length_of_first_scalar(a + b) == length_of_first_scalar(a));
    }
}

/// The first code point of a valid, non-empty byte sequence is itself valid.
proof fn lemma_first_scalar_valid(bytes: Seq<u8>)
    requires
        valid_utf8(bytes),
        bytes.len() > 0,
    ensures
        valid_utf8(take_first_scalar(bytes)),
        1 <= length_of_first_scalar(bytes) <= 4,
        length_of_first_scalar(bytes) <= bytes.len(),
        !is_continuation_byte(bytes[0]),
        forall|k: int| 0 < k < length_of_first_scalar(bytes) ==> is_continuation_byte(bytes[k]),
{
    reveal_with_fuel(valid_utf8, 2);
}

/// From a boundary before the end, the next boundary is where the code point
/// that starts there ends: at most four bytes on, with none in between.
pub proof fn lemma_next_boundary(bytes: Seq<u8>, i: int)
    requires
        valid_utf8(bytes),
        is_char_boundary(bytes, i),
        i < bytes.len(),
    ensures
        i < next_boundary(bytes, i) <= i + 4,
        next_boundary(bytes, i) <= bytes.len(),
        is_char_boundary(bytes, next_boundary(bytes, i)),
        forall|j: int| i < j < next_boundary(bytes, i) ==> !is_char_boundary(bytes, j),
{
    lemma_boundary_in_range(bytes, i);
    valid_utf8_split(bytes, i);
    let head = bytes.subrange(0, i);
    let tail = bytes.subrange(i, bytes.len() as int);
    lemma_first_scalar_valid(tail);
    let n = length_of_first_scalar(tail);
    let first = take_first_scalar(tail);
    let rest = pop_first_scalar(tail);
    valid_utf8_concat(head, first);
    lemma_join_boundary(head + first, rest);
    assert((head + first) + rest =~= bytes);
    assert forall|j: int| i < j < i + n implies !is_char_boundary(bytes, j) by {
        assert(bytes[j] == tail[j - i]);
        is_char_boundary_iff_not_is_continuation_byte(bytes, j);
    }
}

/// The last code point of a valid, non-empty byte sequence starts on a
/// boundary and ends with the sequence.
proof fn lemma_last_scalar(bytes: Seq<u8>)
    requires
        valid_utf8(bytes),
        bytes.len() > 0,
    ensures
        1 <= length_of_last_scalar(bytes) <= 4,
        length_of_last_scalar(bytes) <= bytes.len(),
        is_char_boundary(bytes, bytes.len() - length_of_last_scalar(bytes)),
        forall|j: int|
            bytes.len() - length_of_last_scalar(bytes) < j < bytes.len() ==> !is_char_boundary(
                bytes,
                j,
            ),
    decreases bytes.len(),
{
    lemma_first_scalar_valid(bytes);
    let n = length_of_first_scalar(bytes);
    let rest = pop_first_scalar(bytes);
    if rest.len() == 0 {
        assert(length_of_last_scalar(bytes) == n);
    } else {
        lemma_last_scalar(rest);
        let m = length_of_last_scalar(rest);
        assert forall|k: int| 0 <= k < rest.len() implies rest[k] == bytes[n + k] by {}
        assert(rest.len() == bytes.len() - n);
        assert(length_of_last_scalar(bytes) == m);
        lemma_boundary_in_range(rest, rest.len() - m);
    }
    let start = bytes.len() - length_of_last_scalar(bytes);
    assert forall|j: int| start < j < bytes.len() implies !is_char_boundary(bytes, j) by {
        is_char_boundary_iff_not_is_continuation_byte(bytes, j);
    }
}

/// From a boundary after the start, the previous boundary is where the code
/// point that ends there starts: at most four bytes back, with none in
/// between.
pub proof fn lemma_prev_boundary(bytes: Seq<u8>, i: int)
    requires
        valid_utf8(bytes),
        is_char_boundary(bytes, i),
        0 < i,
    ensures
        i - 4 <= prev_boundary(bytes, i) < i,
        0 <= prev_boundary(bytes, i),
        is_char_boundary(bytes, prev_boundary(bytes, i)),
        forall|j: int| prev_boundary(bytes, i) < j < i ==> !is_char_boundary(bytes, j),
        next_boundary(bytes, prev_boundary(bytes, i)) == i,
{
    lemma_boundary_in_range(bytes, i);
    valid_utf8_split(bytes, i);
    let head = bytes.subrange(0, i);
    lemma_last_scalar(head);
    let p = prev_boundary(bytes, i);
    assert forall|j: int| p <= j < i implies is_char_boundary(bytes, j) == is_char_boundary(
        head,
        j,
    ) by {
        assert(bytes[j] == head[j]);
        is_char_boundary_iff_not_is_continuation_byte(bytes, j);
        is_char_boundary_iff_not_is_continuation_byte(head, j);
    }
    lemma_next_boundary(bytes, p);
}

/// The encoding of one character decodes to that character.
proof fn lemma_decode_one(c: char)
    ensures
        valid_utf8(encode_scalar(c as u32)),
        decode_utf8(encode_scalar(c as u32)) == seq![c],
{
    assert(encode_utf8(seq![c]) =~= encode_scalar(c as u32)) by {
        reveal_with_fuel(encode_utf8, 2);
        assert(seq![c].drop_first() =~= Seq::<char>::empty());
    }
    encode_utf8_valid_utf8(seq![c]);
    encode_utf8_decode_utf8(seq![c]);
}

/// Putting the encoding of a character in at a boundary leaves boundaries
/// before and after it.
pub proof fn lemma_splice_boundary(bytes: Seq<u8>, i: int, c: char)
    requires
        valid_utf8(bytes),
        is_char_boundary(bytes, i),
    ensures
        valid_utf8(spliced(bytes, i, encode_scalar(c as u32))),
        is_char_boundary(spliced(bytes, i, encode_scalar(c as u32)), i),
        is_char_boundary(
            spliced(bytes, i, encode_scalar(c as u32)),
            i + encode_scalar(c as u32).len(),
        ),
        1 <= encode_scalar(c as u32).len() <= 4,
{
    lemma_boundary_in_range(bytes, i);
    valid_utf8_split(bytes, i);
    let head = bytes.subrange(0, i);
    let tail = bytes.subrange(i, bytes.len() as int);
    let piece = encode_scalar(c as u32);
    lemma_decode_one(c);
    valid_utf8_concat(head, piece);
    valid_utf8_concat(piece, tail);
    lemma_join_boundary(head + piece, tail);
    lemma_join_boundary(head, piece + tail);
    assert(head + (piece + tail) =~= (head + piece) + tail);
}

/// Taking out the span between two boundaries leaves a boundary where it
/// was.
pub proof fn lemma_cut_boundary(bytes: Seq<u8>, from: int, to: int)
    requires
        valid_utf8(bytes),
        is_char_boundary(bytes, from),
        is_char_boundary(bytes, to),
        from <= to,
    ensures
        valid_utf8(cut(bytes, from, to)),
        is_char_boundary(cut(bytes, from, to), from),
        cut(bytes, from, to).len() == bytes.len() - (to - from),
{
    lemma_boundary_in_range(bytes, from);
    lemma_boundary_in_range(bytes, to);
    valid_utf8_split(bytes, from);
    valid_utf8_split(bytes, to);
    lemma_join_boundary(bytes.subrange(0, from), bytes.subrange(to, bytes.len() as int));
}

/// The characters of a text before the byte offset `i`.
pub open spec fn chars_before(text: Seq<char>, i: int) -> Seq<char> {
    decode_utf8(utf8(text).subrange(0, i))
}

/// The characters of a text from the byte offset `i` on.
pub open spec fn chars_from(text: Seq<char>, i: int) -> Seq<char> {
    decode_utf8(utf8(text).subrange(i, utf8(text).len() as int))
}

/// Two valid byte sequences, joined, decode to their characters, joined.
pub proof fn lemma_decode_join(a: Seq<u8>, b: Seq<u8>)
    requires
        valid_utf8(a),
        valid_utf8(b),
    ensures
        decode_utf8(a + b) == decode_utf8(a) + decode_utf8(b),
{
    lemma_join_boundary(a, b);
    decode_utf8_split(a + b, a.len() as int);
    assert((a + b).subrange(0, a.len() as int) =~= a);
    assert((a + b).subrange(a.len() as int, (a + b).len() as int) =~= b);
}

/// A text is its characters before a boundary and those from it on.
pub proof fn lemma_chars_split(text: Seq<char>, i: int)
    requires
        on_boundary(text, i),
    ensures
        text == chars_before(text, i) + chars_from(text, i),
{
    encode_utf8_valid_utf8(text);
    encode_utf8_decode_utf8(text);
    decode_utf8_split(utf8(text), i);
}

/// In characters, putting the encoding of `c` in at a boundary puts `c`
/// between the characters before the boundary and those after it.
pub proof fn lemma_spliced_chars(text: Seq<char>, next: Seq<char>, i: int, c: char)
    requires
        on_boundary(text, i),
        utf8(next) == spliced(utf8(text), i, encode_scalar(c as u32)),
    ensures
        next == chars_before(text, i).push(c) + chars_from(text, i),
        chars_before(next, i + encode_scalar(c as u32).len()) == chars_before(text, i).push(c),
        chars_from(next, i + encode_scalar(c as u32).len()) == chars_from(text, i),
{
    let bytes = utf8(text);
    let head = bytes.subrange(0, i);
    let tail = bytes.subrange(i, bytes.len() as int);
    let piece = encode_scalar(c as u32);
    let after = utf8(next);
    let j = i + piece.len();
    encode_utf8_valid_utf8(text);
    encode_utf8_decode_utf8(next);
    lemma_boundary_in_range(bytes, i);
    valid_utf8_split(bytes, i);
    lemma_decode_one(c);
    valid_utf8_concat(head, piece);
    lemma_decode_join(head, piece);
    lemma_decode_join(head + piece, tail);
    assert(decode_utf8(head) + seq![c] =~= decode_utf8(head).push(c));
    assert(after.subrange(0, j) =~= head + piece);
    assert(after.subrange(j, after.len() as int) =~= tail);
}

/// In characters, taking out the bytes between two boundaries leaves the
/// characters before the first and those from the second on.
pub proof fn lemma_cut_chars(text: Seq<char>, next: Seq<char>, from: int, to: int)
    requires
        on_boundary(text, from),
        on_boundary(text, to),
        from <= to,
        utf8(next) == cut(utf8(text), from, to),
    ensures
        next == chars_before(text, from) + chars_from(text, to),
        chars_before(next, from) == chars_before(text, from),
        chars_from(next, from) == chars_from(text, to),
{
    let bytes = utf8(text);
    let after = utf8(next);
    encode_utf8_valid_utf8(text);
    encode_utf8_decode_utf8(next);
    lemma_boundary_in_range(bytes, from);
    lemma_boundary_in_range(bytes, to);
    valid_utf8_split(bytes, from);
    valid_utf8_split(bytes, to);
    lemma_decode_join(bytes.subrange(0, from), bytes.subrange(to, bytes.len() as int));
    assert(after.subrange(0, from) =~= bytes.subrange(0, from));
    assert(after.subrange(from, after.len() as int) =~= bytes.subrange(to, bytes.len() as int));
}

/// Between a boundary and the next lies one character: the first of those
/// from the boundary on.
pub proof fn lemma_next_char(text: Seq<char>, i: int)
    requires
        on_boundary(text, i),
        i < utf8(text).len(),
    ensures
        chars_from(text, i).len() > 0,
        chars_before(text, next_boundary(utf8(text), i)) == chars_before(text, i).push(
            chars_from(text, i)[0],
        ),
        chars_from(text, next_boundary(utf8(text), i)) == chars_from(text, i).drop_first(),
{
    let bytes = utf8(text);
    let n = next_boundary(bytes, i);
    let head = bytes.subrange(0, i);
    let tail = bytes.subrange(i, bytes.len() as int);
    encode_utf8_valid_utf8(text);
    lemma_boundary_in_range(bytes, i);
    valid_utf8_split(bytes, i);
    lemma_next_boundary(bytes, i);
    lemma_first_scalar_valid(tail);
    let first = take_first_scalar(tail);
    let rest = pop_first_scalar(tail);
    assert(rest =~= bytes.subrange(n, bytes.len() as int));
    assert(chars_from(text, i).drop_first() =~= decode_utf8(rest));
    assert(decode_utf8(first) =~= seq![decode_first_scalar(tail) as char]) by {
        reveal_with_fuel(decode_utf8, 2);
        assert(pop_first_scalar(first) =~= Seq::<u8>::empty());
        assert(decode_first_scalar(first) == decode_first_scalar(tail));
    }
    lemma_decode_join(head, first);
    assert(head + first =~= bytes.subrange(0, n));
    assert(decode_utf8(head) + seq![decode_first_scalar(tail) as char] =~= decode_utf8(head).push(
        chars_from(text, i)[0],
    ));
}

/// Between a boundary and the one before lies one character: the last of
/// those before the boundary.
pub proof fn lemma_prev_char(text: Seq<char>, i: int)
    requires
        on_boundary(text, i),
        0 < i,
    ensures
        chars_before(text, i).len() > 0,
        chars_before(text, prev_boundary(utf8(text), i)) == chars_before(text, i).drop_last(),
        chars_from(text, prev_boundary(utf8(text), i)) == seq![chars_before(text, i).last()]
            + chars_from(text, i),
{
    let bytes = utf8(text);
    let p = prev_boundary(bytes, i);
    encode_utf8_valid_utf8(text);
    lemma_prev_boundary(bytes, i);
    lemma_next_char(text, p);
    let before = chars_before(text, p);
    let c = chars_from(text, p)[0];
    assert(before.push(c).drop_last() =~= before);
    assert(chars_from(text, p) =~= seq![c] + chars_from(text, p).drop_first());
}

/// The length of a text in bytes.
pub fn byte_len(s: &String) -> (n: usize)
    ensures
        n == utf8(s@).len(),
{
    s.as_str().as_bytes().len()
}

/// Whether two texts are the same, character by character.
pub fn same_text(a: &str, b: &str) -> (r: bool)
    ensures
        r == (a@ == b@),
{
    let x = a.as_bytes();
    let y = b.as_bytes();
    proof {
        encode_utf8_decode_utf8(a@);
        encode_utf8_decode_utf8(b@);
    }
    if x.len() != y.len() {
        return false;
    }
    let mut i: usize = 0;
    while i < x.len()
        invariant
            i <= x@.len() == y@.len(),
            x@ == encode_utf8(a@),
            y@ == encode_utf8(b@),
            forall|j: int| 0 <= j < i ==> x@[j] == y@[j],
        decreases x@.len() - i,
    {
        if x[i] != y[i] {
            return false;
        }
        i += 1;
    }
    assert(x@ =~= y@);
    true
}

/// What std documents of `char::len_utf8`: the number of bytes that the
/// character takes in UTF-8, from one to four.
pub assume_specification[ char::len_utf8 ](c: char) -> (n: usize)
    ensures
        n == encode_scalar(c as u32).len(),
;

/// `String::insert`, which puts a character in at a byte offset and panics
/// unless the offset is a boundary of the text. The contract claims that the
/// bytes before and after the offset stay and the character's encoding
/// stands between them.
#[verifier::external_body]
pub(crate) fn string_insert(s: &mut String, at: usize, c: char)
    requires
        on_boundary(old(s)@, at as int),
    ensures
        utf8(final(s)@) == spliced(utf8(old(s)@), at as int, encode_scalar(c as u32)),
{
    s.insert(at, c);
}

/// `String::remove`, which takes out the character that starts at a byte
/// offset and panics unless the offset is a boundary before the end of the
/// text. The contract claims that exactly the bytes of that character go.
#[verifier::external_body]
pub(crate) fn string_remove(s: &mut String, at: usize)
    requires
        on_boundary(old(s)@, at as int),
        at < utf8(old(s)@).len(),
    ensures
        utf8(final(s)@) == cut(utf8(old(s)@), at as int, next_boundary(utf8(old(s)@), at as int)),
{
    s.remove(at);
}

} // verus!
