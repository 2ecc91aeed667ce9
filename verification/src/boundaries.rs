//! Facts on the boundaries of characters in UTF-8.

use vstd::prelude::*;
use vstd::utf8::*;

verus! {

/// The first bytes of a text encode its first characters, and the others the rest.
pub proof fn encoding_splits(text: Seq<char>, i: int)
    requires
        0 <= i <= text.len(),
    ensures
        encode_utf8(text) == encode_utf8(text.take(i)) + encode_utf8(text.skip(i)),
    decreases i,
{
    if i == 0 {
        assert(text.take(0) =~= Seq::empty());
        assert(text.skip(0) =~= text);
        assert(encode_utf8(text.take(0)) + encode_utf8(text.skip(0)) =~= encode_utf8(text));
    } else {
        let rest = text.drop_first();
        encoding_splits(rest, i - 1);
        assert(text.take(i).drop_first() =~= rest.take(i - 1));
        assert(text.skip(i) =~= rest.skip(i - 1));
        assert(encode_utf8(text) =~= encode_utf8(text.take(i)) + encode_utf8(text.skip(i)));
    }
}

/// Every character takes at least one byte.
pub proof fn encoding_is_not_shorter(text: Seq<char>)
    ensures
        text.len() <= encode_utf8(text).len(),
    decreases text.len(),
{
    if text.len() > 0 {
        encoding_is_not_shorter(text.drop_first());
    }
}

/// Where bytes begin with an encoding, its end is a boundary.
pub proof fn encoding_ends_at_boundary(bytes: Seq<u8>, first: Seq<u8>)
    requires
        valid_utf8(bytes),
        valid_utf8(first),
        first.len() <= bytes.len(),
        bytes.take(first.len() as int) == first,
    ensures
        is_char_boundary(bytes, first.len() as int),
    decreases first.len(),
{
    if first.len() > 0 {
        assert forall|k: int| 0 <= k < first.len() implies bytes[k] == first[k] by {
            assert(bytes.take(first.len() as int)[k] == bytes[k]);
        }
        let n = length_of_first_scalar(first);
        assert(length_of_first_scalar(bytes) == n);
        let rest = pop_first_scalar(bytes);
        let first_rest = pop_first_scalar(first);
        assert(rest.take(first_rest.len() as int) =~= first_rest);
        encoding_ends_at_boundary(rest, first_rest);
    }
}

/// A boundary of what stands behind a boundary is a boundary of the whole.
pub proof fn boundary_behind_boundary(bytes: Seq<u8>, i: int, j: int)
    requires
        valid_utf8(bytes),
        0 <= i <= bytes.len(),
        is_char_boundary(bytes, i),
        valid_utf8(bytes.skip(i)),
        is_char_boundary(bytes.skip(i), j),
        0 <= j,
    ensures
        is_char_boundary(bytes, i + j),
    decreases bytes.len(),
{
    if i == 0 {
        assert(bytes.skip(0) =~= bytes);
    } else {
        reveal_with_fuel(is_char_boundary, 2);
        let n = length_of_first_scalar(bytes);
        let rest = pop_first_scalar(bytes);
        assert(0 <= i - n);
        assert(rest.skip(i - n) =~= bytes.skip(i));
        boundary_is_in_bytes(bytes.skip(i), j);
        boundary_behind_boundary(rest, i - n, j);
    }
}

/// A boundary lies in the bytes.
pub proof fn boundary_is_in_bytes(bytes: Seq<u8>, i: int)
    requires
        valid_utf8(bytes),
        is_char_boundary(bytes, i),
    ensures
        0 <= i <= bytes.len(),
{
}

/// Where an encoding stands at a boundary, its end is a boundary too.
pub proof fn encoding_within_ends_at_boundary(bytes: Seq<u8>, at: int, needle: Seq<u8>)
    requires
        valid_utf8(bytes),
        is_char_boundary(bytes, at),
        valid_utf8(needle),
        at + needle.len() <= bytes.len(),
        bytes.subrange(at, at + needle.len()) == needle,
    ensures
        is_char_boundary(bytes, at + needle.len()),
{
    boundary_is_in_bytes(bytes, at);
    valid_utf8_split(bytes, at);
    let rest = bytes.skip(at);
    assert(rest =~= bytes.subrange(at, bytes.len() as int));
    assert(rest.take(needle.len() as int) =~= needle);
    encoding_ends_at_boundary(rest, needle);
    boundary_behind_boundary(bytes, at, needle.len() as int);
}

/// A byte of ASCII begins at a boundary and ends at one.
pub proof fn ascii_lies_between_boundaries(bytes: Seq<u8>, at: int)
    requires
        valid_utf8(bytes),
        0 <= at < bytes.len(),
        bytes[at] < 0x80,
    ensures
        is_char_boundary(bytes, at),
        is_char_boundary(bytes, at + 1),
{
    is_char_boundary_iff_not_is_continuation_byte(bytes, at);
    let byte = bytes.subrange(at, at + 1);
    assert(byte =~= seq![bytes[at]]);
    assert(valid_utf8(byte)) by {
        let c = bytes[at] as char;
        assert(is_ascii_chars(seq![c]));
        is_ascii_chars_encode_utf8(seq![c]);
        assert(encode_utf8(seq![c])[0] == seq![c][0] as u8);
        assert(encode_utf8(seq![c]) =~= byte);
        encode_utf8_valid_utf8(seq![c]);
    }
    encoding_within_ends_at_boundary(bytes, at, byte);
}

/// The first characters of a text end at a boundary.
pub proof fn characters_end_at_boundary(text: Seq<char>, i: int)
    requires
        0 <= i <= text.len(),
    ensures
        is_char_boundary(encode_utf8(text), encode_utf8(text.take(i)).len() as int),
        encode_utf8(text.take(i)).len() <= encode_utf8(text).len(),
{
    encoding_splits(text, i);
    let first = encode_utf8(text.take(i));
    encode_utf8_valid_utf8(text);
    encode_utf8_valid_utf8(text.take(i));
    assert(encode_utf8(text).take(first.len() as int) =~= first);
    encoding_ends_at_boundary(encode_utf8(text), first);
}

/// An encoding that stands somewhere in another begins and ends at boundaries, if it is not empty.
pub proof fn encoding_within_lies_between_boundaries(bytes: Seq<u8>, at: int, value: Seq<char>)
    requires
        valid_utf8(bytes),
        value.len() > 0,
        0 <= at,
        at + encode_utf8(value).len() <= bytes.len(),
        bytes.subrange(at, at + encode_utf8(value).len()) == encode_utf8(value),
    ensures
        is_char_boundary(bytes, at),
        is_char_boundary(bytes, at + encode_utf8(value).len()),
{
    let needle = encode_utf8(value);
    encode_utf8_valid_utf8(value);
    encoding_is_not_shorter(value);
    is_char_boundary_start_end_of_seq(needle);
    is_char_boundary_iff_not_is_continuation_byte(needle, 0);
    assert(bytes.subrange(at, at + needle.len())[0] == bytes[at]);
    is_char_boundary_iff_not_is_continuation_byte(bytes, at);
    encoding_within_ends_at_boundary(bytes, at, needle);
}

} // verus!
