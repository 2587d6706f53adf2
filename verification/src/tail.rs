//! Cutting text at character boundaries: what a growing file has added
//! since it was last read, and the bounded tail of a worker's output.

use vstd::prelude::*;
use vstd::utf8::{
    decode_utf8, encode_utf8, encode_utf8_decode_utf8, encode_utf8_valid_utf8, is_char_boundary,
    is_char_boundary_start_end_of_seq, valid_utf8,
};

verus! {

/// The most bytes that an output tail holds.
pub const OUTPUT_TAIL_CAP: usize = 32768;

/// When a tail is over its cap, its oldest bytes are dropped up to the first
/// character boundary behind this offset.
pub const OUTPUT_TAIL_DROP: usize = 8192;

/// The first character boundary of `bytes` behind offset `from`; the end of
/// `bytes` is one.
pub open spec fn next_boundary(bytes: Seq<u8>, from: int) -> int
    decreases bytes.len() - from,
{
    if from + 1 >= bytes.len() {
        bytes.len() as int
    } else if is_char_boundary(bytes, from + 1) {
        from + 1
    } else {
        next_boundary(bytes, from + 1)
    }
}

/// Where reading goes on in a file that was read up to `cursor`: at `cursor`
/// if a character starts there, else at the next character.
pub open spec fn resume_point(bytes: Seq<u8>, cursor: int) -> int {
    if is_char_boundary(bytes, cursor) {
        cursor
    } else {
        next_boundary(bytes, cursor)
    }
}

/// The bytes that a file holding `bytes` has added since it was read up to
/// `cursor`: none unless the file has grown beyond `cursor`.
pub open spec fn fresh_bytes(bytes: Seq<u8>, cursor: nat) -> Seq<u8> {
    if bytes.len() > cursor {
        bytes.subrange(resume_point(bytes, cursor as int), bytes.len() as int)
    } else {
        Seq::empty()
    }
}

/// The text that a file holding `content` has added since it was read up to
/// byte `cursor`.
pub open spec fn fresh_text(content: Seq<char>, cursor: nat) -> Seq<char> {
    decode_utf8(fresh_bytes(encode_utf8(content), cursor))
}

/// The cursor after a file holding `content` was read: the file's length
/// if it has grown beyond `cursor`, else `cursor`.
pub open spec fn advanced_cursor(content: Seq<char>, cursor: nat) -> nat {
    if encode_utf8(content).len() > cursor {
        encode_utf8(content).len()
    } else {
        cursor
    }
}

/// A tail brought under its cap: while it is longer than
/// `OUTPUT_TAIL_CAP` bytes, its head is dropped up to the first character
/// boundary behind `OUTPUT_TAIL_DROP`.
pub open spec fn capped_bytes(bytes: Seq<u8>) -> Seq<u8>
    decreases bytes.len(),
{
    let cut = next_boundary(bytes, OUTPUT_TAIL_DROP as int);
    if bytes.len() <= OUTPUT_TAIL_CAP || cut <= 0 || cut > bytes.len() {
        bytes
    } else {
        capped_bytes(bytes.subrange(cut, bytes.len() as int))
    }
}

/// The text of a tail brought under its cap.
pub open spec fn capped_text(chars: Seq<char>) -> Seq<char> {
    decode_utf8(capped_bytes(encode_utf8(chars)))
}

/// The next boundary lies behind `from` and is a character boundary.
pub proof fn lemma_next_boundary(bytes: Seq<u8>, from: int)
    requires
        valid_utf8(bytes),
        0 <= from < bytes.len(),
    ensures
        from < next_boundary(bytes, from) <= bytes.len(),
        is_char_boundary(bytes, next_boundary(bytes, from)),
        forall|j: int| from < j < next_boundary(bytes, from) ==> !is_char_boundary(bytes, j),
    decreases bytes.len() - from,
{
    is_char_boundary_start_end_of_seq(bytes);
    if from + 1 < bytes.len() && !is_char_boundary(bytes, from + 1) {
        lemma_next_boundary(bytes, from + 1);
    }
}

/// A capped tail is a suffix of the tail and fits the cap.
pub proof fn lemma_capped_bytes(bytes: Seq<u8>)
    requires
        valid_utf8(bytes),
    ensures
        capped_bytes(bytes).len() <= OUTPUT_TAIL_CAP,
        capped_bytes(bytes).len() <= bytes.len(),
        capped_bytes(bytes) == bytes.subrange(
            bytes.len() - capped_bytes(bytes).len(),
            bytes.len() as int,
        ),
        is_char_boundary(bytes, bytes.len() - capped_bytes(bytes).len()),
        bytes.len() <= OUTPUT_TAIL_CAP ==> capped_bytes(bytes) == bytes,
    decreases bytes.len(),
{
    is_char_boundary_start_end_of_seq(bytes);
    if bytes.len() > OUTPUT_TAIL_CAP {
        let cut = next_boundary(bytes, OUTPUT_TAIL_DROP as int);
        lemma_next_boundary(bytes, OUTPUT_TAIL_DROP as int);
        let rest = bytes.subrange(cut, bytes.len() as int);
        vstd::utf8::valid_utf8_split(bytes, cut);
        lemma_capped_bytes(rest);
        let kept = capped_bytes(rest);
        lemma_boundary_of_suffix(bytes, cut, rest.len() - kept.len());
    }
}

/// A character boundary of a suffix that starts at a boundary is a
/// boundary of the whole.
pub proof fn lemma_boundary_of_suffix(bytes: Seq<u8>, cut: int, k: int)
    requires
        valid_utf8(bytes),
        is_char_boundary(bytes, cut),
        0 <= cut <= bytes.len(),
        is_char_boundary(bytes.subrange(cut, bytes.len() as int), k),
    ensures
        is_char_boundary(bytes, cut + k),
{
    let rest = bytes.subrange(cut, bytes.len() as int);
    vstd::utf8::valid_utf8_split(bytes, cut);
    is_char_boundary_start_end_of_seq(bytes);
    is_char_boundary_start_end_of_seq(rest);
    if 0 <= k < rest.len() && cut + k > 0 {
        vstd::utf8::is_char_boundary_iff_not_is_continuation_byte(rest, k);
        vstd::utf8::is_char_boundary_iff_not_is_continuation_byte(bytes, cut + k);
    }
}

/// The length of `s` in bytes.
pub fn byte_len(s: &str) -> (n: usize)
    ensures
        n == encode_utf8(s@).len(),
{
    s.as_bytes().len()
}

/// The first character boundary of `s` behind byte offset `from`; the end
/// of `s` if `from` is not inside `s`.
pub fn boundary_after(s: &str, from: usize) -> (cut: usize)
    ensures
        cut == next_boundary(encode_utf8(s@), from as int),
        cut <= encode_utf8(s@).len(),
        from < encode_utf8(s@).len() ==> from < cut,
        is_char_boundary(encode_utf8(s@), cut as int),
{
    let ghost bytes = encode_utf8(s@);
    proof {
        encode_utf8_valid_utf8(s@);
        is_char_boundary_start_end_of_seq(bytes);
    }
    let n: usize = byte_len(s);
    if from >= n {
        return n;
    }
    let mut cut: usize = from + 1;
    while cut < n && !s.is_char_boundary(cut)
        invariant
            from < cut <= n,
            n == bytes.len(),
            bytes == encode_utf8(s@),
            is_char_boundary(bytes, n as int),
            next_boundary(bytes, from as int) == next_boundary(bytes, cut - 1),
        decreases n - cut,
    {
        cut = cut + 1;
    }
    cut
}

/// What `content` has added since it was read up to byte `cursor`.
pub fn fresh_part<'a>(content: &'a str, cursor: usize) -> (r: &'a str)
    ensures
        r@ == fresh_text(content@, cursor as nat),
{
    proof {
        encode_utf8_valid_utf8(content@);
    }
    let n: usize = byte_len(content);
    if n > cursor {
        let cut: usize = if content.is_char_boundary(cursor) {
            cursor
        } else {
            boundary_after(content, cursor)
        };
        let (_, rest) = content.split_at(cut);
        proof {
            encode_utf8_decode_utf8(rest@);
        }
        rest
    } else {
        let rest: &'static str = "";
        proof {
            reveal_strlit("");
        }
        rest
    }
}

/// Brings `tail` under the cap of `OUTPUT_TAIL_CAP` bytes.
pub fn enforce_cap(tail: &mut String)
    ensures
        final(tail)@ == capped_text(old(tail)@),
        encode_utf8(final(tail)@).len() <= OUTPUT_TAIL_CAP,
{
    proof {
        encode_utf8_valid_utf8(tail@);
        encode_utf8_decode_utf8(tail@);
    }
    if byte_len(tail.as_str()) <= OUTPUT_TAIL_CAP {
        return ;
    }
    let mut s: &str = tail.as_str();
    while byte_len(s) > OUTPUT_TAIL_CAP
        invariant
            capped_bytes(encode_utf8(s@)) == capped_bytes(encode_utf8(old(tail)@)),
        decreases encode_utf8(s@).len(),
    {
        let cut: usize = boundary_after(s, OUTPUT_TAIL_DROP);
        let (_, rest) = s.split_at(cut);
        s = rest;
    }
    let kept = String::from_str(s);
    proof {
        encode_utf8_decode_utf8(s@);
    }
    *tail = kept;
}

} // verus!
