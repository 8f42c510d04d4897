//! Cutting text to a number of UTF-8 bytes without splitting a character.
use vstd::prelude::*;
use vstd::string::*;
use vstd::utf8::*;

verus! {

/// The number of bytes that `s` takes in UTF-8.
pub open spec fn byte_len(s: Seq<char>) -> nat {
    encode_utf8(s).len()
}

/// What is left of `s` once characters have been dropped from its end until it takes at most
/// `limit` bytes.
pub open spec fn clip(s: Seq<char>, limit: nat) -> Seq<char>
    decreases s.len(),
{
    if byte_len(s) <= limit || s.len() == 0 {
        s
    } else {
        clip(s.drop_last(), limit)
    }
}

/// The encoding of a concatenation is the concatenation of the encodings.
pub proof fn lemma_encode_concat(a: Seq<char>, b: Seq<char>)
    ensures
        encode_utf8(a + b) == encode_utf8(a) + encode_utf8(b),
    decreases a.len(),
{
    if a.len() == 0 {
        assert(a + b =~= b);
        assert(encode_utf8(a) + encode_utf8(b) =~= encode_utf8(b));
    } else {
        lemma_encode_concat(a.drop_first(), b);
        assert((a + b).drop_first() =~= a.drop_first() + b);
        let head = encode_scalar(a[0] as u32);
        assert(head + (encode_utf8(a.drop_first()) + encode_utf8(b)) =~= (head + encode_utf8(
            a.drop_first(),
        )) + encode_utf8(b));
    }
}

/// Every character takes at least one byte.
proof fn lemma_byte_len_covers_len(s: Seq<char>)
    ensures
        byte_len(s) >= s.len(),
    decreases s.len(),
{
    if s.len() > 0 {
        lemma_byte_len_covers_len(s.drop_first());
    }
}

/// A longer prefix takes more bytes.
pub proof fn lemma_byte_len_grows(s: Seq<char>, i: int, j: int)
    requires
        0 <= i < j <= s.len(),
    ensures
        byte_len(s.take(i)) < byte_len(s.take(j)),
{
    let rest = s.subrange(i, j);
    assert(s.take(j) =~= s.take(i) + rest);
    lemma_encode_concat(s.take(i), rest);
    lemma_byte_len_covers_len(rest);
}

/// The end of every prefix of `s` is a character boundary of its encoding.
proof fn lemma_prefix_end_is_boundary(s: Seq<char>, k: int)
    requires
        0 <= k <= s.len(),
    ensures
        is_char_boundary(encode_utf8(s), byte_len(s.take(k)) as int),
    decreases s.len(),
{
    let bytes = encode_utf8(s);
    encode_utf8_valid_utf8(s);
    if k == 0 {
        assert(s.take(0) =~= Seq::<char>::empty());
    } else {
        let tail = s.drop_first();
        encode_utf8_first_scalar(s);
        assert(pop_first_scalar(bytes) =~= encode_utf8(tail));
        assert(s.take(k).drop_first() =~= tail.take(k - 1));
        lemma_prefix_end_is_boundary(tail, k - 1);
        if k < s.len() {
            lemma_byte_len_grows(s, k, s.len() as int);
        }
        assert(s.take(s.len() as int) =~= s);
    }
}

/// A prefix that fits, and beyond which no prefix fits, is what `clip` leaves.
proof fn lemma_longest_prefix_is_clip(s: Seq<char>, limit: nat, k: int)
    requires
        0 <= k <= s.len(),
        byte_len(s.take(k)) <= limit,
        forall|j: int| k < j <= s.len() ==> byte_len(#[trigger] s.take(j)) > limit,
    ensures
        clip(s, limit) == s.take(k),
    decreases s.len(),
{
    assert(s.take(s.len() as int) =~= s);
    if k < s.len() {
        let t = s.drop_last();
        assert(t.take(k) =~= s.take(k));
        assert forall|j: int| k < j <= t.len() implies byte_len(#[trigger] t.take(j)) > limit by {
            assert(t.take(j) =~= s.take(j));
        }
        lemma_longest_prefix_is_clip(t, limit, k);
    }
}

/// The clipped text is a prefix of the text, it fits, and no longer prefix does.
pub proof fn law_clip_is_longest_fitting_prefix(s: Seq<char>, limit: nat)
    ensures
        clip(s, limit).is_prefix_of(s),
        byte_len(clip(s, limit)) <= limit,
        forall|j: int|
            clip(s, limit).len() < j <= s.len() ==> byte_len(#[trigger] s.take(j)) > limit,
    decreases s.len(),
{
    if byte_len(s) <= limit || s.len() == 0 {
    } else {
        let t = s.drop_last();
        law_clip_is_longest_fitting_prefix(t, limit);
        assert forall|j: int| clip(s, limit).len() < j <= s.len() implies byte_len(
            #[trigger] s.take(j),
        ) > limit by {
            if j == s.len() {
                assert(s.take(j) =~= s);
            } else {
                assert(s.take(j) =~= t.take(j));
            }
        }
    }
}

/// Text that fits is left as it is.
pub proof fn law_clip_keeps_short_text(s: Seq<char>, limit: nat)
    requires
        byte_len(s) <= limit,
    ensures
        clip(s, limit) == s,
{
}

/// Cuts `s` to at most `limit` bytes, backing off to the nearest character boundary.
pub fn clip_str<'a>(s: &'a str, limit: usize) -> (r: &'a str)
    ensures
        r@ == clip(s@, limit as nat),
{
    let ghost bytes = s.spec_bytes();
    if s.as_bytes().len() <= limit {
        return s;
    }
    proof {
        encode_utf8_valid_utf8(s@);
        is_char_boundary_start_end_of_seq(bytes);
    }
    let mut i: usize = limit;
    while i > 0 && !s.is_char_boundary(i)
        invariant
            bytes == s.spec_bytes(),
            i <= limit < bytes.len(),
            forall|j: int| i < j <= limit ==> !#[trigger] is_char_boundary(bytes, j),
        decreases i,
    {
        i -= 1;
    }
    assert(is_char_boundary(bytes, i as int));
    let (head, tail) = s.split_at(i);
    proof {
        let k = head@.len() as int;
        assert(bytes =~= head.spec_bytes() + tail.spec_bytes());
        lemma_encode_concat(head@, tail@);
        encode_utf8_decode_utf8(s@);
        encode_utf8_decode_utf8(head@ + tail@);
        assert(s@ == head@ + tail@);
        assert(s@.take(k) =~= head@);
        assert forall|j: int| k < j <= s@.len() implies byte_len(#[trigger] s@.take(j)) > limit by {
            lemma_prefix_end_is_boundary(s@, j);
            lemma_byte_len_grows(s@, k, j);
        }
        lemma_longest_prefix_is_clip(s@, limit as nat, k);
    }
    head
}

} // verus!
