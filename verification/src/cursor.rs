//! Byte positions in text: a cursor counts UTF-8 bytes, as `String`'s
//! indices do, and lies on a character boundary or nowhere.

use vstd::prelude::*;
use vstd::utf8::{encode_utf8, encode_scalar, is_scalar, char_is_scalar};

verus! {

/// The number of UTF-8 bytes of a character.
pub open spec fn char_width(c: char) -> nat {
    let v = c as u32;
    if v <= 0x7F {
        1
    } else if v <= 0x7FF {
        2
    } else if v <= 0xFFFF {
        3
    } else {
        4
    }
}

/// The number of UTF-8 bytes of the first `k` characters.
pub open spec fn prefix_bytes(s: Seq<char>, k: int) -> nat {
    encode_utf8(s.take(k)).len()
}

/// Whether byte position `b` lies on a character boundary of `s` (the end
/// counts).
pub open spec fn on_boundary(s: Seq<char>, b: int) -> bool {
    exists|k: int| 0 <= k <= s.len() && #[trigger] prefix_bytes(s, k) == b
}

/// The character position of a boundary byte position.
pub open spec fn char_index(s: Seq<char>, b: int) -> int {
    choose|k: int| 0 <= k <= s.len() && #[trigger] prefix_bytes(s, k) == b
}

/// Encoding a concatenation concatenates the encodings.
pub proof fn lemma_encode_concat(a: Seq<char>, b: Seq<char>)
    ensures
        encode_utf8(a + b) == encode_utf8(a) + encode_utf8(b),
    decreases a.len(),
{
    if a.len() == 0 {
        assert(a + b =~= b);
        assert(encode_utf8(a) =~= Seq::<u8>::empty());
        assert(encode_utf8(a) + encode_utf8(b) =~= encode_utf8(b));
    } else {
        lemma_encode_concat(a.drop_first(), b);
        assert((a + b).drop_first() =~= a.drop_first() + b);
        assert((a + b)[0] == a[0]);
        assert(encode_scalar(a[0] as u32) + (encode_utf8(a.drop_first()) + encode_utf8(b)) =~= (encode_scalar(
            a[0] as u32,
        ) + encode_utf8(a.drop_first())) + encode_utf8(b));
    }
}

/// One character encodes to `char_width` bytes.
pub proof fn lemma_char_width(c: char)
    ensures
        encode_utf8(seq![c]).len() == char_width(c),
        1 <= char_width(c) <= 4,
{
    char_is_scalar(c);
    assert(seq![c].drop_first() =~= Seq::<char>::empty());
    assert(encode_utf8(Seq::<char>::empty()) =~= Seq::<u8>::empty());
    assert(encode_utf8(seq![c]) =~= encode_scalar(c as u32) + encode_utf8(Seq::<char>::empty()));
}

/// One more character adds its width.
pub proof fn lemma_prefix_step(s: Seq<char>, k: int)
    requires
        0 <= k < s.len(),
    ensures
        prefix_bytes(s, k + 1) == prefix_bytes(s, k) + char_width(s[k]),
{
    assert(s.take(k + 1) =~= s.take(k) + seq![s[k]]);
    lemma_encode_concat(s.take(k), seq![s[k]]);
    lemma_char_width(s[k]);
}

/// Longer prefixes have more bytes.
pub proof fn lemma_prefix_grows(s: Seq<char>, j: int, k: int)
    requires
        0 <= j <= k <= s.len(),
    ensures
        prefix_bytes(s, j) + (k - j) <= prefix_bytes(s, k),
    decreases k - j,
{
    if j < k {
        lemma_prefix_grows(s, j, k - 1);
        lemma_prefix_step(s, k - 1);
        lemma_char_width(s[k - 1]);
    }
}

/// A boundary position has one character position.
pub proof fn lemma_char_index(s: Seq<char>, k: int)
    requires
        0 <= k <= s.len(),
    ensures
        on_boundary(s, prefix_bytes(s, k) as int),
        char_index(s, prefix_bytes(s, k) as int) == k,
{
    let b = prefix_bytes(s, k) as int;
    assert(0 <= k <= s.len() && prefix_bytes(s, k) == b);
    let j = char_index(s, b);
    if j < k {
        lemma_prefix_grows(s, j, k);
    } else if j > k {
        lemma_prefix_grows(s, k, j);
    }
}

/// The number of UTF-8 bytes of a character.
pub fn width_of(c: char) -> (r: usize)
    ensures
        r == char_width(c),
{
    let v = c as u32;
    if v <= 0x7F {
        1
    } else if v <= 0x7FF {
        2
    } else if v <= 0xFFFF {
        3
    } else {
        4
    }
}

/// The character position of byte position `b`, or nothing where `b` is not
/// on a character boundary.
pub fn index_at_byte(cs: &Vec<char>, b: usize) -> (r: Option<usize>)
    ensures
        match r {
            Some(k) => k <= cs@.len() && prefix_bytes(cs@, k as int) == b && char_index(cs@, b as int) == k,
            None => !on_boundary(cs@, b as int),
        },
{
    let mut i: usize = 0;
    let mut acc: usize = 0;
    assert(cs@.take(0) =~= Seq::<char>::empty());
    assert(encode_utf8(Seq::<char>::empty()) =~= Seq::<u8>::empty());
    while i < cs.len() && acc < b
        invariant
            i <= cs@.len(),
            acc == prefix_bytes(cs@, i as int),
            forall|k: int| 0 <= k < i ==> #[trigger] prefix_bytes(cs@, k) < b,
        decreases cs@.len() - i,
    {
        let w = width_of(cs[i]);
        proof {
            lemma_prefix_step(cs@, i as int);
        }
        if acc > usize::MAX - w {
            proof {
                assert forall|k: int| 0 <= k <= cs@.len() implies prefix_bytes(cs@, k) != b by {
                    if k > i {
                        lemma_prefix_grows(cs@, i + 1, k);
                    }
                }
            }
            return None;
        }
        acc = acc + w;
        i = i + 1;
    }
    if acc == b {
        proof {
            lemma_char_index(cs@, i as int);
        }
        Some(i)
    } else {
        proof {
            assert forall|k: int| 0 <= k <= cs@.len() implies prefix_bytes(cs@, k) != b by {
                if k > i {
                    lemma_prefix_grows(cs@, i as int, k);
                }
            }
        }
        None
    }
}

} // verus!
