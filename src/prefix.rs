//! Prefix tests on strings, decided on their UTF-8 bytes and stated on their characters.
use vstd::prelude::*;
use vstd::utf8::*;

verus! {

/// `p` is a prefix of `s`.
pub open spec fn has_prefix<A>(s: Seq<A>, p: Seq<A>) -> bool {
    p.len() <= s.len() && s.subrange(0, p.len() as int) == p
}

/// Encoding distributes over concatenation.
proof fn lemma_encode_concat(a: Seq<char>, b: Seq<char>)
    ensures
        encode_utf8(a + b) == encode_utf8(a) + encode_utf8(b),
    decreases a.len(),
{
    if a.len() == 0 {
        assert(a + b =~= b);
        assert(encode_utf8(a) + encode_utf8(b) =~= encode_utf8(b));
    } else {
        assert((a + b).drop_first() =~= a.drop_first() + b);
        lemma_encode_concat(a.drop_first(), b);
        assert(encode_utf8(a + b) =~= encode_utf8(a) + encode_utf8(b));
    }
}

/// Bytes that begin with the encoding of `p` decode to `p` followed by the rest.
proof fn lemma_decode_after_encoded(p: Seq<char>, r: Seq<u8>)
    requires
        valid_utf8(encode_utf8(p) + r),
    ensures
        valid_utf8(r),
        decode_utf8(encode_utf8(p) + r) == p + decode_utf8(r),
    decreases p.len(),
{
    let e = encode_utf8(p);
    let b = e + r;
    if p.len() == 0 {
        assert(b =~= r);
        assert(p + decode_utf8(r) =~= decode_utf8(r));
    } else {
        let head = encode_scalar(p[0] as u32);
        let rest = p.drop_first();
        encode_utf8_first_scalar(p);
        assert(e == head + encode_utf8(rest));
        assert(forall|i: int| 0 <= i < e.len() ==> b[i] == e[i]);
        let k = length_of_first_scalar(e);
        assert(length_of_first_scalar(b) == k);
        assert(decode_first_scalar(b) == decode_first_scalar(e));
        assert(pop_first_scalar(b) =~= encode_utf8(rest) + r);
        lemma_decode_after_encoded(rest, r);
        char_u32_cast(p[0], p[0] as u32);
        assert(decode_utf8(b) =~= p + decode_utf8(r));
    }
}

/// A prefix on the encodings is a prefix on the characters.
proof fn lemma_prefix_encoded(s: Seq<char>, p: Seq<char>)
    ensures
        has_prefix(encode_utf8(s), encode_utf8(p)) == has_prefix(s, p),
{
    if has_prefix(s, p) {
        let t = s.subrange(p.len() as int, s.len() as int);
        assert(s =~= p + t);
        lemma_encode_concat(p, t);
        assert(encode_utf8(s).subrange(0, encode_utf8(p).len() as int) =~= encode_utf8(p));
    }
    if has_prefix(encode_utf8(s), encode_utf8(p)) {
        let es = encode_utf8(s);
        let ep = encode_utf8(p);
        let r = es.subrange(ep.len() as int, es.len() as int);
        assert(es =~= ep + r);
        encode_utf8_valid_utf8(s);
        lemma_decode_after_encoded(p, r);
        encode_utf8_decode_utf8(s);
        assert(s.subrange(0, p.len() as int) =~= p);
    }
}

/// Whether `s` begins with `p`.
pub fn starts_with(s: &str, p: &str) -> (r: bool)
    ensures
        r == has_prefix(s@, p@),
{
    let sb = s.as_bytes();
    let pb = p.as_bytes();
    proof {
        lemma_prefix_encoded(s@, p@);
    }
    if pb.len() > sb.len() {
        return false;
    }
    let mut i: usize = 0;
    while i < pb.len()
        invariant
            0 <= i <= pb@.len() <= sb@.len(),
            has_prefix(sb@, pb@) == has_prefix(s@, p@),
            forall|j: int| 0 <= j < i ==> sb@[j] == pb@[j],
        decreases pb@.len() - i,
    {
        if sb[i] != pb[i] {
            assert(sb@.subrange(0, pb@.len() as int)[i as int] != pb@[i as int]);
            return false;
        }
        i = i + 1;
    }
    assert(sb@.subrange(0, pb@.len() as int) =~= pb@);
    true
}

} // verus!
