//! URL-safe, unpadded base64: the canonical text form of a content id, used
//! both as a registry key and as a cache file name.
use vstd::prelude::*;

verus! {

/// The URL-safe base64 alphabet, as the byte for a 6-bit value.
pub open spec fn b64_byte(v: int) -> u8 {
    if 0 <= v < 26 {
        (v + 65) as u8  // 'A'..='Z'
    } else if 26 <= v < 52 {
        (v + 71) as u8  // 'a'..='z'
    } else if 52 <= v < 62 {
        (v - 4) as u8  // '0'..='9'
    } else if v == 62 {
        45u8  // '-'
    } else {
        95u8  // '_'
    }
}

/// The four output bytes for a full group of three input bytes.
pub open spec fn enc3(a: u8, b: u8, c: u8) -> Seq<u8> {
    seq![
        b64_byte((a >> 2) as int),
        b64_byte((((a & 3) << 4) | (b >> 4)) as int),
        b64_byte((((b & 15) << 2) | (c >> 6)) as int),
        b64_byte((c & 63) as int),
    ]
}

/// The three output bytes for a trailing group of two input bytes (no padding).
pub open spec fn enc2(a: u8, b: u8) -> Seq<u8> {
    seq![
        b64_byte((a >> 2) as int),
        b64_byte((((a & 3) << 4) | (b >> 4)) as int),
        b64_byte(((b & 15) << 2) as int),
    ]
}

/// The two output bytes for a trailing single input byte (no padding).
pub open spec fn enc1(a: u8) -> Seq<u8> {
    seq![b64_byte((a >> 2) as int), b64_byte(((a & 3) << 4) as int)]
}

/// URL-safe unpadded base64 of a byte sequence.
pub open spec fn b64_encode(s: Seq<u8>) -> Seq<u8>
    decreases s.len(),
{
    if s.len() >= 3 {
        enc3(s[0], s[1], s[2]) + b64_encode(s.skip(3))
    } else if s.len() == 2 {
        enc2(s[0], s[1])
    } else if s.len() == 1 {
        enc1(s[0])
    } else {
        Seq::empty()
    }
}

fn enc_byte(v: u8) -> (r: u8)
    requires
        v < 64,
    ensures
        r == b64_byte(v as int),
{
    if v < 26 {
        v + 65
    } else if v < 52 {
        v + 71
    } else if v < 62 {
        v - 4
    } else if v == 62 {
        45
    } else {
        95
    }
}

/// URL-safe unpadded base64 encoding of `s`.
pub fn encode(s: &Vec<u8>) -> (r: Vec<u8>)
    ensures
        r@ == b64_encode(s@),
{
    let mut out: Vec<u8> = Vec::new();
    let mut i: usize = 0;
    proof {
        assert(s@.skip(0) =~= s@);
    }
    while i < s.len() && s.len() - i >= 3
        invariant
            i <= s.len(),
            out@ + b64_encode(s@.skip(i as int)) == b64_encode(s@),
        decreases s.len() - i,
    {
        let a = s[i];
        let b = s[i + 1];
        let c = s[i + 2];
        proof {
            assert(a >> 2 < 64 && ((a & 3) << 4) | (b >> 4) < 64 && ((b & 15) << 2) | (c >> 6)
                < 64 && c & 63 < 64) by (bit_vector);
            assert(s@.skip(i as int).len() >= 3);
            assert(s@.skip(i as int)[0] == a && s@.skip(i as int)[1] == b && s@.skip(i as int)[2]
                == c);
            assert(s@.skip(i as int).skip(3) =~= s@.skip(i + 3));
        }
        out.push(enc_byte(a >> 2));
        out.push(enc_byte(((a & 3) << 4) | (b >> 4)));
        out.push(enc_byte(((b & 15) << 2) | (c >> 6)));
        out.push(enc_byte(c & 63));
        proof {
            assert(out@ + b64_encode(s@.skip(i + 3)) =~= b64_encode(s@));
        }
        i = i + 3;
    }
    if s.len() - i == 2 {
        let a = s[i];
        let b = s[i + 1];
        proof {
            assert(a >> 2 < 64 && ((a & 3) << 4) | (b >> 4) < 64 && (b & 15) << 2 < 64)
                by (bit_vector);
            assert(s@.skip(i as int)[0] == a && s@.skip(i as int)[1] == b);
        }
        out.push(enc_byte(a >> 2));
        out.push(enc_byte(((a & 3) << 4) | (b >> 4)));
        out.push(enc_byte((b & 15) << 2));
        proof {
            assert(out@ =~= b64_encode(s@));
        }
    } else if s.len() - i == 1 {
        let a = s[i];
        proof {
            assert(a >> 2 < 64 && (a & 3) << 4 < 64) by (bit_vector);
            assert(s@.skip(i as int)[0] == a);
        }
        out.push(enc_byte(a >> 2));
        out.push(enc_byte((a & 3) << 4));
        proof {
            assert(out@ =~= b64_encode(s@));
        }
    } else {
        proof {
            assert(s@.skip(i as int) =~= Seq::<u8>::empty());
            assert(out@ =~= b64_encode(s@));
        }
    }
    out
}

/// The alphabet is injective on 6-bit values.
proof fn lemma_b64_byte_injective(u: int, v: int)
    requires
        0 <= u < 64,
        0 <= v < 64,
        b64_byte(u) == b64_byte(v),
    ensures
        u == v,
{
}

/// A full group's four output bytes determine its three input bytes.
proof fn lemma_enc3_injective(a0: u8, a1: u8, a2: u8, b0: u8, b1: u8, b2: u8)
    requires
        enc3(a0, a1, a2) == enc3(b0, b1, b2),
    ensures
        a0 == b0 && a1 == b1 && a2 == b2,
{
    assert(a0 >> 2 < 64 && ((a0 & 3) << 4) | (a1 >> 4) < 64 && ((a1 & 15) << 2) | (a2 >> 6) < 64
        && a2 & 63 < 64) by (bit_vector);
    assert(b0 >> 2 < 64 && ((b0 & 3) << 4) | (b1 >> 4) < 64 && ((b1 & 15) << 2) | (b2 >> 6) < 64
        && b2 & 63 < 64) by (bit_vector);
    assert(enc3(a0, a1, a2)[0] == enc3(b0, b1, b2)[0]);
    assert(enc3(a0, a1, a2)[1] == enc3(b0, b1, b2)[1]);
    assert(enc3(a0, a1, a2)[2] == enc3(b0, b1, b2)[2]);
    assert(enc3(a0, a1, a2)[3] == enc3(b0, b1, b2)[3]);
    lemma_b64_byte_injective((a0 >> 2) as int, (b0 >> 2) as int);
    lemma_b64_byte_injective(
        (((a0 & 3) << 4) | (a1 >> 4)) as int,
        (((b0 & 3) << 4) | (b1 >> 4)) as int,
    );
    lemma_b64_byte_injective(
        (((a1 & 15) << 2) | (a2 >> 6)) as int,
        (((b1 & 15) << 2) | (b2 >> 6)) as int,
    );
    lemma_b64_byte_injective((a2 & 63) as int, (b2 & 63) as int);
    assert(a0 == b0 && a1 == b1 && a2 == b2) by (bit_vector)
        requires
            a0 >> 2 == b0 >> 2,
            ((a0 & 3) << 4) | (a1 >> 4) == ((b0 & 3) << 4) | (b1 >> 4),
            ((a1 & 15) << 2) | (a2 >> 6) == ((b1 & 15) << 2) | (b2 >> 6),
            a2 & 63 == b2 & 63,
    ;
}

/// A trailing two-byte group's three output bytes determine its input bytes.
proof fn lemma_enc2_injective(a0: u8, a1: u8, b0: u8, b1: u8)
    requires
        enc2(a0, a1) == enc2(b0, b1),
    ensures
        a0 == b0 && a1 == b1,
{
    assert(a0 >> 2 < 64 && ((a0 & 3) << 4) | (a1 >> 4) < 64 && (a1 & 15) << 2 < 64)
        by (bit_vector);
    assert(b0 >> 2 < 64 && ((b0 & 3) << 4) | (b1 >> 4) < 64 && (b1 & 15) << 2 < 64)
        by (bit_vector);
    assert(enc2(a0, a1)[0] == enc2(b0, b1)[0]);
    assert(enc2(a0, a1)[1] == enc2(b0, b1)[1]);
    assert(enc2(a0, a1)[2] == enc2(b0, b1)[2]);
    lemma_b64_byte_injective((a0 >> 2) as int, (b0 >> 2) as int);
    lemma_b64_byte_injective(
        (((a0 & 3) << 4) | (a1 >> 4)) as int,
        (((b0 & 3) << 4) | (b1 >> 4)) as int,
    );
    lemma_b64_byte_injective(((a1 & 15) << 2) as int, ((b1 & 15) << 2) as int);
    assert(a0 == b0 && a1 == b1) by (bit_vector)
        requires
            a0 >> 2 == b0 >> 2,
            ((a0 & 3) << 4) | (a1 >> 4) == ((b0 & 3) << 4) | (b1 >> 4),
            (a1 & 15) << 2 == (b1 & 15) << 2,
    ;
}

/// A trailing single byte's two output bytes determine it.
proof fn lemma_enc1_injective(a0: u8, b0: u8)
    requires
        enc1(a0) == enc1(b0),
    ensures
        a0 == b0,
{
    assert(a0 >> 2 < 64 && (a0 & 3) << 4 < 64) by (bit_vector);
    assert(b0 >> 2 < 64 && (b0 & 3) << 4 < 64) by (bit_vector);
    assert(enc1(a0)[0] == enc1(b0)[0]);
    assert(enc1(a0)[1] == enc1(b0)[1]);
    lemma_b64_byte_injective((a0 >> 2) as int, (b0 >> 2) as int);
    lemma_b64_byte_injective(((a0 & 3) << 4) as int, ((b0 & 3) << 4) as int);
    assert(a0 == b0) by (bit_vector)
        requires
            a0 >> 2 == b0 >> 2,
            (a0 & 3) << 4 == (b0 & 3) << 4,
    ;
}

/// The encoding is injective: two byte sequences with the same encoded name
/// are the same sequence. So every id has its own cache name.
pub proof fn lemma_encode_injective(a: Seq<u8>, b: Seq<u8>)
    requires
        b64_encode(a) == b64_encode(b),
    ensures
        a == b,
    decreases a.len(),
{
    if a.len() >= 3 {
        assert(b64_encode(a).len() >= 4);
        assert(b.len() >= 3);
        let ea = enc3(a[0], a[1], a[2]);
        let eb = enc3(b[0], b[1], b[2]);
        assert forall|i: int| 0 <= i < 4 implies ea[i] == eb[i] by {
            assert(ea[i] == b64_encode(a)[i]);
            assert(eb[i] == b64_encode(b)[i]);
        }
        assert(ea =~= eb);
        lemma_enc3_injective(a[0], a[1], a[2], b[0], b[1], b[2]);
        assert(b64_encode(a.skip(3)) =~= b64_encode(b.skip(3))) by {
            assert(b64_encode(a.skip(3)).len() == b64_encode(b.skip(3)).len());
            assert forall|i: int| 0 <= i < b64_encode(a.skip(3)).len() implies b64_encode(
                a.skip(3),
            )[i] == b64_encode(b.skip(3))[i] by {
                assert(b64_encode(a.skip(3))[i] == b64_encode(a)[i + 4]);
                assert(b64_encode(b.skip(3))[i] == b64_encode(b)[i + 4]);
            }
        }
        lemma_encode_injective(a.skip(3), b.skip(3));
        assert forall|i: int| 0 <= i < a.len() implies a[i] == b[i] by {
            if i >= 3 {
                assert(a[i] == a.skip(3)[i - 3]);
                assert(b[i] == b.skip(3)[i - 3]);
            }
        }
        assert(a =~= b);
    } else if a.len() == 2 {
        assert(b64_encode(a).len() == 3);
        assert(b.len() == 2);
        lemma_enc2_injective(a[0], a[1], b[0], b[1]);
        assert(a =~= b);
    } else if a.len() == 1 {
        assert(b64_encode(a).len() == 2);
        assert(b.len() == 1);
        lemma_enc1_injective(a[0], b[0]);
        assert(a =~= b);
    } else {
        assert(b64_encode(a).len() == 0);
        assert(b.len() == 0);
        assert(a =~= b);
    }
}

/// An encoded name never contains an ASCII dot.
pub proof fn lemma_encode_no_dot(s: Seq<u8>)
    ensures
        forall|j: int| 0 <= j < b64_encode(s).len() ==> b64_encode(s)[j] != 46u8,
    decreases s.len(),
{
    if s.len() >= 3 {
        lemma_encode_no_dot(s.skip(3));
        assert forall|j: int| 0 <= j < b64_encode(s).len() implies b64_encode(s)[j] != 46u8 by {
            if j < 4 {
                assert(b64_encode(s)[j] == enc3(s[0], s[1], s[2])[j]);
            } else {
                assert(b64_encode(s)[j] == b64_encode(s.skip(3))[j - 4]);
            }
        }
    }
}

} // verus!
