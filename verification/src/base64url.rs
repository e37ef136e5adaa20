//! Unpadded base64url decoding, specified and verified.
//!
//! A segment is well formed when every byte is in the base64url alphabet,
//! the length is a possible encoding length (never 1 modulo 4), and the
//! unused low bits of the final character are zero, so that every byte
//! string has exactly one encoding.

use vstd::prelude::*;

verus! {

/// The six-bit value of a byte in the base64url alphabet
/// (`A`-`Z`, `a`-`z`, `0`-`9`, `-`, `_`), or -1 outside it.
pub open spec fn b64_val(b: u8) -> int {
    if 65 <= b <= 90 {
        b - 65
    } else if 97 <= b <= 122 {
        b - 97 + 26
    } else if 48 <= b <= 57 {
        b - 48 + 52
    } else if b == 45 {
        62
    } else if b == 95 {
        63
    } else {
        -1
    }
}

/// Whether `s` is a well-formed canonical unpadded base64url encoding.
pub open spec fn b64_ok(s: Seq<u8>) -> bool {
    &&& s.len() % 4 != 1
    &&& forall|i: int| 0 <= i < s.len() ==> b64_val(#[trigger] s[i]) >= 0
    &&& s.len() % 4 == 2 ==> b64_val(s[s.len() - 1]) % 16 == 0
    &&& s.len() % 4 == 3 ==> b64_val(s[s.len() - 1]) % 4 == 0
}

/// The three bytes encoded by one full group of four characters.
pub open spec fn b64_group3(v0: int, v1: int, v2: int, v3: int) -> Seq<u8> {
    seq![
        (v0 * 4 + v1 / 16) as u8,
        ((v1 % 16) * 16 + v2 / 4) as u8,
        ((v2 % 4) * 64 + v3) as u8,
    ]
}

/// The bytes encoded by `s`: full groups of four characters yield three
/// bytes each; a trailing group of two or three characters yields one or
/// two bytes. Meaningful when `b64_ok(s)` holds.
pub open spec fn b64_decode(s: Seq<u8>) -> Seq<u8>
    decreases s.len(),
{
    if s.len() >= 4 {
        b64_group3(b64_val(s[0]), b64_val(s[1]), b64_val(s[2]), b64_val(s[3])) + b64_decode(
            s.skip(4),
        )
    } else if s.len() == 3 {
        seq![
            (b64_val(s[0]) * 4 + b64_val(s[1]) / 16) as u8,
            ((b64_val(s[1]) % 16) * 16 + b64_val(s[2]) / 4) as u8,
        ]
    } else if s.len() == 2 {
        seq![(b64_val(s[0]) * 4 + b64_val(s[1]) / 16) as u8]
    } else {
        Seq::empty()
    }
}

/// The alphabet map is injective: distinct alphabet bytes have
/// distinct values.
pub proof fn lemma_b64_val_injective(x: u8, y: u8)
    requires
        b64_val(x) >= 0,
        b64_val(y) >= 0,
        x != y,
    ensures
        b64_val(x) != b64_val(y),
{
}

/// Dropping a leading full group keeps a segment well formed.
pub proof fn lemma_b64_ok_skip4(s: Seq<u8>)
    requires
        b64_ok(s),
        s.len() >= 4,
    ensures
        b64_ok(s.skip(4)),
{
    assert forall|i: int| 0 <= i < s.skip(4).len() implies b64_val(#[trigger] s.skip(4)[i]) >= 0 by {
        assert(s.skip(4)[i] == s[i + 4]);
    }
    if s.len() % 4 == 2 || s.len() % 4 == 3 {
        assert(s.skip(4)[s.skip(4).len() - 1] == s[s.len() - 1]);
    }
}

/// Well-formed segments of equal length that differ in exactly one
/// byte decode to different byte strings: decoding is injective.
pub proof fn lemma_b64_decode_ne(s: Seq<u8>, t: Seq<u8>, k: int)
    requires
        s.len() == t.len(),
        b64_ok(s),
        b64_ok(t),
        0 <= k < s.len(),
        s[k] != t[k],
        forall|j: int| 0 <= j < s.len() && j != k ==> s[j] == t[j],
    ensures
        b64_decode(s) != b64_decode(t),
    decreases s.len(),
{
    lemma_b64_val_injective(s[k], t[k]);
    if s.len() >= 4 && k >= 4 {
        let g = b64_group3(b64_val(s[0]), b64_val(s[1]), b64_val(s[2]), b64_val(s[3]));
        assert(g == b64_group3(b64_val(t[0]), b64_val(t[1]), b64_val(t[2]), b64_val(t[3])));
        let ss = s.skip(4);
        let tt = t.skip(4);
        lemma_b64_ok_skip4(s);
        lemma_b64_ok_skip4(t);
        assert(ss[k - 4] == s[k] && tt[k - 4] == t[k]);
        assert forall|j: int| 0 <= j < ss.len() && j != k - 4 implies ss[j] == tt[j] by {
            assert(ss[j] == s[j + 4] && tt[j] == t[j + 4]);
        }
        lemma_b64_decode_ne(ss, tt, k - 4);
        if b64_decode(s) == b64_decode(t) {
            assert((g + b64_decode(ss)).skip(3) =~= b64_decode(ss));
            assert((g + b64_decode(tt)).skip(3) =~= b64_decode(tt));
            assert(false);
        }
    } else {
        lemma_b64_decode_ne_front(s, t, k);
    }
}

/// The front case of `lemma_b64_decode_ne`: the differing byte lies in
/// the leading group, so one of the first output bytes differs.
proof fn lemma_b64_decode_ne_front(s: Seq<u8>, t: Seq<u8>, k: int)
    requires
        s.len() == t.len(),
        b64_ok(s),
        b64_ok(t),
        0 <= k < s.len(),
        k < 4,
        s[k] != t[k],
        forall|j: int| 0 <= j < s.len() && j != k ==> s[j] == t[j],
        b64_val(s[k]) != b64_val(t[k]),
    ensures
        b64_decode(s) != b64_decode(t),
{
    vstd::arithmetic::div_mod::lemma_fundamental_div_mod(b64_val(s[k]), 16);
    vstd::arithmetic::div_mod::lemma_fundamental_div_mod(b64_val(t[k]), 16);
    vstd::arithmetic::div_mod::lemma_fundamental_div_mod(b64_val(s[k]), 4);
    vstd::arithmetic::div_mod::lemma_fundamental_div_mod(b64_val(t[k]), 4);
    if s.len() == 2 {
        // one output byte: v0 * 4 + v1 / 16, with v1 % 16 == 0 (canonical)
        assert(b64_decode(s)[0] != b64_decode(t)[0]);
    } else if s.len() == 3 {
        // two output bytes; v2 % 4 == 0 (canonical)
        if k == 0 {
            assert(b64_decode(s)[0] != b64_decode(t)[0]);
        } else if k == 1 {
            if b64_val(s[1]) / 16 != b64_val(t[1]) / 16 {
                assert(b64_decode(s)[0] != b64_decode(t)[0]);
            } else {
                assert(b64_val(s[1]) % 16 != b64_val(t[1]) % 16);
                assert(b64_decode(s)[1] != b64_decode(t)[1]);
            }
        } else {
            assert(b64_val(s[2]) / 4 != b64_val(t[2]) / 4);
            assert(b64_decode(s)[1] != b64_decode(t)[1]);
        }
    } else {
        // a full leading group of four characters
        let g_s = b64_group3(b64_val(s[0]), b64_val(s[1]), b64_val(s[2]), b64_val(s[3]));
        let g_t = b64_group3(b64_val(t[0]), b64_val(t[1]), b64_val(t[2]), b64_val(t[3]));
        assert(b64_decode(s).len() >= 3 && b64_decode(t).len() >= 3);
        assert(forall|j: int| 0 <= j < 3 ==> b64_decode(s)[j] == g_s[j]);
        assert(forall|j: int| 0 <= j < 3 ==> b64_decode(t)[j] == g_t[j]);
        if k == 0 {
            assert(g_s[0] != g_t[0]);
        } else if k == 1 {
            if b64_val(s[1]) / 16 != b64_val(t[1]) / 16 {
                assert(g_s[0] != g_t[0]);
            } else {
                assert(b64_val(s[1]) % 16 != b64_val(t[1]) % 16);
                assert(g_s[1] != g_t[1]);
            }
        } else if k == 2 {
            if b64_val(s[2]) / 4 != b64_val(t[2]) / 4 {
                assert(g_s[1] != g_t[1]);
            } else {
                assert(b64_val(s[2]) % 4 != b64_val(t[2]) % 4);
                assert(g_s[2] != g_t[2]);
            }
        } else {
            assert(g_s[2] != g_t[2]);
        }
    }
}

fn b64_val_exec(b: u8) -> (r: i16)
    ensures
        r as int == b64_val(b),
{
    if 65 <= b && b <= 90 {
        (b - 65) as i16
    } else if 97 <= b && b <= 122 {
        (b - 97) as i16 + 26
    } else if 48 <= b && b <= 57 {
        (b - 48) as i16 + 52
    } else if b == 45 {
        62
    } else if b == 95 {
        63
    } else {
        -1
    }
}

/// Decodes an unpadded base64url segment. Returns `None` exactly when the
/// segment is not a well-formed canonical encoding.
pub fn b64url_decode(s: &[u8]) -> (r: Option<Vec<u8>>)
    ensures
        r is Some <==> b64_ok(s@),
        r matches Some(v) ==> v@ == b64_decode(s@),
{
    let n = s.len();
    if n % 4 == 1 {
        return None;
    }
    let mut out: Vec<u8> = Vec::new();
    let mut i: usize = 0;
    proof {
        assert(s@.skip(0) =~= s@);
        assert(out@ + b64_decode(s@) =~= b64_decode(s@));
    }
    while n - i >= 4
        invariant
            n == s@.len(),
            i % 4 == 0,
            i <= n,
            n % 4 != 1,
            forall|j: int| 0 <= j < i ==> b64_val(#[trigger] s@[j]) >= 0,
            b64_decode(s@) == out@ + b64_decode(s@.skip(i as int)),
        decreases n - i,
    {
        let v0 = b64_val_exec(s[i]);
        let v1 = b64_val_exec(s[i + 1]);
        let v2 = b64_val_exec(s[i + 2]);
        let v3 = b64_val_exec(s[i + 3]);
        if v0 < 0 || v1 < 0 || v2 < 0 || v3 < 0 {
            return None;
        }
        let a = v0 as u8;
        let b = v1 as u8;
        let c = v2 as u8;
        let d = v3 as u8;
        proof {
            assert(s@.skip(i as int).len() >= 4);
            assert(s@.skip(i as int)[0] == s@[i as int]);
            assert(s@.skip(i as int)[1] == s@[i as int + 1]);
            assert(s@.skip(i as int)[2] == s@[i as int + 2]);
            assert(s@.skip(i as int)[3] == s@[i as int + 3]);
            assert(s@.skip(i as int).skip(4) =~= s@.skip(i as int + 4));
        }
        out.push(a * 4 + b / 16);
        out.push((b % 16) * 16 + c / 4);
        out.push((c % 4) * 64 + d);
        i = i + 4;
    }
    let rem = n - i;
    if rem == 0 {
        proof {
            assert(b64_decode(s@.skip(i as int)) =~= Seq::<u8>::empty());
            assert(b64_decode(s@) =~= out@);
        }
        Some(out)
    } else if rem == 2 {
        let v0 = b64_val_exec(s[i]);
        let v1 = b64_val_exec(s[i + 1]);
        if v0 < 0 || v1 < 0 {
            return None;
        }
        if (v1 as u8) % 16 != 0 {
            proof {
                assert(s@[n - 1] == s@[i as int + 1]);
            }
            return None;
        }
        let a = v0 as u8;
        let b = v1 as u8;
        proof {
            assert(s@.skip(i as int).len() == 2);
            assert(s@.skip(i as int)[0] == s@[i as int]);
            assert(s@.skip(i as int)[1] == s@[i as int + 1]);
            assert(s@[n - 1] == s@[i as int + 1]);
        }
        out.push(a * 4 + b / 16);
        proof {
            assert(b64_decode(s@) =~= out@);
        }
        Some(out)
    } else {
        let v0 = b64_val_exec(s[i]);
        let v1 = b64_val_exec(s[i + 1]);
        let v2 = b64_val_exec(s[i + 2]);
        if v0 < 0 || v1 < 0 || v2 < 0 {
            return None;
        }
        if (v2 as u8) % 4 != 0 {
            proof {
                assert(s@[n - 1] == s@[i as int + 2]);
            }
            return None;
        }
        let a = v0 as u8;
        let b = v1 as u8;
        let c = v2 as u8;
        proof {
            assert(s@.skip(i as int).len() == 3);
            assert(s@.skip(i as int)[0] == s@[i as int]);
            assert(s@.skip(i as int)[1] == s@[i as int + 1]);
            assert(s@.skip(i as int)[2] == s@[i as int + 2]);
            assert(s@[n - 1] == s@[i as int + 2]);
        }
        out.push(a * 4 + b / 16);
        out.push((b % 16) * 16 + c / 4);
        proof {
            assert(b64_decode(s@) =~= out@);
        }
        Some(out)
    }
}

} // verus!
