//! Run-length (PackBits style) compression of raster rows.
//!
//! A 90-byte row is compressed into units: a repeated-byte run of length
//! n (2 to 128) becomes the two bytes `[-(n-1), value]`, a literal stretch
//! of n bytes (1 to 128) becomes `[n-1]` followed by the bytes themselves.
//! If the compressed form exceeds 90 bytes, the canonical 91-byte
//! uncompressed encoding `[89]` + row is used instead, so the output never
//! exceeds 91 bytes.

use vstd::prelude::*;

verus! {

/// How far a run of bytes equal to `s[i]` extends, counting from `k`
/// positions already taken: stops at the end of `s`, at 128, or at the
/// first differing byte.
pub open spec fn run_ext(s: Seq<u8>, i: int, k: int) -> int
    decreases s.len() - i - k,
{
    if 0 <= i && 0 <= k && i + k < s.len() && k < 128 && s[i + k] == s[i] {
        run_ext(s, i, k + 1)
    } else {
        k
    }
}

/// How far a literal stretch starting at `s[i]` extends, counting from `k`
/// positions already taken: stops at the end of `s`, at 128, or one byte
/// before a pair of equal bytes, where a run can take over.
pub open spec fn lit_ext(s: Seq<u8>, i: int, k: int) -> int
    decreases s.len() - i - k,
{
    if 0 <= i && 0 <= k && i + k < s.len() && k < 128 {
        if i + k + 1 < s.len() && s[i + k] == s[i + k + 1] {
            k
        } else {
            lit_ext(s, i, k + 1)
        }
    } else {
        k
    }
}

/// `run_ext` stays within `s`, within the 128 cap, and everything it
/// covers equals the byte the run started on.
pub proof fn lemma_run_ext_props(s: Seq<u8>, i: int, k: int)
    requires
        0 <= i,
        1 <= k,
        i + k <= s.len(),
        k <= 128,
        forall|j: int| i <= j < i + k ==> s[j] == s[i],
    ensures
        k <= run_ext(s, i, k) <= 128,
        i + run_ext(s, i, k) <= s.len(),
        forall|j: int| i <= j < i + run_ext(s, i, k) ==> s[j] == s[i],
    decreases s.len() - i - k,
{
    if i + k < s.len() && k < 128 && s[i + k] == s[i] {
        lemma_run_ext_props(s, i, k + 1);
    }
}

/// `lit_ext` stays within `s` and within the 128 cap.
pub proof fn lemma_lit_ext_props(s: Seq<u8>, i: int, k: int)
    requires
        0 <= i,
        1 <= k,
        i + k <= s.len(),
        k <= 128,
    ensures
        k <= lit_ext(s, i, k) <= 128,
        i + lit_ext(s, i, k) <= s.len(),
    decreases s.len() - i - k,
{
    if i + k < s.len() && k < 128 {
        if !(i + k + 1 < s.len() && s[i + k] == s[i + k + 1]) {
            lemma_lit_ext_props(s, i, k + 1);
        }
    }
}

/// The compressed encoding of `s` from position `i` on: a run unit
/// whenever at least two equal bytes follow, a literal unit otherwise.
pub open spec fn pack_from(s: Seq<u8>, i: int) -> Seq<u8>
    decreases s.len() - i
        via pack_from_decreases
{
    if i < 0 || i >= s.len() {
        Seq::empty()
    } else {
        let rl = run_ext(s, i, 1);
        if rl >= 2 {
            seq![(257 - rl) as u8, s[i]] + pack_from(s, i + rl)
        } else {
            let ll = lit_ext(s, i, 1);
            seq![(ll - 1) as u8] + s.subrange(i, i + ll) + pack_from(s, i + ll)
        }
    }
}

#[via_fn]
proof fn pack_from_decreases(s: Seq<u8>, i: int) {
    if 0 <= i && i < s.len() {
        lemma_run_ext_props(s, i, 1);
        lemma_lit_ext_props(s, i, 1);
    }
}

/// The reference decoder.  A header below 128 announces a literal of
/// header+1 bytes; a header above 128 announces 257-header copies of the
/// byte that follows.  Truncated input decodes to what is there.
pub open spec fn unpack(s: Seq<u8>) -> Seq<u8>
    decreases s.len(),
{
    if s.len() == 0 {
        Seq::empty()
    } else {
        let h = s[0];
        if h < 128 {
            let cnt = h as int + 1;
            if s.len() >= cnt + 1 {
                s.subrange(1, cnt + 1) + unpack(s.subrange(cnt + 1, s.len() as int))
            } else {
                s.subrange(1, s.len() as int)
            }
        } else if h > 128 {
            if s.len() >= 2 {
                Seq::new((257 - h) as nat, |j: int| s[1]) + unpack(
                    s.subrange(2, s.len() as int),
                )
            } else {
                Seq::empty()
            }
        } else {
            Seq::empty()
        }
    }
}

/// Decoding the compressed encoding from position `i` recovers exactly the
/// bytes from `i` to the end.
proof fn lemma_unpack_pack_from(s: Seq<u8>, i: int)
    requires
        0 <= i <= s.len(),
    ensures
        unpack(pack_from(s, i)) == s.subrange(i, s.len() as int),
    decreases s.len() - i,
{
    let end = s.len() as int;
    if i == end {
        assert(pack_from(s, i) == Seq::<u8>::empty());
        assert(s.subrange(i, end) =~= Seq::<u8>::empty());
    } else {
        let rl = run_ext(s, i, 1);
        lemma_run_ext_props(s, i, 1);
        if rl >= 2 {
            let unit = seq![(257 - rl) as u8, s[i]];
            let rest = pack_from(s, i + rl);
            let whole = unit + rest;
            assert(pack_from(s, i) == whole);
            let h = whole[0];
            assert(h == (257 - rl) as u8);
            assert(129 <= 257 - rl <= 255);
            assert(h > 128);
            assert((257 - h) as int == rl);
            assert(whole.len() >= 2);
            assert(whole.subrange(2, whole.len() as int) =~= rest);
            lemma_unpack_pack_from(s, i + rl);
            assert(unpack(whole) == Seq::new(rl as nat, |j: int| whole[1]) + unpack(rest));
            assert(Seq::new(rl as nat, |j: int| whole[1]) =~= s.subrange(i, i + rl));
            assert(s.subrange(i, i + rl) + s.subrange(i + rl, end) =~= s.subrange(i, end));
        } else {
            let ll = lit_ext(s, i, 1);
            lemma_lit_ext_props(s, i, 1);
            let unit = seq![(ll - 1) as u8] + s.subrange(i, i + ll);
            let rest = pack_from(s, i + ll);
            let whole = unit + rest;
            assert(pack_from(s, i) == whole);
            let h = whole[0];
            assert(h == (ll - 1) as u8);
            assert(0 <= ll - 1 <= 127);
            assert(h < 128);
            let cnt = h as int + 1;
            assert(cnt == ll);
            assert(whole.len() >= cnt + 1);
            assert(whole.subrange(1, cnt + 1) =~= s.subrange(i, i + ll));
            assert(whole.subrange(cnt + 1, whole.len() as int) =~= rest);
            lemma_unpack_pack_from(s, i + ll);
            assert(unpack(whole) == whole.subrange(1, cnt + 1) + unpack(rest));
            assert(s.subrange(i, i + ll) + s.subrange(i + ll, end) =~= s.subrange(i, end));
        }
    }
}

/// What `pack_bits` returns: input of any length other than 90 passes
/// through unchanged; a 90-byte row compresses unit by unit, falling back
/// to the canonical 91-byte uncompressed encoding when compression would
/// exceed 90 bytes.
pub open spec fn pack_bits_spec(s: Seq<u8>) -> Seq<u8> {
    if s.len() != 90 {
        s
    } else {
        let p = pack_from(s, 0);
        if p.len() > 90 {
            seq![89u8] + s
        } else {
            p
        }
    }
}

/// Round-trip law: the reference decoder applied to the compressed form of
/// any 90-byte row reproduces the row exactly, whether the run/literal
/// encoding or the uncompressed fallback was taken.
pub proof fn lemma_pack_bits_round_trip(s: Seq<u8>)
    requires
        s.len() == 90,
    ensures
        unpack(pack_bits_spec(s)) == s,
{
    let p = pack_from(s, 0);
    if p.len() > 90 {
        let whole = seq![89u8] + s;
        assert(whole[0] == 89);
        assert(whole.len() == 91);
        assert(whole.subrange(1, 91) =~= s);
        assert(whole.subrange(91, 91) =~= Seq::<u8>::empty());
        assert(unpack(whole) == whole.subrange(1, 91) + unpack(whole.subrange(91, 91)));
        assert(unpack(whole) =~= s);
    } else {
        lemma_unpack_pack_from(s, 0);
        assert(s.subrange(0, 90) =~= s);
    }
}

/// Compress one raster row.
///
/// Input of any length other than the 90-byte row size is returned
/// unchanged; a 90-byte row is compressed, with the guaranteed worst case
/// of 91 output bytes.
pub fn pack_bits(data: &[u8]) -> (r: Vec<u8>)
    ensures
        r@ == pack_bits_spec(data@),
        data@.len() == 90 ==> r@.len() <= 91,
{
    let ghost s = data@;

    if data.len() != 90 {
        let mut out: Vec<u8> = Vec::new();
        let mut j: usize = 0;
        while j < data.len()
            invariant
                j <= data@.len(),
                out@ == data@.subrange(0, j as int),
            decreases data@.len() - j,
        {
            out.push(data[j]);
            proof {
                assert(out@ =~= data@.subrange(0, j + 1));
            }
            j += 1;
        }
        proof {
            assert(out@ =~= data@);
        }
        return out;
    }

    let mut packed: Vec<u8> = Vec::new();
    let mut i: usize = 0;

    proof {
        assert(packed@ + pack_from(s, 0) =~= pack_from(s, 0));
    }

    while i < 90
        invariant
            s == data@,
            s.len() == 90,
            i <= 90,
            pack_from(s, 0) == packed@ + pack_from(s, i as int),
        decreases 90 - i,
    {
        let ghost packed_at_entry = packed@;
        let run_value = data[i];
        let mut run_length: usize = 1;

        while i + run_length < 90 && run_length < 128 && data[i + run_length] == run_value
            invariant
                s == data@,
                s.len() == 90,
                i < 90,
                1 <= run_length,
                i + run_length <= 90,
                run_length <= 128,
                run_value == s[i as int],
                forall|j: int| i <= j < i + run_length ==> s[j] == s[i as int],
                run_ext(s, i as int, run_length as int) == run_ext(s, i as int, 1),
            decreases 90 - i - run_length,
        {
            run_length += 1;
        }

        proof {
            assert(run_ext(s, i as int, run_length as int) == run_length as int);
            assert(run_ext(s, i as int, 1) == run_length as int);
        }

        if run_length >= 2 {
            let header: u8 = (257 - run_length) as u8;
            packed.push(header);
            packed.push(run_value);
            proof {
                let rl = run_length as int;
                let unit = seq![(257 - rl) as u8, s[i as int]];
                assert(pack_from(s, i as int) == unit + pack_from(s, i as int + rl));
                assert(packed@ =~= packed_at_entry + unit);
                assert(packed_at_entry + (unit + pack_from(s, i as int + rl)) =~= (
                packed_at_entry + unit) + pack_from(s, i as int + rl));
            }
            i += run_length;
        } else {
            let mut lit_length: usize = 1;

            while i + lit_length < 90 && lit_length < 128
                invariant
                    s == data@,
                    s.len() == 90,
                    i < 90,
                    1 <= lit_length,
                    i + lit_length <= 90,
                    lit_length <= 128,
                    lit_ext(s, i as int, lit_length as int) == lit_ext(s, i as int, 1),
                ensures
                    s == data@,
                    1 <= lit_length <= 128,
                    i + lit_length <= 90,
                    lit_ext(s, i as int, 1) == lit_length as int,
                decreases 90 - i - lit_length,
            {
                if i + lit_length + 1 < 90 && data[i + lit_length] == data[i + lit_length + 1] {
                    proof {
                        assert(lit_ext(s, i as int, lit_length as int) == lit_length as int);
                    }
                    break;
                }
                lit_length += 1;
            }

            let header: u8 = (lit_length - 1) as u8;
            packed.push(header);
            let ghost packed_mid = packed@;
            let mut j: usize = 0;
            while j < lit_length
                invariant
                    s == data@,
                    s.len() == 90,
                    i < 90,
                    j <= lit_length,
                    i + lit_length <= 90,
                    packed@ == packed_mid + s.subrange(i as int, i + j),
                decreases lit_length - j,
            {
                packed.push(data[i + j]);
                proof {
                    assert(packed@ =~= packed_mid + s.subrange(i as int, i + j + 1));
                }
                j += 1;
            }

            proof {
                let ll = lit_length as int;
                let unit = seq![(ll - 1) as u8] + s.subrange(i as int, i + ll);
                assert(pack_from(s, i as int) == unit + pack_from(s, i as int + ll));
                assert(packed@ =~= packed_at_entry + unit);
                assert(packed_at_entry + (unit + pack_from(s, i as int + ll)) =~= (
                packed_at_entry + unit) + pack_from(s, i as int + ll));
            }
            i += lit_length;
        }
    }

    proof {
        assert(pack_from(s, 90) == Seq::<u8>::empty());
        assert(packed@ + Seq::<u8>::empty() =~= packed@);
        assert(packed@ == pack_from(s, 0));
    }

    if packed.len() > 90 {
        let mut out: Vec<u8> = Vec::new();
        out.push(89);
        let mut j: usize = 0;
        while j < 90
            invariant
                s == data@,
                s.len() == 90,
                j <= 90,
                out@ == seq![89u8] + s.subrange(0, j as int),
            decreases 90 - j,
        {
            out.push(data[j]);
            proof {
                assert(out@ =~= seq![89u8] + s.subrange(0, j + 1));
            }
            j += 1;
        }
        proof {
            assert(s.subrange(0, 90) =~= s);
            assert(out@ =~= seq![89u8] + s);
        }
        out
    } else {
        packed
    }
}

} // verus!
