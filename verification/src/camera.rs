//! Frames of the thermal camera: decoding a received datagram and
//! stretching the samples to the full 16-bit range before upload.
use vstd::prelude::*;

verus! {

/// Width of a camera frame, in samples.
pub const FRAME_WIDTH: usize = 160;

/// Height of a camera frame, in samples.
pub const FRAME_HEIGHT: usize = 120;

/// Number of samples in a camera frame.
pub const FRAME_SAMPLES: usize = 19200;

/// Number of bytes of a datagram that carries one frame.
pub const FRAME_BYTES: usize = 38400;

/// The largest 16-bit sample value, to which the brightest sample is mapped.
pub const FULL_SCALE: u32 = 65535;

/// Sample `i` of a datagram: two bytes, low byte first.
pub open spec fn sample_at(bytes: Seq<u8>, i: int) -> u16 {
    (bytes[2 * i] + 256 * bytes[2 * i + 1]) as u16
}

/// `m` occurs in `s` and no element of `s` is below it.
pub open spec fn is_lowest(s: Seq<u16>, m: u16) -> bool {
    &&& exists|k: int| 0 <= k < s.len() && s[k] == m
    &&& forall|k: int| 0 <= k < s.len() ==> m <= #[trigger] s[k]
}

/// `m` occurs in `s` and no element of `s` is above it.
pub open spec fn is_highest(s: Seq<u16>, m: u16) -> bool {
    &&& exists|k: int| 0 <= k < s.len() && s[k] == m
    &&& forall|k: int| 0 <= k < s.len() ==> #[trigger] s[k] <= m
}

/// The smallest element of a non-empty sequence.
pub open spec fn lowest(s: Seq<u16>) -> u16 {
    choose|m: u16| is_lowest(s, m)
}

/// The largest element of a non-empty sequence.
pub open spec fn highest(s: Seq<u16>) -> u16 {
    choose|m: u16| is_highest(s, m)
}

/// Where sample `v` lands when the range `lo..=hi` is stretched onto
/// `0..=FULL_SCALE`, rounding down.
pub open spec fn stretched(v: u16, lo: u16, hi: u16) -> int {
    (v - lo) * (FULL_SCALE as int) / (hi - lo)
}

/// Sample `i` of a datagram is the number its bytes `2 i` and `2 i + 1` spell,
/// low byte first, so samples follow each other in the datagram's order.
pub proof fn lemma_sample_at_bytes(bytes: Seq<u8>, i: int)
    requires
        0 <= i,
        2 * i + 1 < bytes.len(),
    ensures
        sample_at(bytes, i) as int == bytes[2 * i] + 256 * bytes[2 * i + 1],
{
}

/// Stretching is the linear map of `lo..=hi` onto `0..=FULL_SCALE`,
/// rounded down: the result is the largest `r` with
/// `r * (hi - lo) <= (v - lo) * 65535`.
pub proof fn lemma_stretched_is_linear(v: u16, lo: u16, hi: u16)
    requires
        lo <= v <= hi,
        lo < hi,
    ensures
        stretched(v, lo, hi) * (hi - lo) <= (v - lo) * 65535,
        (v - lo) * 65535 < (stretched(v, lo, hi) + 1) * (hi - lo),
{
    let x = (v - lo) * 65535;
    let d = hi - lo;
    vstd::arithmetic::div_mod::lemma_fundamental_div_mod(x, d);
    vstd::arithmetic::div_mod::lemma_mod_bound(x, d);
    vstd::arithmetic::mul::lemma_mul_is_commutative(d, x / d);
    vstd::arithmetic::mul::lemma_mul_is_distributive_add_other_way(d, x / d, 1);
}

/// The least element of a non-empty frame occurs in it and no element is
/// below it; the greatest occurs in it and no element is above it.
pub proof fn lemma_extremes_of_frame(s: Seq<u16>)
    requires
        s.len() > 0,
    ensures
        exists|k: int| 0 <= k < s.len() && s[k] == lowest(s),
        exists|k: int| 0 <= k < s.len() && s[k] == highest(s),
        forall|k: int| 0 <= k < s.len() ==> lowest(s) <= #[trigger] s[k] && s[k] <= highest(s),
{
    lemma_extremes_exist(s);
}

/// The least element is unique, and `lowest` names it.
pub proof fn lemma_lowest_is(s: Seq<u16>, m: u16)
    requires
        is_lowest(s, m),
    ensures
        lowest(s) == m,
{
    let l = lowest(s);
    assert(is_lowest(s, l));
    let k = choose|k: int| 0 <= k < s.len() && s[k] == l;
    let j = choose|j: int| 0 <= j < s.len() && s[j] == m;
    assert(m <= s[k]);
    assert(l <= s[j]);
}

/// The greatest element is unique, and `highest` names it.
pub proof fn lemma_highest_is(s: Seq<u16>, m: u16)
    requires
        is_highest(s, m),
    ensures
        highest(s) == m,
{
    let h = highest(s);
    assert(is_highest(s, h));
    let k = choose|k: int| 0 <= k < s.len() && s[k] == h;
    let j = choose|j: int| 0 <= j < s.len() && s[j] == m;
    assert(s[k] <= m);
    assert(s[j] <= h);
}

/// Stretching keeps the order of samples: a sample that was not brighter
/// than another is not brighter after the stretch.
pub proof fn lemma_stretched_monotone(a: u16, b: u16, lo: u16, hi: u16)
    requires
        lo <= a <= b <= hi,
        lo < hi,
    ensures
        stretched(a, lo, hi) <= stretched(b, lo, hi),
{
    vstd::arithmetic::mul::lemma_mul_inequality(a - lo, b - lo, FULL_SCALE as int);
    vstd::arithmetic::div_mod::lemma_div_is_ordered(
        (a - lo) * (FULL_SCALE as int),
        (b - lo) * (FULL_SCALE as int),
        hi - lo,
    );
}

/// Stretching maps the darkest sample to zero and the brightest one to
/// `FULL_SCALE`, and every sample in between into `0..=FULL_SCALE`.
pub proof fn lemma_stretched_range(v: u16, lo: u16, hi: u16)
    requires
        lo <= v <= hi,
        lo < hi,
    ensures
        0 <= stretched(v, lo, hi) <= FULL_SCALE,
        stretched(lo, lo, hi) == 0,
        stretched(hi, lo, hi) == FULL_SCALE,
        (v - lo) * (FULL_SCALE as int) <= FULL_SCALE * FULL_SCALE,
{
    let w = hi - lo;
    vstd::arithmetic::mul::lemma_mul_inequality(v - lo, w, FULL_SCALE as int);
    vstd::arithmetic::mul::lemma_mul_inequality(w, FULL_SCALE as int, FULL_SCALE as int);
    vstd::arithmetic::div_mod::lemma_div_is_ordered(0, (v - lo) * (FULL_SCALE as int), w);
    vstd::arithmetic::div_mod::lemma_div_is_ordered(
        (v - lo) * (FULL_SCALE as int),
        w * (FULL_SCALE as int),
        w,
    );
    vstd::arithmetic::div_mod::lemma_div_multiples_vanish(FULL_SCALE as int, w);
    vstd::arithmetic::div_mod::lemma_div_basics(w);
    assert(w * (FULL_SCALE as int) == (FULL_SCALE as int) * w) by {
        vstd::arithmetic::mul::lemma_mul_is_commutative(w, FULL_SCALE as int);
    }
    assert((lo - lo) * (FULL_SCALE as int) == 0);
}

/// A frame that already spans the whole range is left as it is.
pub proof fn lemma_full_range_is_fixed(v: u16)
    ensures
        stretched(v, 0, FULL_SCALE as u16) == v,
{
    vstd::arithmetic::div_mod::lemma_div_multiples_vanish(v as int, FULL_SCALE as int);
    vstd::arithmetic::mul::lemma_mul_is_commutative(v as int, FULL_SCALE as int);
}

/// Decodes a received datagram into a frame; `None` when the datagram does
/// not have exactly the size of a frame.
pub fn frame_from_datagram(bytes: &[u8]) -> (r: Option<Vec<u16>>)
    ensures
        r is Some <==> bytes@.len() == FRAME_BYTES,
        r matches Some(frame) ==> frame@.len() == FRAME_SAMPLES && forall|i: int|
            0 <= i < FRAME_SAMPLES ==> #[trigger] frame@[i] == sample_at(bytes@, i),
        r matches Some(frame) ==> forall|i: int|
            0 <= i < FRAME_SAMPLES ==> #[trigger] frame@[i] as int == bytes@[2 * i] + 256 * bytes@[2
                * i + 1],
{
    if bytes.len() != FRAME_BYTES {
        return None;
    }
    let mut frame: Vec<u16> = Vec::new();
    let mut i: usize = 0;
    while i < FRAME_SAMPLES
        invariant
            bytes@.len() == FRAME_BYTES,
            i <= FRAME_SAMPLES,
            frame@.len() == i,
            forall|k: int| 0 <= k < i ==> #[trigger] frame@[k] == sample_at(bytes@, k),
        decreases FRAME_SAMPLES - i,
    {
        let low: u16 = bytes[2 * i] as u16;
        let high: u16 = bytes[2 * i + 1] as u16;
        frame.push(low + 256 * high);
        i = i + 1;
    }
    proof {
        assert forall|k: int| 0 <= k < FRAME_SAMPLES implies #[trigger] frame@[k] as int == bytes@[2
            * k] + 256 * bytes@[2 * k + 1] by {
            lemma_sample_at_bytes(bytes@, k);
        }
    }
    Some(frame)
}

/// The darkest and the brightest sample of a frame; `None` for an empty one.
pub fn min_max(samples: &[u16]) -> (r: Option<(u16, u16)>)
    ensures
        r is None <==> samples@.len() == 0,
        r matches Some((lo, hi)) ==> lo == lowest(samples@) && is_lowest(samples@, lo),
        r matches Some((lo, hi)) ==> hi == highest(samples@) && is_highest(samples@, hi),
{
    if samples.len() == 0 {
        return None;
    }
    let mut lo: u16 = samples[0];
    let mut hi: u16 = samples[0];
    let ghost mut lo_at: int = 0;
    let ghost mut hi_at: int = 0;
    let mut i: usize = 1;
    while i < samples.len()
        invariant
            1 <= i <= samples@.len(),
            0 <= lo_at < i,
            0 <= hi_at < i,
            samples@[lo_at] == lo,
            samples@[hi_at] == hi,
            forall|k: int| 0 <= k < i ==> lo <= #[trigger] samples@[k] <= hi,
        decreases samples@.len() - i,
    {
        let v = samples[i];
        if v < lo {
            lo = v;
            proof {
                lo_at = i as int;
            }
        }
        if v > hi {
            hi = v;
            proof {
                hi_at = i as int;
            }
        }
        i = i + 1;
    }
    proof {
        assert(is_lowest(samples@, lo));
        assert(is_highest(samples@, hi));
        lemma_lowest_is(samples@, lo);
        lemma_highest_is(samples@, hi);
    }
    Some((lo, hi))
}

/// A frame with each sample stretched from the frame's own range onto
/// `0..=FULL_SCALE`.
pub open spec fn stretch_all(s: Seq<u16>) -> Seq<u16> {
    Seq::new(s.len(), |i: int| stretched(s[i], lowest(s), highest(s)) as u16)
}

/// Every non-empty frame has a darkest and a brightest sample.
pub proof fn lemma_extremes_exist(s: Seq<u16>)
    requires
        s.len() > 0,
    ensures
        is_lowest(s, lowest(s)),
        is_highest(s, highest(s)),
    decreases s.len(),
{
    if s.len() == 1 {
        assert(is_lowest(s, s[0]));
        assert(is_highest(s, s[0]));
    } else {
        let t = s.drop_last();
        lemma_extremes_exist(t);
        let n = s.len() - 1;
        let lo = if s[n] < lowest(t) { s[n] } else { lowest(t) };
        let hi = if s[n] > highest(t) { s[n] } else { highest(t) };
        assert forall|k: int| 0 <= k < s.len() implies lo <= #[trigger] s[k] && s[k] <= hi by {
            if k < n {
                assert(s[k] == t[k]);
            }
        }
        if s[n] < lowest(t) {
            assert(s[n] == lo);
        } else {
            let j = choose|j: int| 0 <= j < t.len() && t[j] == lowest(t);
            assert(s[j] == lo);
        }
        if s[n] > highest(t) {
            assert(s[n] == hi);
        } else {
            let j = choose|j: int| 0 <= j < t.len() && t[j] == highest(t);
            assert(s[j] == hi);
        }
        assert(is_lowest(s, lo));
        assert(is_highest(s, hi));
    }
}

/// A stretched frame spans the whole range, darkest sample at 0 and brightest
/// at `FULL_SCALE`, and keeps the order of the samples.
pub proof fn lemma_stretch_all_spans(s: Seq<u16>)
    requires
        s.len() > 0,
        lowest(s) < highest(s),
    ensures
        stretch_all(s).len() == s.len(),
        forall|i: int| 0 <= i < s.len() ==> #[trigger] stretch_all(s)[i] as int == stretched(
            s[i],
            lowest(s),
            highest(s),
        ),
        lowest(stretch_all(s)) == 0,
        highest(stretch_all(s)) == FULL_SCALE,
        forall|i: int, j: int|
            0 <= i < s.len() && 0 <= j < s.len() && s[i] <= s[j] ==> #[trigger] stretch_all(s)[i]
                <= #[trigger] stretch_all(s)[j],
{
    lemma_extremes_exist(s);
    let lo = lowest(s);
    let hi = highest(s);
    let after = stretch_all(s);
    assert forall|i: int| 0 <= i < s.len() implies #[trigger] after[i] as int == stretched(
        s[i],
        lo,
        hi,
    ) && after[i] <= FULL_SCALE by {
        lemma_stretched_range(s[i], lo, hi);
    }
    let k_lo = choose|k: int| 0 <= k < s.len() && s[k] == lo;
    let k_hi = choose|k: int| 0 <= k < s.len() && s[k] == hi;
    lemma_stretched_range(lo, lo, hi);
    assert(after[k_lo] == 0);
    assert(after[k_hi] == FULL_SCALE);
    assert(is_lowest(after, 0));
    assert(is_highest(after, FULL_SCALE as u16));
    lemma_lowest_is(after, 0);
    lemma_highest_is(after, FULL_SCALE as u16);
    assert forall|a: int, b: int|
        0 <= a < s.len() && 0 <= b < s.len() && s[a] <= s[b] implies #[trigger] after[a]
        <= #[trigger] after[b] by {
        lemma_stretched_monotone(s[a], s[b], lo, hi);
        lemma_stretched_range(s[a], lo, hi);
        lemma_stretched_range(s[b], lo, hi);
    }
}

/// Stretching a frame twice gives the same frame as stretching it once.
pub proof fn lemma_stretch_idempotent(s: Seq<u16>)
    requires
        s.len() > 0,
        lowest(s) < highest(s),
    ensures
        stretch_all(stretch_all(s)) == stretch_all(s),
{
    lemma_stretch_all_spans(s);
    let t = stretch_all(s);
    assert forall|i: int| 0 <= i < t.len() implies #[trigger] stretch_all(t)[i] == t[i] by {
        lemma_full_range_is_fixed(t[i]);
    }
    assert(stretch_all(t) =~= t);
}

/// Stretches the samples of a frame so that its darkest sample becomes 0 and
/// its brightest `FULL_SCALE`, keeping their order.
pub fn stretch_to_full_range(frame: &mut Vec<u16>)
    requires
        old(frame)@.len() > 0,
        lowest(old(frame)@) < highest(old(frame)@),
    ensures
        final(frame)@ == stretch_all(old(frame)@),
        forall|i: int|
            0 <= i < old(frame)@.len() ==> #[trigger] final(frame)@[i] * (highest(old(frame)@)
                - lowest(old(frame)@)) <= (old(frame)@[i] - lowest(old(frame)@)) * 65535 < (
            final(frame)@[i] + 1) * (highest(old(frame)@) - lowest(old(frame)@)),
        lowest(final(frame)@) == 0,
        highest(final(frame)@) == FULL_SCALE,
        forall|i: int, j: int|
            0 <= i < old(frame)@.len() && 0 <= j < old(frame)@.len() && old(frame)@[i]
                <= old(frame)@[j] ==> #[trigger] final(frame)@[i] <= #[trigger] final(frame)@[j],
{
    let ghost before = frame@;
    let (lo, hi) = match min_max(frame.as_slice()) {
        Some(bounds) => bounds,
        None => {
            return;
        },
    };
    let width: u32 = (hi - lo) as u32;
    let mut i: usize = 0;
    while i < frame.len()
        invariant
            frame@.len() == before.len(),
            lo == lowest(before),
            hi == highest(before),
            lo < hi,
            width == hi - lo,
            is_lowest(before, lo),
            is_highest(before, hi),
            0 <= i <= frame@.len(),
            forall|k: int| 0 <= k < i ==> #[trigger] frame@[k] as int == stretched(before[k], lo, hi),
            forall|k: int| i <= k < frame@.len() ==> #[trigger] frame@[k] == before[k],
        decreases frame@.len() - i,
    {
        let v = frame[i];
        proof {
            assert(lo <= before[i as int] <= hi);
            lemma_stretched_range(v, lo, hi);
        }
        let offset: u32 = (v - lo) as u32;
        let scaled: u32 = offset * FULL_SCALE / width;
        frame[i] = scaled as u16;
        i = i + 1;
    }
    proof {
        lemma_stretch_all_spans(before);
        assert(frame@ =~= stretch_all(before));
        assert forall|k: int| 0 <= k < before.len() implies #[trigger] frame@[k] * (hi - lo) <= (
        before[k] - lo) * 65535 < (frame@[k] + 1) * (hi - lo) by {
            lemma_stretched_is_linear(before[k], lo, hi);
        }
    }
}

} // verus!
