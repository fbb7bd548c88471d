//! High-dynamic-range histograms of response and cycle times.
//!
//! Times are recorded in nanoseconds into `hdrhistogram::Histogram<u64>` at
//! three significant digits.  The histogram itself is an outside structure;
//! its contents are abstracted as the sequence of its non-empty buckets, each
//! bucket given as `(representative value, count)` in ascending value order.
//! Everything the rest of the crate proves about histograms goes through that
//! abstraction.

use flate2::read::ZlibDecoder;
use hdrhistogram::serialization::{Serializer, V2DeflateSerializer};
use hdrhistogram::Histogram;
use std::io::Cursor;
use std::io::Read;
use vstd::prelude::*;

verus! {

/// An HDR histogram of nanosecond durations, three significant digits,
/// lowest discernible value 1.  The outside structure is held opaquely; all
/// reasoning goes through [`hist_entries`] and the operations below.
#[verifier::external_body]
pub struct TimeHistogram {
    inner: Histogram<u64>,
}

/// Largest nanosecond value the histograms accept: an auto-resizing
/// histogram tracks values up to `i64::MAX / 2`.
pub const MAX_HIST_NS: u64 = 4611686018427387903;

/// The non-empty buckets of the histogram in ascending value order, each as
/// `(median bucket value, count)`.
pub uninterp spec fn hist_entries(h: TimeHistogram) -> Seq<(u64, u64)>;

/// True for histograms that still auto-resize and carry this crate's
/// configuration (three significant digits, lowest discernible value 1) --
/// which is what every histogram built by [`new_histogram`] does.  A
/// deserialized histogram carries whatever configuration its payload named,
/// so nothing is claimed of it.  Recording is only specified for such
/// histograms, and merging for pairs of them: with equal configurations the
/// buckets of the two sides line up, so `add` combines them entry by entry.
pub uninterp spec fn hist_resizable(h: TimeHistogram) -> bool;

/// The bucket representative that a recorded value falls onto, at three
/// significant digits with a lowest discernible value of 1 (the
/// configuration every histogram of this crate is created with).  Stands for
/// `hdrhistogram::Histogram::median_equivalent`.
pub uninterp spec fn equiv3(v: u64) -> u64;

/// What `hdrhistogram`'s V2-deflate serialization emits for this histogram.
pub uninterp spec fn hist_blob(h: TimeHistogram) -> Seq<u8>;

/// What `hdrhistogram`'s deserializer reads from a byte string: the bucket
/// contents on success, `None` on malformed input.
pub uninterp spec fn v2_parse(b: Seq<u8>) -> Option<Seq<(u64, u64)>>;

/// Bucket values strictly ascend.
pub open spec fn sorted_entries(e: Seq<(u64, u64)>) -> bool {
    forall|i: int, j: int| 0 <= i < j < e.len() ==> e[i].0 < e[j].0
}

/// Every bucket holds at least one recording.
pub open spec fn positive_counts(e: Seq<(u64, u64)>) -> bool {
    forall|i: int| 0 <= i < e.len() ==> e[i].1 > 0
}

/// Total number of recordings across all buckets.
pub open spec fn sum_counts(e: Seq<(u64, u64)>) -> int
    decreases e.len(),
{
    if e.len() == 0 {
        0
    } else {
        e[0].1 + sum_counts(e.drop_first())
    }
}

/// Bucket counts add with saturation, as the histogram's counters do.
pub open spec fn sat_count_add(a: u64, b: u64) -> u64 {
    if a + b <= u64::MAX {
        (a + b) as u64
    } else {
        u64::MAX
    }
}

/// The bucket contents after recording one more value `v` (already a bucket
/// representative): the count at `v` grows by one, or a fresh bucket for `v`
/// is spliced in at its sorted position.
pub open spec fn spec_record(e: Seq<(u64, u64)>, v: u64) -> Seq<(u64, u64)>
    decreases e.len(),
{
    if e.len() == 0 {
        seq![(v, 1u64)]
    } else if e[0].0 == v {
        e.update(0, (v, sat_count_add(e[0].1, 1)))
    } else if v < e[0].0 {
        seq![(v, 1u64)] + e
    } else {
        seq![e[0]] + spec_record(e.drop_first(), v)
    }
}

/// The bucket contents after merging another histogram in: counts of common
/// buckets add (with saturation), the rest interleave in value order.
pub open spec fn spec_merge(a: Seq<(u64, u64)>, b: Seq<(u64, u64)>) -> Seq<(u64, u64)>
    decreases a.len() + b.len(),
{
    if a.len() == 0 {
        b
    } else if b.len() == 0 {
        a
    } else if a[0].0 == b[0].0 {
        seq![(a[0].0, sat_count_add(a[0].1, b[0].1))] + spec_merge(a.drop_first(), b.drop_first())
    } else if a[0].0 < b[0].0 {
        seq![a[0]] + spec_merge(a.drop_first(), b)
    } else {
        seq![b[0]] + spec_merge(a, b.drop_first())
    }
}

/// Recording one value grows the total count by exactly one, as long as the
/// total stays within `u64`.
pub proof fn lemma_spec_record_sum(e: Seq<(u64, u64)>, v: u64)
    requires
        sum_counts(e) < u64::MAX,
        positive_counts(e),
    ensures
        sum_counts(spec_record(e, v)) == sum_counts(e) + 1,
        positive_counts(spec_record(e, v)),
    decreases e.len(),
{
    if e.len() == 0 {
        assert(spec_record(e, v) == seq![(v, 1u64)]);
        assert(sum_counts(seq![(v, 1u64)].drop_first()) == 0);
    } else if e[0].0 == v {
        let r = e.update(0, (v, sat_count_add(e[0].1, 1)));
        lemma_sum_counts_bounds(e);
        assert(e[0].1 < u64::MAX);
        assert(r.drop_first() =~= e.drop_first());
        assert(sum_counts(r) == r[0].1 + sum_counts(r.drop_first()));
    } else if v < e[0].0 {
        let r = seq![(v, 1u64)] + e;
        assert(r.drop_first() =~= e);
        assert(sum_counts(r) == 1 + sum_counts(e));
    } else {
        let tail = e.drop_first();
        lemma_sum_counts_bounds(e);
        lemma_spec_record_sum(tail, v);
        let r = seq![e[0]] + spec_record(tail, v);
        assert(r.drop_first() =~= spec_record(tail, v));
        assert(sum_counts(r) == e[0].1 + sum_counts(spec_record(tail, v)));
    }
}

/// Every bucket count is bounded by the total, and the total is never
/// negative.
pub proof fn lemma_sum_counts_bounds(e: Seq<(u64, u64)>)
    ensures
        sum_counts(e) >= 0,
        forall|i: int| 0 <= i < e.len() ==> #[trigger] e[i].1 <= sum_counts(e),
    decreases e.len(),
{
    if e.len() > 0 {
        lemma_sum_counts_bounds(e.drop_first());
        assert forall|i: int| 0 <= i < e.len() implies #[trigger] e[i].1 <= sum_counts(e) by {
            if i > 0 {
                assert(e.drop_first()[i - 1] == e[i]);
            }
        }
    }
}

/// Merging adds the totals, as long as the combined total stays within
/// `u64`.
pub proof fn lemma_spec_merge_sum(a: Seq<(u64, u64)>, b: Seq<(u64, u64)>)
    requires
        sum_counts(a) + sum_counts(b) <= u64::MAX,
    ensures
        sum_counts(spec_merge(a, b)) == sum_counts(a) + sum_counts(b),
    decreases a.len() + b.len(),
{
    lemma_sum_counts_bounds(a);
    lemma_sum_counts_bounds(b);
    if a.len() == 0 || b.len() == 0 {
    } else if a[0].0 == b[0].0 {
        let r = seq![(a[0].0, sat_count_add(a[0].1, b[0].1))] + spec_merge(
            a.drop_first(),
            b.drop_first(),
        );
        lemma_spec_merge_sum(a.drop_first(), b.drop_first());
        assert(r.drop_first() =~= spec_merge(a.drop_first(), b.drop_first()));
        assert(sum_counts(r) == r[0].1 + sum_counts(r.drop_first()));
    } else if a[0].0 < b[0].0 {
        let r = seq![a[0]] + spec_merge(a.drop_first(), b);
        lemma_spec_merge_sum(a.drop_first(), b);
        assert(r.drop_first() =~= spec_merge(a.drop_first(), b));
        assert(sum_counts(r) == r[0].1 + sum_counts(r.drop_first()));
    } else {
        let r = seq![b[0]] + spec_merge(a, b.drop_first());
        lemma_spec_merge_sum(a, b.drop_first());
        assert(r.drop_first() =~= spec_merge(a, b.drop_first()));
        assert(sum_counts(r) == r[0].1 + sum_counts(r.drop_first()));
    }
}

/// Envelope cookie of an uncompressed V2 histogram payload.
pub const V2_COOKIE: u64 = 0x1c849313;

/// Envelope cookie of a zlib-compressed V2 histogram payload.
pub const V2_COMPRESSED_COOKIE: u64 = 0x1c849314;

/// The big-endian 32-bit word at offset `i`.
pub open spec fn be32_of(s: Seq<u8>, i: int) -> int {
    (s[i] as u64) * 0x1000000 + (s[i + 1] as u64) * 0x10000 + (s[i + 2] as u64) * 0x100 + (s[i
        + 3] as u64)
}

fn read_be32(bytes: &Vec<u8>, i: usize) -> (r: u64)
    requires
        i + 4 <= bytes@.len(),
    ensures
        r == be32_of(bytes@, i as int),
        r < 0x100000000,
{
    let _n = bytes.len();
    (bytes[i] as u64) * 0x1000000 + (bytes[i + 1] as u64) * 0x10000 + (bytes[i + 2] as u64) * 0x100
        + (bytes[i + 3] as u64)
}

/// Width in bytes of the LEB128-64b9B varint starting at `i`, after `j`
/// bytes already seen to carry continuation bits: a ninth byte always ends
/// the varint, and past the end of the data the width points one byte
/// beyond it, marking truncation.
pub open spec fn spec_vw(s: Seq<u8>, i: int, j: int) -> int
    decreases 9 - j when 0 <= j <= 8
{
    if j >= 8 {
        9
    } else if i + j >= s.len() {
        j + 1
    } else if s[i + j] < 128 {
        j + 1
    } else {
        spec_vw(s, i, j + 1)
    }
}

/// The nine bytes at `i` are all `0xFF`: the one varint encoding of
/// `u64::MAX`, whose zigzag decoding (`i64::MIN`) the deserializer cannot
/// negate.
pub open spec fn spec_nine_ff(s: Seq<u8>, i: int) -> bool {
    forall|k: int| i <= k < i + 9 ==> s[k] == 255
}

/// True when the varint stream in `s`, walked from `i`, contains a
/// complete varint decoding to `u64::MAX`.  A truncated final varint is
/// harmless: the decoder reports an error before acting on it.
pub open spec fn spec_has_bad_varint(s: Seq<u8>, i: int) -> bool
    decreases s.len() - i when 0 <= i
{
    if i < 0 || i >= s.len() {
        false
    } else {
        let w0 = spec_vw(s, i, 0);
        let w = if w0 < 1 {
            1
        } else {
            w0
        };
        if i + w > s.len() {
            false
        } else if w == 9 && spec_nine_ff(s, i) {
            true
        } else {
            spec_has_bad_varint(s, i + w)
        }
    }
}

/// True when a counts payload holds no varint the deserializer refuses.
pub open spec fn spec_counts_clean(s: Seq<u8>) -> bool {
    !spec_has_bad_varint(s, 0)
}

/// Walks the varint stream and reports whether it is free of the
/// `u64::MAX` token.
fn counts_clean(payload: &Vec<u8>) -> (r: bool)
    ensures
        r == spec_counts_clean(payload@),
{
    let n = payload.len();
    let mut i: usize = 0;
    while i < n
        invariant
            n == payload@.len(),
            i <= n,
            spec_has_bad_varint(payload@, 0) == spec_has_bad_varint(payload@, i as int),
        decreases n - i,
    {
        let mut j: usize = 0;
        while j < 8 && n - i > j && payload[i + j] >= 128
            invariant
                n == payload@.len(),
                i < n,
                j <= 8,
                spec_vw(payload@, i as int, 0) == spec_vw(payload@, i as int, j as int),
            decreases 8 - j,
        {
            j = j + 1;
        }
        let w: usize = if j >= 8 {
            9
        } else {
            j + 1
        };
        proof {
            assert(spec_vw(payload@, i as int, 0) == w);
        }
        if w > n - i {
            return true;
        }
        if w == 9 {
            let mut k: usize = 0;
            let mut all_ff = true;
            while k < 9
                invariant
                    n == payload@.len(),
                    i + 9 <= n,
                    k <= 9,
                    all_ff == (forall|t: int| i <= t < i + k ==> payload@[t] == 255),
                decreases 9 - k,
            {
                if payload[i + k] != 255 {
                    all_ff = false;
                }
                k = k + 1;
            }
            if all_ff {
                proof {
                    assert(spec_nine_ff(payload@, i as int));
                }
                return false;
            }
        }
        i = i + w;
    }
    true
}

/// A copy of `v[start..end]`.
fn copy_range(v: &Vec<u8>, start: usize, end: usize) -> (r: Vec<u8>)
    requires
        start <= end <= v@.len(),
    ensures
        r@ == v@.subrange(start as int, end as int),
{
    let mut r: Vec<u8> = Vec::new();
    let mut i: usize = start;
    while i < end
        invariant
            start <= i <= end <= v@.len(),
            r@ == v@.subrange(start as int, i as int),
        decreases end - i,
    {
        proof {
            assert(v@.subrange(start as int, i as int + 1) =~= v@.subrange(
                start as int,
                i as int,
            ).push(v@[i as int]));
        }
        r.push(v[i]);
        i = i + 1;
    }
    r
}

/// What zlib inflation yields for the stream in `bytes`, truncated to the
/// first `limit` inflated bytes (fewer when the stream ends earlier);
/// `None` when the stream is corrupt within that prefix.
pub uninterp spec fn inflate_prefix_of(bytes: Seq<u8>, limit: u64) -> Option<Seq<u8>>;

/// Relies on flate2's `ZlibDecoder`: inflates at most `limit` bytes of the
/// stream, a deterministic function of the bytes and the limit.  Errors
/// beyond the requested prefix are not observed, mirroring a streaming
/// reader that stops at the same point.
#[verifier::external_body]
fn inflate_prefix_raw(bytes: &Vec<u8>, limit: u64) -> (r: Option<Vec<u8>>)
    ensures
        match r {
            Some(v) => inflate_prefix_of(bytes@, limit) == Some(v@),
            None => inflate_prefix_of(bytes@, limit) is None,
        },
{
    let mut out = Vec::new();
    match ZlibDecoder::new(Cursor::new(bytes)).take(limit).read_to_end(&mut out) {
        Ok(_) => Some(out),
        Err(_) => None,
    }
}

/// True when `bytes` cannot drive the histogram deserializer into the one
/// varint it refuses: either they are not a complete V2 envelope (the
/// deserializer then reports an error before decoding any count), or their
/// counts payload is clean.  The deserializer reads the counts only after
/// the envelope and header are complete, so everything else is safe.
pub open spec fn v2_counts_screened(bytes: Seq<u8>) -> bool {
    if bytes.len() < 8 {
        true
    } else if be32_of(bytes, 0) == V2_COOKIE {
        let plen = be32_of(bytes, 4);
        if bytes.len() < 40 + plen {
            true
        } else {
            spec_counts_clean(bytes.subrange(40, 40 + plen))
        }
    } else if be32_of(bytes, 0) == V2_COMPRESSED_COOKIE {
        let clen = be32_of(bytes, 4);
        let comp = if 8 + clen <= bytes.len() {
            bytes.subrange(8, 8 + clen)
        } else {
            bytes.subrange(8, bytes.len() as int)
        };
        match inflate_prefix_of(comp, 8) {
            None => true,
            Some(head) => {
                if head.len() < 8 || be32_of(head, 0) != V2_COOKIE {
                    true
                } else {
                    let plen = be32_of(head, 4);
                    match inflate_prefix_of(comp, (40 + plen) as u64) {
                        None => true,
                        Some(inner) => {
                            if inner.len() < 40 + plen {
                                true
                            } else {
                                spec_counts_clean(inner.subrange(40, 40 + plen))
                            }
                        },
                    }
                }
            },
        }
    } else {
        true
    }
}

/// Decides [`v2_counts_screened`] by walking the envelope the way the
/// deserializer does: parse the cookie and payload length, inflate exactly
/// the prefix the deserializer would read, and scan the counts varints.
fn v2_screen(bytes: &Vec<u8>) -> (r: bool)
    ensures
        r == v2_counts_screened(bytes@),
{
    let n = bytes.len();
    if n < 8 {
        return true;
    }
    let cookie = read_be32(bytes, 0);
    if cookie == V2_COOKIE {
        let plen64 = read_be32(bytes, 4);
        if (n as u64) < 40u64 + plen64 {
            true
        } else {
            let plen = plen64 as usize;
            let payload = copy_range(bytes, 40, 40 + plen);
            counts_clean(&payload)
        }
    } else if cookie == V2_COMPRESSED_COOKIE {
        let clen64 = read_be32(bytes, 4);
        let avail: usize = n - 8;
        let take_len: usize = if (avail as u64) <= clen64 {
            avail
        } else {
            clen64 as usize
        };
        let comp = copy_range(bytes, 8, 8 + take_len);
        match inflate_prefix_raw(&comp, 8) {
            None => true,
            Some(head) => {
                if head.len() < 8 {
                    true
                } else {
                    let head_cookie = read_be32(&head, 0);
                    if head_cookie != V2_COOKIE {
                        true
                    } else {
                        let plen64 = read_be32(&head, 4);
                        match inflate_prefix_raw(&comp, 40u64 + plen64) {
                            None => true,
                            Some(inner) => {
                                if (inner.len() as u64) < 40u64 + plen64 {
                                    true
                                } else {
                                    let plen = plen64 as usize;
                                    let payload = copy_range(&inner, 40, 40 + plen);
                                    counts_clean(&payload)
                                }
                            },
                        }
                    }
                }
            },
        }
    } else {
        true
    }
}

/// Relies on `hdrhistogram::Histogram::new` with three significant digits:
/// yields an empty auto-resizing histogram with lowest discernible value 1;
/// three is a valid digit count, so the constructor cannot fail.
#[verifier::external_body]
fn new_raw() -> (r: TimeHistogram)
    ensures
        hist_entries(r) == Seq::<(u64, u64)>::empty(),
        hist_resizable(r),
{
    TimeHistogram { inner: Histogram::new(3).unwrap() }
}

/// Relies on `hdrhistogram::Histogram::record`: adds one recording of `v` to
/// the bucket whose representative is `equiv3(v)`, saturating the bucket
/// counter.  On a 64-bit target an auto-resizing histogram can always grow to
/// hold a value up to `i64::MAX / 2`, so the call cannot fail.
#[verifier::external_body]
fn record_raw(h: &mut TimeHistogram, v: u64)
    requires
        1 <= v <= MAX_HIST_NS,
        hist_resizable(*old(h)),
    ensures
        hist_entries(*final(h)) == spec_record(hist_entries(*old(h)), equiv3(v)),
        hist_resizable(*final(h)),
{
    h.inner.record(v).unwrap();
}

/// Relies on `hdrhistogram::Histogram::add`: merges the buckets of `src`
/// into `h`, adding counts with saturation.  Both sides must carry this
/// crate's configuration: only then do their buckets line up so that the
/// merged contents are the entry-wise merge.  On a 64-bit target an
/// auto-resizing histogram can always grow to span the source's range, so
/// the call cannot fail.
#[verifier::external_body]
fn add_raw(h: &mut TimeHistogram, src: &TimeHistogram)
    requires
        hist_resizable(*old(h)),
        hist_resizable(*src),
    ensures
        hist_entries(*final(h)) == spec_merge(hist_entries(*old(h)), hist_entries(*src)),
        hist_resizable(*final(h)),
{
    h.inner.add(&src.inner).unwrap();
}

/// Relies on `hdrhistogram::Histogram::clear`: empties all buckets and the
/// total count, keeping the configuration.
#[verifier::external_body]
fn clear_raw(h: &mut TimeHistogram)
    ensures
        hist_entries(*final(h)) == Seq::<(u64, u64)>::empty(),
        hist_resizable(*final(h)) == hist_resizable(*old(h)),
{
    h.inner.clear();
}

/// Relies on `hdrhistogram::Histogram::len`: the total number of recordings,
/// exact as long as it fits in `u64` (the histogram saturates beyond that).
#[verifier::external_body]
fn total_raw(h: &TimeHistogram) -> (r: u64)
    ensures
        sum_counts(hist_entries(*h)) <= u64::MAX ==> r == sum_counts(hist_entries(*h)),
{
    h.inner.len()
}

/// Relies on `hdrhistogram::Histogram::iter_recorded` and
/// `median_equivalent`: walks the non-empty buckets in ascending value
/// order, each with a positive count, and reports each bucket by its median
/// value.
#[verifier::external_body]
fn entries_raw(h: &TimeHistogram) -> (r: Vec<(u64, u64)>)
    ensures
        r@ == hist_entries(*h),
        sorted_entries(r@),
        positive_counts(r@),
{
    let mut out = Vec::new();
    for v in h.inner.iter_recorded() {
        out.push((h.inner.median_equivalent(v.value_iterated_to()), v.count_since_last_iteration()));
    }
    out
}

/// Relies on `hdrhistogram::serialization::V2DeflateSerializer::serialize`:
/// emits the histogram in the V2-deflate interval format, which the
/// deserializer reads back to a histogram with identical bucket counts.
/// Writing to a `Vec` cannot fail, and with the total count within
/// `i64::MAX` every bucket count is zig-zag encodable.  Counts and
/// zero-run lengths both stay within `i64`, so the emitted varints never
/// include the `u64::MAX` token and the output passes
/// [`v2_counts_screened`].
#[verifier::external_body]
fn serialize_raw(h: &TimeHistogram) -> (r: Vec<u8>)
    requires
        sum_counts(hist_entries(*h)) <= i64::MAX,
    ensures
        r@ == hist_blob(*h),
        v2_parse(r@) == Some(hist_entries(*h)),
        v2_counts_screened(r@),
{
    let mut buf = Vec::new();
    V2DeflateSerializer::new().serialize(&h.inner, &mut buf).unwrap();
    buf
}

/// Relies on `hdrhistogram::serialization::Deserializer::deserialize`:
/// reads a serialized histogram back, restoring its bucket counts, or fails
/// on malformed input.  The `requires` keeps out the one payload on which
/// the deserializer negates `i64::MIN` instead of reporting an error (a
/// panic in builds with arithmetic overflow checks); callers screen their
/// input first.
#[verifier::external_body]
fn deserialize_raw(bytes: &Vec<u8>) -> (r: Option<TimeHistogram>)
    requires
        v2_counts_screened(bytes@),
    ensures
        match r {
            Some(h) => v2_parse(bytes@) == Some(hist_entries(h)),
            None => v2_parse(bytes@) is None,
        },
{
    let mut cursor = Cursor::new(bytes);
    match hdrhistogram::serialization::Deserializer::new().deserialize(&mut cursor) {
        Ok(inner) => Some(TimeHistogram { inner }),
        Err(_) => None,
    }
}

/// A nanosecond duration clamped to what the histograms accept.
pub open spec fn clamp_ns(v: u64) -> u64 {
    if v == 0 {
        1u64
    } else if v > MAX_HIST_NS {
        MAX_HIST_NS
    } else {
        v
    }
}

/// A fresh, empty time histogram.
pub fn new_histogram() -> (r: TimeHistogram)
    ensures
        hist_entries(r) == Seq::<(u64, u64)>::empty(),
        hist_resizable(r),
{
    new_raw()
}

/// Records one duration, clamped to `[1, MAX_HIST_NS]` nanoseconds, since
/// zero is not a recordable histogram value.
pub fn record_nanos(h: &mut TimeHistogram, nanos: u64)
    requires
        hist_resizable(*old(h)),
    ensures
        hist_entries(*final(h)) == spec_record(hist_entries(*old(h)), equiv3(clamp_ns(nanos))),
        hist_resizable(*final(h)),
{
    let v = if nanos == 0 {
        1u64
    } else if nanos > MAX_HIST_NS {
        MAX_HIST_NS
    } else {
        nanos
    };
    record_raw(h, v);
}

/// Merges the recordings of `src` into `dst`.
pub fn add_histogram(dst: &mut TimeHistogram, src: &TimeHistogram)
    requires
        hist_resizable(*old(dst)),
        hist_resizable(*src),
    ensures
        hist_entries(*final(dst)) == spec_merge(hist_entries(*old(dst)), hist_entries(*src)),
        hist_resizable(*final(dst)),
{
    add_raw(dst, src);
}

/// Empties the histogram.
pub fn clear_histogram(h: &mut TimeHistogram)
    ensures
        hist_entries(*final(h)) == Seq::<(u64, u64)>::empty(),
        hist_resizable(*final(h)) == hist_resizable(*old(h)),
{
    clear_raw(h);
}

/// The total number of recordings, exact while it fits in `u64`.
pub fn histogram_total(h: &TimeHistogram) -> (r: u64)
    ensures
        sum_counts(hist_entries(*h)) <= u64::MAX ==> r == sum_counts(hist_entries(*h)),
{
    total_raw(h)
}

/// The non-empty buckets in ascending value order.
pub fn histogram_entries(h: &TimeHistogram) -> (r: Vec<(u64, u64)>)
    ensures
        r@ == hist_entries(*h),
        sorted_entries(r@),
        positive_counts(r@),
{
    entries_raw(h)
}

/// The V2-deflate serialization of the histogram.
pub fn serialize_histogram(h: &TimeHistogram) -> (r: Vec<u8>)
    requires
        sum_counts(hist_entries(*h)) <= i64::MAX,
    ensures
        r@ == hist_blob(*h),
        v2_parse(hist_blob(*h)) == Some(hist_entries(*h)),
        v2_counts_screened(r@),
{
    serialize_raw(h)
}

/// Reads a V2-deflate serialization back; `None` on malformed input.  A
/// payload carrying the varint token the deserializer refuses is treated
/// as malformed without handing it over.
pub fn deserialize_histogram(bytes: &Vec<u8>) -> (r: Option<TimeHistogram>)
    ensures
        r matches Some(h) ==> v2_parse(bytes@) == Some(hist_entries(h)),
        v2_counts_screened(bytes@) ==> (r is Some <==> v2_parse(bytes@) is Some),
        !v2_counts_screened(bytes@) ==> r is None,
{
    if v2_screen(bytes) {
        deserialize_raw(bytes)
    } else {
        None
    }
}

} // verus!
