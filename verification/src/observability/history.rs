//! Upload history: the append-only frame format (a fixed-width `u64`
//! little-endian length prefix, then the encoded record), the tolerant frame
//! scan (a partial trailing frame is a crash during append, so the complete
//! prefix is kept; only a damaged complete frame is corruption), and the
//! query filter.

use vstd::prelude::*;

use crate::foundation::core_types::error::CodecError;
use crate::foundation::core_types::primitives::Timestamp;
use crate::foundation::core_types::sink::UploadHistoryRecord;

use super::error::HistoryError;

verus! {

/// Width of the length prefix, in bytes.
pub const LEN_PREFIX: usize = 8;

/// The eight little-endian bytes of `n`.
pub open spec fn le_bytes(n: u64) -> Seq<u8> {
    seq![
        (n & 0xff) as u8,
        ((n >> 8u64) & 0xff) as u8,
        ((n >> 16u64) & 0xff) as u8,
        ((n >> 24u64) & 0xff) as u8,
        ((n >> 32u64) & 0xff) as u8,
        ((n >> 40u64) & 0xff) as u8,
        ((n >> 48u64) & 0xff) as u8,
        ((n >> 56u64) & 0xff) as u8,
    ]
}

/// The `u64` read little-endian from eight bytes.
pub open spec fn le_value(b0: u8, b1: u8, b2: u8, b3: u8, b4: u8, b5: u8, b6: u8, b7: u8) -> u64 {
    (b0 as u64) | ((b1 as u64) << 8u64) | ((b2 as u64) << 16u64) | ((b3 as u64) << 24u64) | ((
    b4 as u64) << 32u64) | ((b5 as u64) << 40u64) | ((b6 as u64) << 48u64) | ((b7 as u64) << 56u64)
}

/// The length stored in the first eight bytes of `b`.
pub open spec fn prefix_value(b: Seq<u8>) -> u64 {
    le_value(b[0], b[1], b[2], b[3], b[4], b[5], b[6], b[7])
}

/// One frame: the payload's length, little-endian, then the payload.
pub open spec fn spec_frame(payload: Seq<u8>) -> Seq<u8> {
    le_bytes(payload.len() as u64) + payload
}

/// The payloads of the complete frames at the start of `bytes`; the scan
/// stops at a partial header or a partial payload.
pub open spec fn spec_split_frames(bytes: Seq<u8>) -> Seq<Seq<u8>>
    decreases bytes.len(),
{
    if bytes.len() < 8 {
        Seq::empty()
    } else {
        let len = prefix_value(bytes);
        if len > bytes.len() - 8 {
            Seq::empty()
        } else {
            seq![bytes.subrange(8, 8 + len)] + spec_split_frames(bytes.skip(8 + len))
        }
    }
}

/// The frames of a list of payloads, concatenated in order.
pub open spec fn spec_frames(ps: Seq<Seq<u8>>) -> Seq<u8>
    decreases ps.len(),
{
    if ps.len() == 0 {
        Seq::empty()
    } else {
        spec_frame(ps[0]) + spec_frames(ps.drop_first())
    }
}

/// Encodes `n` as eight little-endian bytes.
pub fn le_encode(n: u64) -> (b: Vec<u8>)
    ensures
        b@ == le_bytes(n),
{
    let mut b: Vec<u8> = Vec::new();
    b.push((n & 0xff) as u8);
    b.push(((n >> 8u64) & 0xff) as u8);
    b.push(((n >> 16u64) & 0xff) as u8);
    b.push(((n >> 24u64) & 0xff) as u8);
    b.push(((n >> 32u64) & 0xff) as u8);
    b.push(((n >> 40u64) & 0xff) as u8);
    b.push(((n >> 48u64) & 0xff) as u8);
    b.push(((n >> 56u64) & 0xff) as u8);
    assert(b@ =~= le_bytes(n));
    b
}

/// Reading back the eight bytes of `n` gives `n`.
pub proof fn lemma_le_roundtrip(n: u64)
    ensures
        prefix_value(le_bytes(n)) == n,
{
    let b = le_bytes(n);
    assert(le_value(
        (n & 0xff) as u8,
        ((n >> 8u64) & 0xff) as u8,
        ((n >> 16u64) & 0xff) as u8,
        ((n >> 24u64) & 0xff) as u8,
        ((n >> 32u64) & 0xff) as u8,
        ((n >> 40u64) & 0xff) as u8,
        ((n >> 48u64) & 0xff) as u8,
        ((n >> 56u64) & 0xff) as u8,
    ) == n) by (bit_vector);
}

/// One frame of a payload.
pub fn frame(payload: &[u8]) -> (f: Vec<u8>)
    ensures
        f@ == spec_frame(payload@),
{
    let mut f = le_encode(payload.len() as u64);
    let n = payload.len();
    let ghost head = f@;
    let mut i: usize = 0;
    while i < n
        invariant
            n == payload@.len(),
            i <= n,
            f@ == head + payload@.take(i as int),
        decreases n - i,
    {
        f.push(payload[i]);
        i = i + 1;
        assert(payload@.take(i as int) =~= payload@.take(i - 1).push(payload@[i - 1]));
    }
    assert(payload@.take(n as int) =~= payload@);
    f
}

/// The bytes `lo..hi` of a slice.
fn copy_range(bytes: &[u8], lo: usize, hi: usize) -> (r: Vec<u8>)
    requires
        lo <= hi <= bytes@.len(),
    ensures
        r@ == bytes@.subrange(lo as int, hi as int),
{
    let mut r: Vec<u8> = Vec::new();
    let mut i: usize = lo;
    while i < hi
        invariant
            lo <= i <= hi,
            hi <= bytes@.len(),
            r@ == bytes@.subrange(lo as int, i as int),
        decreases hi - i,
    {
        r.push(bytes[i]);
        i = i + 1;
        assert(r@ =~= bytes@.subrange(lo as int, i as int));
    }
    r
}

/// The payloads of the complete frames, in order; a partial trailing frame
/// (header or payload cut short) ends the scan without error.
pub fn split_frames(bytes: &[u8]) -> (ps: Vec<Vec<u8>>)
    ensures
        ps@.map_values(|p: Vec<u8>| p@) == spec_split_frames(bytes@),
{
    let total = bytes.len();
    let mut out: Vec<Vec<u8>> = Vec::new();
    let mut pos: usize = 0;
    assert(bytes@.skip(0) =~= bytes@);
    assert(out@.map_values(|p: Vec<u8>| p@) + spec_split_frames(bytes@) =~= spec_split_frames(
        bytes@,
    ));
    while pos < total
        invariant
            total == bytes@.len(),
            pos <= total,
            out@.map_values(|p: Vec<u8>| p@) + spec_split_frames(bytes@.skip(pos as int))
                == spec_split_frames(bytes@),
        ensures
            out@.map_values(|p: Vec<u8>| p@) == spec_split_frames(bytes@),
        decreases total - pos,
    {
        let ghost rest = bytes@.skip(pos as int);
        if total - pos < LEN_PREFIX {
            assert(spec_split_frames(rest) =~= Seq::<Seq<u8>>::empty());
            assert(out@.map_values(|p: Vec<u8>| p@) + Seq::<Seq<u8>>::empty() =~= out@.map_values(
                |p: Vec<u8>| p@,
            ));
            break;
        }
        let header_end = pos + LEN_PREFIX;
        let len: u64 = (bytes[pos] as u64) | ((bytes[pos + 1] as u64) << 8u64) | ((bytes[pos
            + 2] as u64) << 16u64) | ((bytes[pos + 3] as u64) << 24u64) | ((bytes[pos
            + 4] as u64) << 32u64) | ((bytes[pos + 5] as u64) << 40u64) | ((bytes[pos
            + 6] as u64) << 48u64) | ((bytes[pos + 7] as u64) << 56u64);
        assert(len == prefix_value(rest));
        let remaining = total - header_end;
        if len > remaining as u64 {
            assert(spec_split_frames(rest) =~= Seq::<Seq<u8>>::empty());
            assert(out@.map_values(|p: Vec<u8>| p@) + Seq::<Seq<u8>>::empty() =~= out@.map_values(
                |p: Vec<u8>| p@,
            ));
            break;
        }
        let payload_end = header_end + len as usize;
        let payload = copy_range(bytes, header_end, payload_end);
        let ghost before = out@;
        assert(payload@ =~= rest.subrange(8, 8 + len));
        assert(rest.skip(8 + len) =~= bytes@.skip(payload_end as int));
        out.push(payload);
        assert(out@.map_values(|p: Vec<u8>| p@) =~= before.map_values(|p: Vec<u8>| p@).push(
            payload@,
        ));
        assert(seq![rest.subrange(8, 8 + len)] + spec_split_frames(rest.skip(8 + len))
            =~= seq![payload@] + spec_split_frames(bytes@.skip(payload_end as int)));
        assert(before.map_values(|p: Vec<u8>| p@).push(payload@) + spec_split_frames(
            bytes@.skip(payload_end as int),
        ) =~= before.map_values(|p: Vec<u8>| p@) + (seq![payload@] + spec_split_frames(
            bytes@.skip(payload_end as int),
        )));
        pos = payload_end;
        proof {
            if pos >= total {
                assert(spec_split_frames(bytes@.skip(pos as int)) =~= Seq::<Seq<u8>>::empty());
                assert(out@.map_values(|p: Vec<u8>| p@) + Seq::<Seq<u8>>::empty()
                    =~= out@.map_values(|p: Vec<u8>| p@));
            }
        }
    }
    out
}

/// Scanning frames written one after another, followed by any bytes, gives
/// the payloads, then whatever the trailing bytes scan to.
pub proof fn lemma_split_frames_append(ps: Seq<Seq<u8>>, tail: Seq<u8>)
    requires
        forall|i: int| 0 <= i < ps.len() ==> (#[trigger] ps[i]).len() <= u64::MAX,
    ensures
        spec_split_frames(spec_frames(ps) + tail) == ps + spec_split_frames(tail),
    decreases ps.len(),
{
    if ps.len() == 0 {
        assert(spec_frames(ps) + tail =~= tail);
        assert(ps + spec_split_frames(tail) =~= spec_split_frames(tail));
    } else {
        let p = ps[0];
        let rest = ps.drop_first();
        assert forall|i: int| 0 <= i < rest.len() implies (#[trigger] rest[i]).len() <= u64::MAX by {
            assert(rest[i] == ps[i + 1]);
        }
        lemma_split_frames_append(rest, tail);
        let bytes = spec_frames(ps) + tail;
        let n = p.len() as u64;
        lemma_le_roundtrip(n);
        assert(bytes =~= le_bytes(n) + (p + (spec_frames(rest) + tail)));
        assert(bytes.take(8) =~= le_bytes(n));
        assert(prefix_value(bytes) == prefix_value(le_bytes(n)));
        assert(bytes.subrange(8, 8 + p.len() as int) =~= p);
        assert(bytes.skip(8 + p.len() as int) =~= spec_frames(rest) + tail);
        assert(ps =~= seq![p] + rest);
        assert(seq![p] + (rest + spec_split_frames(tail)) =~= ps + spec_split_frames(tail));
    }
}

/// Frame round trip: scanning the frames of some payloads gives them back.
pub proof fn lemma_frames_roundtrip(ps: Seq<Seq<u8>>)
    requires
        forall|i: int| 0 <= i < ps.len() ==> (#[trigger] ps[i]).len() <= u64::MAX,
    ensures
        spec_split_frames(spec_frames(ps)) == ps,
{
    lemma_split_frames_append(ps, Seq::empty());
    assert(spec_frames(ps) + Seq::<u8>::empty() =~= spec_frames(ps));
    assert(spec_split_frames(Seq::<u8>::empty()) =~= Seq::<Seq<u8>>::empty());
    assert(ps + Seq::<Seq<u8>>::empty() =~= ps);
}

/// Truncated-tail tolerance: after complete frames, any proper prefix of one
/// more frame (a crash in the middle of an append) is ignored.
pub proof fn lemma_truncated_tail_ignored(ps: Seq<Seq<u8>>, q: Seq<u8>, k: int)
    requires
        forall|i: int| 0 <= i < ps.len() ==> (#[trigger] ps[i]).len() <= u64::MAX,
        q.len() <= u64::MAX,
        0 <= k < spec_frame(q).len(),
    ensures
        spec_split_frames(spec_frames(ps) + spec_frame(q).take(k)) == ps,
{
    let t = spec_frame(q).take(k);
    lemma_split_frames_append(ps, t);
    if k >= 8 {
        lemma_le_roundtrip(q.len() as u64);
        assert(t.take(8) =~= le_bytes(q.len() as u64));
        assert(prefix_value(t) == prefix_value(le_bytes(q.len() as u64)));
    }
    assert(spec_split_frames(t) =~= Seq::<Seq<u8>>::empty());
    assert(ps + Seq::<Seq<u8>>::empty() =~= ps);
}

/// The records decoded from complete frames: every one when all decoded,
/// else the first decode failure reported as mid-file corruption.
pub open spec fn spec_collect_records(
    decoded: Seq<Result<UploadHistoryRecord, CodecError>>,
) -> Result<Seq<UploadHistoryRecord>, CodecError>
    decreases decoded.len(),
{
    if decoded.len() == 0 {
        Ok(Seq::empty())
    } else {
        match decoded[0] {
            Err(e) => Err(e),
            Ok(r) => match spec_collect_records(decoded.drop_first()) {
                Ok(rs) => Ok(seq![r] + rs),
                Err(e) => Err(e),
            },
        }
    }
}

/// Collects decoded frames: `Ok` with every record in order, or
/// `Corrupt` carrying the message of the first decode failure.
pub fn collect_records(decoded: Vec<Result<UploadHistoryRecord, CodecError>>) -> (r: Result<
    Vec<UploadHistoryRecord>,
    HistoryError,
>)
    ensures
        match (r, spec_collect_records(decoded@)) {
            (Ok(v), Ok(s)) => v@ == s,
            (Err(HistoryError::Corrupt(m)), Err(e)) => m@
                == crate::foundation::core_types::error::spec_codec_message(e),
            _ => false,
        },
{
    let mut out: Vec<UploadHistoryRecord> = Vec::new();
    let ghost all = decoded@;
    let n = decoded.len();
    let mut k: usize = 0;
    proof {
        assert(all.skip(0) =~= all);
        match spec_collect_records(all) {
            Ok(rs) => {
                assert(out@ + rs =~= rs);
            },
            Err(e) => {},
        }
    }
    for item in it: decoded.into_iter()
        invariant
            it.seq() == all,
            n == all.len(),
            k == it.index(),
            spec_collect_records(all) == match spec_collect_records(all.skip(k as int)) {
                Ok(rs) => Ok(out@ + rs),
                Err(e) => Err(e),
            },
    {
        let ghost rest = all.skip(k as int);
        assert(rest[0] == item);
        assert(rest.drop_first() =~= all.skip(k + 1));
        match item {
            Ok(record) => {
                let ghost before = out@;
                out.push(record);
                proof {
                    match spec_collect_records(all.skip(k + 1)) {
                        Ok(rs) => {
                            assert(before + (seq![record] + rs) =~= out@ + rs);
                        },
                        Err(e) => {},
                    }
                }
            },
            Err(e) => {
                return Err(HistoryError::Corrupt(e.message()));
            },
        }
        k = k + 1;
    }
    assert(all.skip(n as int) =~= Seq::<Result<UploadHistoryRecord, CodecError>>::empty());
    assert(out@ + Seq::<UploadHistoryRecord>::empty() =~= out@);
    Ok(out)
}

/// History query: both filters must hold; `None` leaves an axis free.
#[derive(Debug, Clone, Copy, PartialEq, Eq, Default)]
pub struct HistoryQuery {
    /// Only records with `timestamp >= since`.
    pub since: Option<Timestamp>,
    /// `Some(true)`: failures only; `Some(false)`: successes only.
    pub only_failures: Option<bool>,
}

/// Whether a record passes both filters of the query; a failure is a record
/// with an error detail.
pub open spec fn spec_query_matches(q: HistoryQuery, r: UploadHistoryRecord) -> bool {
    &&& (q.since matches Some(since) ==> r.timestamp.0 >= since.0)
    &&& (q.only_failures matches Some(f) ==> f == (r.error_detail is Some))
}

impl HistoryQuery {
    /// The query without filters: every record passes.
    pub fn all() -> (q: Self)
        ensures
            q.since is None,
            q.only_failures is None,
    {
        HistoryQuery { since: None, only_failures: None }
    }

    /// Whether the record passes both filters.
    pub fn matches(&self, record: &UploadHistoryRecord) -> (r: bool)
        ensures
            r == spec_query_matches(*self, *record),
    {
        if let Some(since) = self.since {
            if record.timestamp.0 < since.0 {
                return false;
            }
        }
        if let Some(only_failures) = self.only_failures {
            let is_failure = record.error_detail.is_some();
            if only_failures != is_failure {
                return false;
            }
        }
        true
    }
}

/// The two filters combine with AND, each free when `None`: the unfiltered
/// query passes every record, and a query passes a record exactly when its
/// time-only part and its outcome-only part both do.
pub proof fn lemma_query_is_conjunction(q: HistoryQuery, r: UploadHistoryRecord)
    ensures
        spec_query_matches(HistoryQuery { since: None, only_failures: None }, r),
        spec_query_matches(q, r) == (spec_query_matches(
            HistoryQuery { since: q.since, only_failures: None },
            r,
        ) && spec_query_matches(HistoryQuery { since: None, only_failures: q.only_failures }, r)),
{
}

/// The records passing the query, in their order.
pub fn filter_records(records: Vec<UploadHistoryRecord>, q: &HistoryQuery) -> (r: Vec<
    UploadHistoryRecord,
>)
    ensures
        r@ == records@.filter(|x: UploadHistoryRecord| spec_query_matches(*q, x)),
{
    let ghost all = records@;
    let ghost pred = |x: UploadHistoryRecord| spec_query_matches(*q, x);
    let mut out: Vec<UploadHistoryRecord> = Vec::new();
    for item in it: records.into_iter()
        invariant
            it.seq() == all,
            pred == (|x: UploadHistoryRecord| spec_query_matches(*q, x)),
            out@ == all.take(it.index() as int).filter(pred),
    {
        let ghost k = it.index() as int;
        proof {
            reveal(Seq::filter);
            assert(all.take(k + 1).drop_last() =~= all.take(k));
            assert(all.take(k + 1).last() == item);
        }
        if q.matches(&item) {
            out.push(item);
        }
    }
    proof {
        assert(all.take(all.len() as int) =~= all);
    }
    out
}

} // verus!
