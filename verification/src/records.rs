//! The record log: one timing observation per clock per captured frame.

use vstd::prelude::*;

verus! {

/// Which clock produced a record's `timestamp`.
#[derive(Clone, Copy, Debug, PartialEq, Eq, Structural)]
pub enum EventType {
    HardwareTime,
    CpuTime,
}

/// One timing observation: a timestamp in the common tick base, the
/// display-refresh counter value it belongs to, and the clock that
/// produced the timestamp.
#[derive(Clone, Copy, Debug, PartialEq, Eq, Structural)]
pub struct VBlankRecord {
    pub timestamp: i64,
    pub count: i64,
    pub event_type: EventType,
}

/// Number of completed frames a log describes (two records per frame).
pub open spec fn frame_pairs(rs: Seq<VBlankRecord>) -> int {
    rs.len() as int / 2
}

/// The hardware-clock record of frame `k`.
pub open spec fn hw_rec(rs: Seq<VBlankRecord>, k: int) -> VBlankRecord {
    rs[2 * k]
}

/// The CPU-clock record of frame `k`.
pub open spec fn cpu_rec(rs: Seq<VBlankRecord>, k: int) -> VBlankRecord {
    rs[2 * k + 1]
}

/// Well-formed record log: records come in hardware/CPU pairs, one pair per
/// captured frame in submission order; the two records of a pair carry the
/// same refresh count; and within each clock's stream the timestamps are
/// strictly increasing.
pub open spec fn wf_log(rs: Seq<VBlankRecord>) -> bool {
    &&& rs.len() % 2 == 0
    &&& forall|k: int|
        0 <= k < frame_pairs(rs) ==> (#[trigger] hw_rec(rs, k)).event_type
            == EventType::HardwareTime
    &&& forall|k: int|
        0 <= k < frame_pairs(rs) ==> (#[trigger] cpu_rec(rs, k)).event_type == EventType::CpuTime
    &&& forall|k: int|
        0 <= k < frame_pairs(rs) ==> (#[trigger] hw_rec(rs, k)).count == cpu_rec(rs, k).count
    &&& forall|i: int, j: int|
        0 <= i < j < frame_pairs(rs) ==> (#[trigger] hw_rec(rs, i)).timestamp < (#[trigger] hw_rec(
            rs,
            j,
        )).timestamp
    &&& forall|i: int, j: int|
        0 <= i < j < frame_pairs(rs) ==> (#[trigger] cpu_rec(rs, i)).timestamp
            < (#[trigger] cpu_rec(rs, j)).timestamp
}

/// Appending one hardware/CPU pair whose timestamps are fresher than the last
/// pair's keeps the log well-formed.
pub proof fn lemma_wf_log_push_pair(rs: Seq<VBlankRecord>, h: VBlankRecord, c: VBlankRecord)
    requires
        wf_log(rs),
        h.event_type == EventType::HardwareTime,
        c.event_type == EventType::CpuTime,
        h.count == c.count,
        rs.len() > 0 ==> h.timestamp > hw_rec(rs, frame_pairs(rs) - 1).timestamp,
        rs.len() > 0 ==> c.timestamp > cpu_rec(rs, frame_pairs(rs) - 1).timestamp,
    ensures
        wf_log(rs + seq![h, c]),
        frame_pairs(rs + seq![h, c]) == frame_pairs(rs) + 1,
        hw_rec(rs + seq![h, c], frame_pairs(rs)) == h,
        cpu_rec(rs + seq![h, c], frame_pairs(rs)) == c,
{
    let rs2 = rs + seq![h, c];
    let n = frame_pairs(rs);
    assert(rs2.len() == rs.len() + 2);
    assert forall|k: int| 0 <= k < n implies hw_rec(rs2, k) == hw_rec(rs, k) && cpu_rec(rs2, k)
        == cpu_rec(rs, k) by {
        assert(rs2[2 * k] == rs[2 * k]);
        assert(rs2[2 * k + 1] == rs[2 * k + 1]);
    }
    assert(rs2[2 * n] == h);
    assert(rs2[2 * n + 1] == c);
    assert forall|i: int, j: int| 0 <= i < j < frame_pairs(rs2) implies (#[trigger] hw_rec(
        rs2,
        i,
    )).timestamp < (#[trigger] hw_rec(rs2, j)).timestamp by {
        if j == n && i < n - 1 {
            assert(hw_rec(rs, i).timestamp < hw_rec(rs, n - 1).timestamp);
        }
    }
    assert forall|i: int, j: int| 0 <= i < j < frame_pairs(rs2) implies (#[trigger] cpu_rec(
        rs2,
        i,
    )).timestamp < (#[trigger] cpu_rec(rs2, j)).timestamp by {
        if j == n && i < n - 1 {
            assert(cpu_rec(rs, i).timestamp < cpu_rec(rs, n - 1).timestamp);
        }
    }
}

/// Law: every captured frame contributes exactly one hardware-clock and one
/// CPU-clock record, and the two share the same refresh count.
pub proof fn lemma_pair_counts_equal(rs: Seq<VBlankRecord>, k: int)
    requires
        wf_log(rs),
        0 <= k < frame_pairs(rs),
    ensures
        hw_rec(rs, k).event_type == EventType::HardwareTime,
        cpu_rec(rs, k).event_type == EventType::CpuTime,
        hw_rec(rs, k).count == cpu_rec(rs, k).count,
{
}

/// Law: a well-formed log alternates strictly between the two clocks, row
/// by row: even rows are hardware-clock records, odd rows CPU-clock records.
pub proof fn lemma_log_alternates(rs: Seq<VBlankRecord>, i: int)
    requires
        wf_log(rs),
        0 <= i < rs.len(),
    ensures
        i % 2 == 0 ==> rs[i].event_type == EventType::HardwareTime,
        i % 2 == 1 ==> rs[i].event_type == EventType::CpuTime,
{
    let k = i / 2;
    assert(0 <= k < frame_pairs(rs));
    if i % 2 == 0 {
        assert(rs[i] == hw_rec(rs, k));
    } else {
        assert(rs[i] == cpu_rec(rs, k));
    }
}

/// Law: within each clock's stream of a well-formed log, timestamps are
/// strictly increasing; in particular any record's timestamp exceeds its
/// predecessor's in the same stream.
pub proof fn lemma_stream_timestamps_increase(rs: Seq<VBlankRecord>, i: int, j: int)
    requires
        wf_log(rs),
        0 <= i < j < frame_pairs(rs),
    ensures
        hw_rec(rs, j).timestamp > hw_rec(rs, i).timestamp,
        cpu_rec(rs, j).timestamp > cpu_rec(rs, i).timestamp,
{
}

} // verus!
