//! Export of the record log as delimited text: a header row followed by one
//! `timestamp,count,event_type` row per record, in log order.

use crate::records::{EventType, VBlankRecord};
use vstd::prelude::*;

verus! {

/// Decimal digits of a non-negative value, most significant first, as ASCII
/// bytes.
pub open spec fn dec_bytes_nat(n: nat) -> Seq<u8>
    decreases n,
{
    if n < 10 {
        seq![(48 + n) as u8]
    } else {
        dec_bytes_nat(n / 10) + seq![(48 + n % 10) as u8]
    }
}

/// Decimal rendering of a signed value: a minus sign for negatives, then the
/// digits of the magnitude.
pub open spec fn dec_bytes_int(n: int) -> Seq<u8> {
    if n >= 0 {
        dec_bytes_nat(n as nat)
    } else {
        seq![45u8] + dec_bytes_nat((-n) as nat)
    }
}

/// The column-name row that precedes the records: `timestamp,count,event_type`
/// and a line feed.
pub open spec fn header_bytes() -> Seq<u8> {
    seq![
        116u8, 105u8, 109u8, 101u8, 115u8, 116u8, 97u8, 109u8, 112u8, 44u8, 99u8, 111u8, 117u8,
        110u8, 116u8, 44u8, 101u8, 118u8, 101u8, 110u8, 116u8, 95u8, 116u8, 121u8, 112u8, 101u8,
        10u8,
    ]
}

/// The textual tag of a record's clock: `hardware_time` or `cpu_time`.
pub open spec fn event_bytes(e: EventType) -> Seq<u8> {
    match e {
        EventType::HardwareTime => seq![
            104u8, 97u8, 114u8, 100u8, 119u8, 97u8, 114u8, 101u8, 95u8, 116u8, 105u8, 109u8, 101u8,
        ],
        EventType::CpuTime => seq![99u8, 112u8, 117u8, 95u8, 116u8, 105u8, 109u8, 101u8],
    }
}

/// One exported row: timestamp, count and clock tag, comma-separated, ending
/// in a line feed.
pub open spec fn row_bytes(r: VBlankRecord) -> Seq<u8> {
    dec_bytes_int(r.timestamp as int) + seq![44u8] + dec_bytes_int(r.count as int) + seq![44u8]
        + event_bytes(r.event_type) + seq![10u8]
}

/// The rows of a log, in log order.
pub open spec fn rows_bytes(rs: Seq<VBlankRecord>) -> Seq<u8>
    decreases rs.len(),
{
    if rs.len() == 0 {
        Seq::empty()
    } else {
        rows_bytes(rs.drop_last()) + row_bytes(rs.last())
    }
}

/// The full export: the header row followed by every record's row. The
/// output is a function of the log alone, so exporting the same log twice
/// yields byte-identical text.
pub open spec fn csv_bytes(rs: Seq<VBlankRecord>) -> Seq<u8> {
    header_bytes() + rows_bytes(rs)
}

/// Law: the exported text is determined by the log alone — equal logs export
/// to byte-identical output.
pub proof fn lemma_export_deterministic(a: Seq<VBlankRecord>, b: Seq<VBlankRecord>)
    requires
        a == b,
    ensures
        csv_bytes(a) == csv_bytes(b),
{
}

/// Number of line feeds in a byte sequence: with every row ending in one,
/// this is the output's row count.
pub open spec fn newline_count(bs: Seq<u8>) -> int
    decreases bs.len(),
{
    if bs.len() == 0 {
        0
    } else {
        newline_count(bs.drop_last()) + if bs.last() == 10u8 {
            1int
        } else {
            0int
        }
    }
}

/// Line feeds in a concatenation are the line feeds of the two parts.
proof fn lemma_newline_count_add(a: Seq<u8>, b: Seq<u8>)
    ensures
        newline_count(a + b) == newline_count(a) + newline_count(b),
    decreases b.len(),
{
    if b.len() == 0 {
        assert(a + b =~= a);
    } else {
        lemma_newline_count_add(a, b.drop_last());
        assert((a + b).drop_last() =~= a + b.drop_last());
        assert((a + b).last() == b.last());
    }
}

/// A single byte counts as one line feed exactly when it is one.
proof fn lemma_newline_count_one(b: u8)
    ensures
        newline_count(seq![b]) == if b == 10u8 {
            1int
        } else {
            0int
        },
{
    assert(seq![b].drop_last() =~= Seq::<u8>::empty());
    assert(newline_count(Seq::<u8>::empty()) == 0);
    assert(seq![b].last() == b);
}

/// A sequence none of whose bytes is a line feed has none to count.
proof fn lemma_newline_count_zero(bs: Seq<u8>)
    requires
        forall|i: int| 0 <= i < bs.len() ==> bs[i] != 10u8,
    ensures
        newline_count(bs) == 0,
    decreases bs.len(),
{
    if bs.len() > 0 {
        assert forall|i: int| 0 <= i < bs.drop_last().len() implies bs.drop_last()[i] != 10u8 by {
            assert(bs.drop_last()[i] == bs[i]);
        }
        lemma_newline_count_zero(bs.drop_last());
        assert(bs.last() == bs[bs.len() - 1]);
    }
}

/// The clock tags contain no line feed.
proof fn lemma_event_bytes_no_newline(e: EventType)
    ensures
        newline_count(event_bytes(e)) == 0,
{
    lemma_newline_count_zero(event_bytes(e));
}

/// The header row ends in its one and only line feed.
proof fn lemma_header_one_newline()
    ensures
        newline_count(header_bytes()) == 1,
{
    let h = header_bytes();
    assert forall|i: int| 0 <= i < h.drop_last().len() implies h.drop_last()[i] != 10u8 by {
        assert(h.drop_last()[i] == h[i]);
    }
    lemma_newline_count_zero(h.drop_last());
    assert(h.last() == 10u8);
}

/// The digits of a value contain no line feed.
proof fn lemma_dec_nat_no_newline(n: nat)
    ensures
        newline_count(dec_bytes_nat(n)) == 0,
    decreases n,
{
    if n < 10 {
        lemma_newline_count_one((48 + n) as u8);
    } else {
        lemma_dec_nat_no_newline(n / 10);
        lemma_newline_count_add(dec_bytes_nat(n / 10), seq![(48 + n % 10) as u8]);
        lemma_newline_count_one((48 + n % 10) as u8);
    }
}

/// The decimal rendering of a signed value contains no line feed.
proof fn lemma_dec_int_no_newline(n: int)
    ensures
        newline_count(dec_bytes_int(n)) == 0,
{
    if n >= 0 {
        lemma_dec_nat_no_newline(n as nat);
    } else {
        lemma_dec_nat_no_newline((-n) as nat);
        lemma_newline_count_add(seq![45u8], dec_bytes_nat((-n) as nat));
        lemma_newline_count_one(45u8);
    }
}

/// Each record's row ends in its one and only line feed.
proof fn lemma_row_one_newline(r: VBlankRecord)
    ensures
        newline_count(row_bytes(r)) == 1,
{
    let body = dec_bytes_int(r.timestamp as int) + seq![44u8] + dec_bytes_int(r.count as int)
        + seq![44u8] + event_bytes(r.event_type);
    lemma_dec_int_no_newline(r.timestamp as int);
    lemma_dec_int_no_newline(r.count as int);
    lemma_newline_count_one(44u8);
    lemma_event_bytes_no_newline(r.event_type);
    lemma_newline_count_add(dec_bytes_int(r.timestamp as int), seq![44u8]);
    lemma_newline_count_add(dec_bytes_int(r.timestamp as int) + seq![44u8], dec_bytes_int(
        r.count as int,
    ));
    lemma_newline_count_add(
        dec_bytes_int(r.timestamp as int) + seq![44u8] + dec_bytes_int(r.count as int),
        seq![44u8],
    );
    lemma_newline_count_add(
        dec_bytes_int(r.timestamp as int) + seq![44u8] + dec_bytes_int(r.count as int) + seq![44u8],
        event_bytes(r.event_type),
    );
    assert(newline_count(body) == 0);
    lemma_newline_count_add(body, seq![10u8]);
    lemma_newline_count_one(10u8);
    assert(row_bytes(r) =~= body + seq![10u8]);
}

/// Law: the export holds exactly one row per record, plus the header row —
/// its line-feed count is the log's length plus one.
pub proof fn lemma_export_row_count(rs: Seq<VBlankRecord>)
    ensures
        newline_count(csv_bytes(rs)) == rs.len() + 1,
    decreases rs.len(),
{
    lemma_header_one_newline();
    lemma_rows_newline_count(rs);
    lemma_newline_count_add(header_bytes(), rows_bytes(rs));
}

/// The rows of a log hold one line feed per record.
proof fn lemma_rows_newline_count(rs: Seq<VBlankRecord>)
    ensures
        newline_count(rows_bytes(rs)) == rs.len(),
    decreases rs.len(),
{
    if rs.len() > 0 {
        lemma_rows_newline_count(rs.drop_last());
        lemma_row_one_newline(rs.last());
        lemma_newline_count_add(rows_bytes(rs.drop_last()), row_bytes(rs.last()));
    }
}

/// Appends the decimal digits of `n`, most significant first.
fn push_dec_u64(n: u64, out: &mut Vec<u8>)
    ensures
        final(out)@ == old(out)@ + dec_bytes_nat(n as nat),
    decreases n,
{
    if n < 10 {
        out.push(48 + n as u8);
    } else {
        push_dec_u64(n / 10, out);
        out.push(48 + (n % 10) as u8);
    }
}

/// Appends the decimal rendering of a signed value, with a leading minus
/// sign for negatives.
fn push_dec_i64(n: i64, out: &mut Vec<u8>)
    ensures
        final(out)@ == old(out)@ + dec_bytes_int(n as int),
{
    if n >= 0 {
        push_dec_u64(n as u64, out);
    } else {
        out.push(45u8);
        let m: u64 = if n == i64::MIN {
            9223372036854775808u64
        } else {
            (-n) as u64
        };
        assert(m as int == -(n as int));
        push_dec_u64(m, out);
        proof {
            assert(out@ =~= old(out)@ + dec_bytes_int(n as int));
        }
    }
}

/// Appends the clock tag of a record.
fn push_event(e: EventType, out: &mut Vec<u8>)
    ensures
        final(out)@ == old(out)@ + event_bytes(e),
{
    match e {
        EventType::HardwareTime => {
            out.push(104u8);
            out.push(97u8);
            out.push(114u8);
            out.push(100u8);
            out.push(119u8);
            out.push(97u8);
            out.push(114u8);
            out.push(101u8);
            out.push(95u8);
            out.push(116u8);
            out.push(105u8);
            out.push(109u8);
            out.push(101u8);
            proof {
                assert(out@ =~= old(out)@ + event_bytes(e));
            }
        },
        EventType::CpuTime => {
            out.push(99u8);
            out.push(112u8);
            out.push(117u8);
            out.push(95u8);
            out.push(116u8);
            out.push(105u8);
            out.push(109u8);
            out.push(101u8);
            proof {
                assert(out@ =~= old(out)@ + event_bytes(e));
            }
        },
    }
}

/// Appends the header row.
fn push_header(out: &mut Vec<u8>)
    ensures
        final(out)@ == old(out)@ + header_bytes(),
{
    out.push(116u8);
    out.push(105u8);
    out.push(109u8);
    out.push(101u8);
    out.push(115u8);
    out.push(116u8);
    out.push(97u8);
    out.push(109u8);
    out.push(112u8);
    out.push(44u8);
    out.push(99u8);
    out.push(111u8);
    out.push(117u8);
    out.push(110u8);
    out.push(116u8);
    out.push(44u8);
    out.push(101u8);
    out.push(118u8);
    out.push(101u8);
    out.push(110u8);
    out.push(116u8);
    out.push(95u8);
    out.push(116u8);
    out.push(121u8);
    out.push(112u8);
    out.push(101u8);
    out.push(10u8);
    proof {
        assert(out@ =~= old(out)@ + header_bytes());
    }
}

/// Materializes the record log as delimited text with a header row, one row
/// per record, in log order. The result is exactly `csv_bytes` of the log,
/// so repeated exports of the same log are byte-identical.
pub fn export_csv(records: &Vec<VBlankRecord>) -> (r: Vec<u8>)
    ensures
        r@ == csv_bytes(records@),
{
    let mut out: Vec<u8> = Vec::new();
    push_header(&mut out);
    let mut i: usize = 0;
    while i < records.len()
        invariant
            i <= records@.len(),
            out@ == header_bytes() + rows_bytes(records@.take(i as int)),
        decreases records@.len() - i,
    {
        let rec = records[i];
        push_dec_i64(rec.timestamp, &mut out);
        out.push(44u8);
        push_dec_i64(rec.count, &mut out);
        out.push(44u8);
        push_event(rec.event_type, &mut out);
        out.push(10u8);
        proof {
            let pre = records@.take(i as int);
            let post = records@.take(i as int + 1);
            assert(post.drop_last() =~= pre);
            assert(post.last() == records@[i as int]);
            assert(rows_bytes(post) == rows_bytes(pre) + row_bytes(records@[i as int]));
            assert(out@ =~= header_bytes() + rows_bytes(post));
        }
        i = i + 1;
    }
    proof {
        assert(records@.take(records@.len() as int) =~= records@);
    }
    out
}

} // verus!
