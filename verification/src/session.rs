//! Rules a decoding session applies to its inputs before it hands them to the
//! decode engine: the four filter ranges, the coverage bitmap, the framing of a
//! trace buffer, and the alignment of the addresses the engine asks pages for.

use vstd::prelude::*;

verus! {

/// Sentinel byte that ends every trace buffer.
pub const PT_TRACE_END: u8 = 0x55;

/// A trace buffer is framed: it is not empty and ends with the sentinel.
pub open spec fn framed(trace: Seq<u8>) -> bool {
    trace.len() > 0 && trace[trace.len() - 1] == PT_TRACE_END
}

/// A trace buffer with the sentinel at its end: the buffer itself if it is
/// framed, else the buffer with the sentinel appended.
pub open spec fn with_trace_end(trace: Seq<u8>) -> Seq<u8> {
    if framed(trace) {
        trace
    } else {
        trace.push(PT_TRACE_END)
    }
}

/// The four filter ranges as rows of start and end, in order.
pub fn filter_rows(filter: &[(u64, u64); 4]) -> (rows: Vec<[u64; 2]>)
    ensures
        rows@.len() == 4,
        forall|i: int|
            0 <= i < 4 ==> (#[trigger] rows@[i])@ == seq![filter@[i].0, filter@[i].1],
{
    let mut rows: Vec<[u64; 2]> = Vec::with_capacity(4);
    let mut i: usize = 0;
    while i < 4
        invariant
            i <= 4,
            rows@.len() == i,
            forall|k: int| 0 <= k < i ==> (#[trigger] rows@[k])@ == seq![filter@[k].0, filter@[k].1],
        decreases 4 - i,
    {
        let pair: (u64, u64) = filter[i];
        let row: [u64; 2] = [pair.0, pair.1];
        assert(row@ =~= seq![pair.0, pair.1]);
        rows.push(row);
        i = i + 1;
    }
    rows
}

/// A coverage bitmap of `bitmap_size` zero bytes.
pub fn zeroed_bitmap(bitmap_size: usize) -> (bitmap: Vec<u8>)
    ensures
        bitmap@.len() == bitmap_size,
        forall|i: int| 0 <= i < bitmap_size ==> bitmap@[i] == 0u8,
{
    let mut bitmap: Vec<u8> = Vec::with_capacity(bitmap_size);
    let mut i: usize = 0;
    while i < bitmap_size
        invariant
            i <= bitmap_size,
            bitmap@.len() == i,
            forall|k: int| 0 <= k < i ==> bitmap@[k] == 0u8,
        decreases bitmap_size - i,
    {
        bitmap.push(0u8);
        i = i + 1;
    }
    bitmap
}

/// Whether a trace buffer is framed.
pub fn is_framed(trace: &[u8]) -> (r: bool)
    ensures
        r == framed(trace@),
{
    trace.len() > 0 && trace[trace.len() - 1] == PT_TRACE_END
}

/// Frames a trace buffer: appends the sentinel unless the buffer already ends
/// with it.
pub fn append_trace_end(trace: &mut Vec<u8>)
    ensures
        framed(final(trace)@),
        final(trace)@ == with_trace_end(old(trace)@),
{
    if !is_framed(trace.as_slice()) {
        trace.push(PT_TRACE_END);
    }
}

/// Length of a framed trace as the engine is told it: the sentinel stays in
/// the buffer and is not counted.
pub fn payload_len(trace: &[u8]) -> (n: usize)
    requires
        framed(trace@),
    ensures
        n == trace@.len() - 1,
{
    trace.len() - 1
}

/// Whether an address is the start of a page.
pub fn is_page_aligned(addr: u64) -> (r: bool)
    ensures
        r == (addr % 4096 == 0),
{
    addr % 4096 == 0
}

/// A buffer that is framed stays as it is; any other gains the sentinel. Framing
/// is idempotent, and a buffer without the sentinel is framed to the very
/// buffer that holds the sentinel already.
pub proof fn lemma_framing(trace: Seq<u8>)
    ensures
        framed(with_trace_end(trace)),
        with_trace_end(with_trace_end(trace)) == with_trace_end(trace),
        with_trace_end(trace.push(PT_TRACE_END)) == trace.push(PT_TRACE_END),
        !framed(trace) ==> with_trace_end(trace) == with_trace_end(trace.push(PT_TRACE_END)),
{
}

} // verus!
