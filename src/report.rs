use vstd::prelude::*;

use crate::color::Color;
use crate::layout::{encode_layout, layout_of};

verus! {

/// Length of one HID output report, report id included.
pub const REPORT_LEN: usize = 65;

/// Number of reports that carry one colour map.
pub const NUM_REPORTS: usize = 7;

/// Layout bytes carried by the first report, after the command preamble.
pub const HEAD_LEN: usize = 60;

/// Layout bytes carried by each later report.
pub const CHUNK_LEN: usize = 64;

/// The command preamble that opens the first report's payload.
pub open spec fn preamble(j: int) -> u8 {
    if j == 0 {
        0xA1
    } else if j == 1 {
        0x01
    } else if j == 2 {
        0x01
    } else {
        0xB4
    }
}

/// Byte `j` of report `k` for the layout buffer `layout`. Byte 0 is the
/// report id, always zero. The first report carries the preamble and the
/// first 60 layout bytes; report `k > 0` carries the `k`-th 64-byte chunk of
/// the rest.
pub open spec fn report_byte(layout: Seq<u8>, k: int, j: int) -> u8 {
    if j == 0 {
        0
    } else if k == 0 {
        if j <= 4 {
            preamble(j - 1)
        } else {
            layout[j - 5]
        }
    } else {
        layout[60 + 64 * (k - 1) + (j - 1)]
    }
}

pub open spec fn report_of(layout: Seq<u8>, k: int) -> Seq<u8> {
    Seq::new(65, |j: int| report_byte(layout, k, j))
}

/// The reports that carry `layout`, in the order they are sent.
pub open spec fn reports_of(layout: Seq<u8>) -> Seq<Seq<u8>> {
    Seq::new(7, |k: int| report_of(layout, k))
}

/// Splits a layout buffer into the reports that carry it, in sending order.
pub fn build_reports(layout: &[u8; 444]) -> (r: Vec<[u8; 65]>)
    ensures
        r@.len() == NUM_REPORTS,
        forall|k: int| 0 <= k < NUM_REPORTS ==> (#[trigger] r@[k])@ == report_of(layout@, k),
        forall|k: int| 0 <= k < NUM_REPORTS ==> (#[trigger] r@[k])@.len() == REPORT_LEN,
        r@[0]@.subrange(1, 5) == seq![0xA1u8, 0x01u8, 0x01u8, 0xB4u8],
{
    let mut reports: Vec<[u8; 65]> = Vec::new();
    let mut work: [u8; 65] = [0; 65];
    work[1] = 0xA1;
    work[2] = 0x01;
    work[3] = 0x01;
    work[4] = 0xB4;
    let mut j: usize = 0;
    while j < HEAD_LEN
        invariant
            j <= HEAD_LEN,
            work@[0] == 0,
            forall|t: int| 1 <= t < 5 ==> #[trigger] work@[t] == preamble(t - 1),
            forall|t: int| 5 <= t < 5 + j ==> #[trigger] work@[t] == layout@[t - 5],
        decreases HEAD_LEN - j,
    {
        work[5 + j] = layout[j];
        j = j + 1;
    }
    assert(work@ =~= report_of(layout@, 0));
    assert(work@.subrange(1, 5) =~= seq![0xA1u8, 0x01u8, 0x01u8, 0xB4u8]);
    reports.push(work);
    let mut k: usize = 0;
    while k < NUM_REPORTS - 1
        invariant
            k < NUM_REPORTS,
            work@[0] == 0,
            reports@.len() == k + 1,
            forall|m: int| 0 <= m <= k ==> (#[trigger] reports@[m])@ == report_of(layout@, m),
        decreases NUM_REPORTS - 1 - k,
    {
        let base: usize = HEAD_LEN + CHUNK_LEN * k;
        let mut j: usize = 0;
        while j < CHUNK_LEN
            invariant
                k < NUM_REPORTS - 1,
                base == 60 + 64 * k,
                j <= CHUNK_LEN,
                work@[0] == 0,
                forall|t: int| 1 <= t < 1 + j ==> #[trigger] work@[t] == layout@[base + t - 1],
            decreases CHUNK_LEN - j,
        {
            work[1 + j] = layout[base + j];
            j = j + 1;
        }
        assert(work@ =~= report_of(layout@, k + 1));
        reports.push(work);
        k = k + 1;
    }
    reports
}

/// Encodes a colour map into the reports that carry it to the device, in
/// sending order.
pub fn encode_led_map(map: &[Color; 144]) -> (r: Vec<[u8; 65]>)
    ensures
        r@.len() == NUM_REPORTS,
        forall|k: int|
            0 <= k < NUM_REPORTS ==> (#[trigger] r@[k])@ == report_of(layout_of(map@), k),
        forall|k: int| 0 <= k < NUM_REPORTS ==> (#[trigger] r@[k])@.len() == REPORT_LEN,
        r@[0]@.subrange(1, 5) == seq![0xA1u8, 0x01u8, 0x01u8, 0xB4u8],
{
    let layout = encode_layout(map);
    build_reports(&layout)
}

} // verus!
