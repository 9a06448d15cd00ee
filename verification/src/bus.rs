//! Two-wire bus transaction model.
//!
//! The bus driver itself touches hardware registers, so it lives outside the
//! library. What the library verifies is the *plan* of a transaction: the
//! exact sequence of start, byte-write and stop steps that an operation asks
//! the driver to perform. Every operation that touches the bus frames its
//! payload the same way: a start condition, the target address byte with the
//! write bit, the payload bytes, and a stop condition.

use vstd::prelude::*;

verus! {

/// Fixed 7-bit address of the single display controller on the bus.
pub const DISPLAY_ADDR: u8 = 0x3C;

/// Address byte as it appears on the wire: the 7-bit address shifted left,
/// with the read/write bit indicating a write.
pub const DISPLAY_ADDR_WRITE: u8 = 0x78;

/// One step of a bus transaction, as handed to the (unverified) bus driver.
#[derive(PartialEq, Eq, Structural, Clone, Copy, Debug)]
pub enum BusStep {
    /// Issue a start condition.
    StartCond,
    /// Transmit one byte and expect an acknowledge.
    WriteByte(u8),
    /// Issue a stop condition.
    StopCond,
}

/// The step sequence of one complete transaction carrying `payload` to the
/// display: start, address-with-write-bit, payload bytes, stop.
pub open spec fn spec_frame(payload: Seq<u8>) -> Seq<BusStep> {
    seq![BusStep::StartCond, BusStep::WriteByte(DISPLAY_ADDR_WRITE)]
        + payload.map_values(|b: u8| BusStep::WriteByte(b)) + seq![BusStep::StopCond]
}

/// Every start condition in `plan` is immediately followed by the target
/// address byte with the write bit.
pub open spec fn addressed(plan: Seq<BusStep>) -> bool {
    forall|i: int|
        0 <= i < plan.len() && #[trigger] plan[i] == BusStep::StartCond ==> i + 1 < plan.len()
            && plan[i + 1] == BusStep::WriteByte(DISPLAY_ADDR_WRITE)
}

/// A plan made of whole transactions: every start condition is immediately
/// followed by the address byte, and the plan, if any, ends with a stop
/// condition.
pub open spec fn well_framed(plan: Seq<BusStep>) -> bool {
    addressed(plan) && (plan.len() > 0 ==> plan.last() == BusStep::StopCond)
}

/// A single frame addresses the display right after its start condition, and
/// contains no other start condition.
pub proof fn lemma_frame_addressed(payload: Seq<u8>)
    ensures
        spec_frame(payload)[0] == BusStep::StartCond,
        spec_frame(payload)[1] == BusStep::WriteByte(DISPLAY_ADDR_WRITE),
        addressed(spec_frame(payload)),
        well_framed(spec_frame(payload)),
{
    let f = spec_frame(payload);
    assert forall|i: int| 0 <= i < f.len() && #[trigger] f[i] == BusStep::StartCond implies i + 1 < f.len()
        && f[i + 1] == BusStep::WriteByte(DISPLAY_ADDR_WRITE) by {
        if i >= 2 && i < 2 + payload.len() {
            assert(f[i] == BusStep::WriteByte(payload[i - 2]));
        }
    }
}

/// Addressing is preserved when well-addressed plans that end in a stop
/// condition are run back to back.
pub proof fn lemma_addressed_concat(a: Seq<BusStep>, b: Seq<BusStep>)
    requires
        addressed(a),
        addressed(b),
        a.len() > 0 ==> a.last() == BusStep::StopCond,
    ensures
        addressed(a + b),
{
    let c = a + b;
    assert forall|i: int| 0 <= i < c.len() && #[trigger] c[i] == BusStep::StartCond implies i + 1 < c.len()
        && c[i + 1] == BusStep::WriteByte(DISPLAY_ADDR_WRITE) by {
        if i < a.len() {
            assert(c[i] == a[i]);
            assert(i + 1 < a.len());
            assert(c[i + 1] == a[i + 1]);
        } else {
            assert(c[i] == b[i - a.len()]);
            assert(c[i + 1] == b[i + 1 - a.len()]);
        }
    }
}

/// Whole-transaction plans stay whole when run back to back.
pub proof fn lemma_well_framed_concat(a: Seq<BusStep>, b: Seq<BusStep>)
    requires
        well_framed(a),
        well_framed(b),
    ensures
        well_framed(a + b),
{
    lemma_addressed_concat(a, b);
    if b.len() == 0 {
        assert(a + b =~= a);
    } else {
        assert((a + b).last() == b.last());
    }
}

/// Build the step sequence of one transaction around `payload`.
pub fn frame(payload: &Vec<u8>) -> (r: Vec<BusStep>)
    ensures
        r@ == spec_frame(payload@),
{
    let mut r: Vec<BusStep> = Vec::new();
    r.push(BusStep::StartCond);
    r.push(BusStep::WriteByte(DISPLAY_ADDR_WRITE));
    let mut i: usize = 0;
    while i < payload.len()
        invariant
            i <= payload.len(),
            r@ == seq![BusStep::StartCond, BusStep::WriteByte(DISPLAY_ADDR_WRITE)]
                + payload@.subrange(0, i as int).map_values(|b: u8| BusStep::WriteByte(b)),
        decreases payload.len() - i,
    {
        r.push(BusStep::WriteByte(payload[i]));
        proof {
            assert(payload@.subrange(0, i + 1).drop_last() =~= payload@.subrange(0, i as int));
            assert(payload@.subrange(0, i + 1).map_values(|b: u8| BusStep::WriteByte(b)) =~= payload@.subrange(
                0,
                i as int,
            ).map_values(|b: u8| BusStep::WriteByte(b)).push(BusStep::WriteByte(payload@[i as int])));
        }
        i = i + 1;
    }
    r.push(BusStep::StopCond);
    proof {
        assert(payload@.subrange(0, payload@.len() as int) =~= payload@);
        assert(r@ =~= spec_frame(payload@));
    }
    r
}

} // verus!
