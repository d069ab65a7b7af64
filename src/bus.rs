//! The lines the driver drives: a full-duplex byte exchange framed by
//! chip-select, and chip-enable.
use vstd::prelude::*;

use crate::command::{read_frame, write_frame};

verus! {

/// What the driver did on the lines, in order.
pub enum BusOp {
    /// One transaction: these bytes were shifted out while chip-select was low.
    Exchange(Seq<u8>),
    /// Chip-enable was driven high (`true`) or low (`false`).
    ChipEnable(bool),
}

/// One entry of the driver's record of the bus: an operation, the bytes that
/// came back during it (none for chip-enable or a failed exchange), and
/// whether the bus reported the exchange as failed.
pub struct Event {
    /// What was driven.
    pub op: BusOp,
    /// What was clocked back.
    pub reply: Seq<u8>,
    /// The bus reported a failure of this exchange.
    pub failed: bool,
    /// Chip-select was low (the chip selected) while the bytes were exchanged.
    pub framed: bool,
}

/// No event after the first `before.len()` of `after` is a failed exchange.
pub open spec fn no_failure(before: Seq<Event>, after: Seq<Event>) -> bool {
    forall|i: int| before.len() <= i < after.len() ==> !(#[trigger] after[i]).failed
}

/// None of `ops` is a transaction: nothing in them can fail.
pub open spec fn no_exchange(ops: Seq<BusOp>) -> bool {
    forall|i: int| 0 <= i < ops.len() ==> !(#[trigger] ops[i] is Exchange)
}

/// A list without transactions is made of parts without transactions.
pub proof fn lemma_no_exchange_split(a: Seq<BusOp>, b: Seq<BusOp>)
    requires
        no_exchange(a + b),
    ensures
        no_exchange(a),
        no_exchange(b),
{
    assert forall|i: int| 0 <= i < a.len() implies !(#[trigger] a[i] is Exchange) by {
        assert((a + b)[i] == a[i]);
    }
    assert forall|i: int| 0 <= i < b.len() implies !(#[trigger] b[i] is Exchange) by {
        assert((a + b)[a.len() + i] == b[i]);
    }
}

/// The transaction that writes `data` into the register at `addr`.
pub open spec fn write_op(addr: u8, data: Seq<u8>) -> BusOp {
    BusOp::Exchange(write_frame(addr, data))
}

/// The transaction that reads `width` bytes of the register at `addr`.
pub open spec fn read_op(addr: u8, width: nat) -> BusOp {
    BusOp::Exchange(read_frame(addr, width))
}

/// `after` is `before` followed by one event for each of `ops`, in order.
pub open spec fn appended(before: Seq<Event>, after: Seq<Event>, ops: Seq<BusOp>) -> bool {
    &&& after.len() == before.len() + ops.len()
    &&& after.subrange(0, before.len() as int) == before
    &&& forall|i: int| 0 <= i < ops.len() ==> #[trigger] after[before.len() + i].op == ops[i]
}

/// Appending nothing leaves the record as it was.
pub proof fn lemma_appended_nothing(before: Seq<Event>, after: Seq<Event>)
    requires
        appended(before, after, seq![]),
    ensures
        after == before,
{
    assert(after =~= after.subrange(0, before.len() as int));
}

/// A record is its own extension by nothing.
pub proof fn lemma_appended_refl(events: Seq<Event>)
    ensures
        appended(events, events, seq![]),
        no_failure(events, events),
{
    assert(events.subrange(0, events.len() as int) =~= events);
}

/// Pushing one event appends its operation.
pub proof fn lemma_appended_push(before: Seq<Event>, e: Event)
    ensures
        appended(before, before.push(e), seq![e.op]),
        !e.failed ==> no_failure(before, before.push(e)),
{
    assert(before.push(e).subrange(0, before.len() as int) =~= before);
}

/// Two appends in a row are one append of both lists.
pub proof fn lemma_appended_trans(
    a: Seq<Event>,
    b: Seq<Event>,
    c: Seq<Event>,
    x: Seq<BusOp>,
    y: Seq<BusOp>,
)
    requires
        appended(a, b, x),
        appended(b, c, y),
    ensures
        appended(a, c, x + y),
        no_failure(a, b) && no_failure(b, c) ==> no_failure(a, c),
{
    assert(c.subrange(0, a.len() as int) =~= b.subrange(0, a.len() as int));
    if no_failure(a, b) && no_failure(b, c) {
        assert forall|i: int| a.len() <= i < c.len() implies !(#[trigger] c[i]).failed by {
            if i < b.len() {
                assert(c[i] == c.subrange(0, b.len() as int)[i]);
                assert(!b[i].failed);
            }
        }
    }
    assert forall|i: int| 0 <= i < (x + y).len() implies #[trigger] c[a.len() + i].op == (x
        + y)[i] by {
        if i < x.len() {
            assert(c[a.len() + i] == c.subrange(0, b.len() as int)[a.len() + i]);
            assert(b[a.len() + i].op == x[i]);
        } else {
            let j = i - x.len();
            assert(c[b.len() + j].op == y[j]);
        }
    }
}

/// The bus and control lines that the driver owns.
///
/// `transfer` shifts `sent` out while shifting the same number of bytes in,
/// and returns what came in. `set_ce` and `set_csn` drive chip-enable and
/// chip-select (`true` is high).
pub trait Bus {
    /// Failure of a byte exchange.
    type Error;

    /// Exchanges bytes with the chip.
    fn transfer(&mut self, sent: &[u8]) -> Result<Vec<u8>, Self::Error>;

    /// Drives chip-enable.
    fn set_ce(&mut self, high: bool);

    /// Drives chip-select (active low).
    fn set_csn(&mut self, high: bool);
}

} // verus!
