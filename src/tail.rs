//! The decisions of a tailing iterator over the operation log.
//!
//! A tailing cursor is pulled again and again. Each pull gives a raw record,
//! nothing (no new record yet), or a transport error. Only records that
//! decode become operations; everything else is passed over without a trace,
//! and the cursor is pulled again. A transport error is treated like an empty
//! pull: the loop retries rather than ending the sequence.

use crate::operation::{decode, Operation, OperationView};
use bson::Document;
use vstd::prelude::*;

verus! {

/// What one pull of a tailing cursor produced.
pub enum Pulled {
    /// A raw log record.
    Record(Document),
    /// No record is available yet.
    Nothing,
    /// The transport reported an error.
    TransportError,
}

/// What the tailing loop does after a pull.
pub enum Step {
    /// Hand this operation to the consumer and stop pulling for this request.
    Yield(Operation),
    /// Pull the cursor again within the same request.
    Pull,
}

/// The operation that a pull hands to the consumer, if any.
pub open spec fn yield_of(p: Pulled) -> Option<OperationView> {
    match p {
        Pulled::Record(d) => match decode(d) {
            Ok(op) => Some(op),
            Err(_) => None,
        },
        _ => None,
    }
}

/// The operations a consumer receives, in order, when the cursor hands out `log`.
pub open spec fn yielded(log: Seq<Pulled>) -> Seq<OperationView>
    decreases log.len(),
{
    if log.len() == 0 {
        Seq::empty()
    } else {
        let earlier = yielded(log.drop_last());
        match yield_of(log.last()) {
            Some(op) => earlier.push(op),
            None => earlier,
        }
    }
}

/// Decides what follows a pull: a record that decodes is yielded; a record
/// that does not, an empty pull and a transport error all lead to another pull.
pub fn step(pulled: &Pulled) -> (s: Step)
    ensures
        match yield_of(*pulled) {
            Some(op) => s is Yield && s->Yield_0@ == op,
            None => s is Pull,
        },
{
    match pulled {
        Pulled::Record(d) => match Operation::new(d) {
            Ok(op) => Step::Yield(op),
            Err(_) => Step::Pull,
        },
        Pulled::Nothing => Step::Pull,
        Pulled::TransportError => Step::Pull,
    }
}

/// The operations a tailing consumer receives while the cursor hands out
/// `log` in order: each pull goes through `step`, and every yielded
/// operation is kept.
pub fn replay(log: &Vec<Pulled>) -> (ops: Vec<Operation>)
    ensures
        ops@.map_values(|op: Operation| op@) == yielded(log@),
{
    let mut ops: Vec<Operation> = Vec::new();
    let mut i: usize = 0;
    while i < log.len()
        invariant
            i <= log@.len(),
            ops@.map_values(|op: Operation| op@) == yielded(log@.take(i as int)),
        decreases log@.len() - i,
    {
        assert(log@.take(i as int + 1).drop_last() == log@.take(i as int));
        match step(&log[i]) {
            Step::Yield(op) => {
                ops.push(op);
            },
            Step::Pull => {},
        }
        i = i + 1;
        assert(ops@.map_values(|op: Operation| op@) =~= yielded(log@.take(i as int)));
    }
    assert(log@.take(log@.len() as int) == log@);
    ops
}

/// Log order is kept: what a consumer receives from two stretches of log,
/// one after the other, is what it receives from each, in turn.
pub proof fn lemma_yielded_concat(before: Seq<Pulled>, after: Seq<Pulled>)
    ensures
        yielded(before + after) == yielded(before) + yielded(after),
    decreases after.len(),
{
    if after.len() == 0 {
        assert(before + after =~= before);
        assert(yielded(before) + yielded(after) =~= yielded(before));
    } else {
        lemma_yielded_concat(before, after.drop_last());
        assert((before + after).drop_last() =~= before + after.drop_last());
        assert((before + after).last() == after.last());
        match yield_of(after.last()) {
            Some(op) => {
                assert(yielded(before) + yielded(after) =~= (yielded(before) + yielded(
                    after.drop_last(),
                )).push(op));
            },
            None => {},
        }
    }
}

/// A pull that yields nothing (a record that does not decode, an empty
/// pull, a transport error) leaves no trace in what the consumer receives.
pub proof fn lemma_silent_pull_is_invisible(before: Seq<Pulled>, p: Pulled, after: Seq<Pulled>)
    requires
        yield_of(p) is None,
    ensures
        yielded(before + seq![p] + after) == yielded(before) + yielded(after),
{
    lemma_yielded_concat(before + seq![p], after);
    lemma_yielded_concat(before, seq![p]);
    assert(seq![p].drop_last() =~= Seq::<Pulled>::empty());
    assert(seq![p].last() == p);
    assert(yielded(Seq::<Pulled>::empty()) =~= Seq::<OperationView>::empty());
    assert(yielded(seq![p]) =~= Seq::<OperationView>::empty());
    assert(yielded(before) + yielded(seq![p]) =~= yielded(before));
}

/// A record that fails to decode, between two records that decode, is
/// invisible: the consumer receives the two operations, in log order, and
/// nothing else.
pub proof fn lemma_undecodable_record_is_skipped(first: Document, bad: Document, second: Document)
    requires
        decode(first) is Ok,
        decode(bad) is Err,
        decode(second) is Ok,
    ensures
        yielded(seq![Pulled::Record(first), Pulled::Record(bad), Pulled::Record(second)]) == seq![
            decode(first)->Ok_0,
            decode(second)->Ok_0,
        ],
{
    let log = seq![Pulled::Record(first), Pulled::Record(bad), Pulled::Record(second)];
    assert(log.drop_last() =~= seq![Pulled::Record(first), Pulled::Record(bad)]);
    assert(log.drop_last().drop_last() =~= seq![Pulled::Record(first)]);
    assert(log.drop_last().drop_last().drop_last() =~= Seq::<Pulled>::empty());
    let one = decode(first)->Ok_0;
    let two = decode(second)->Ok_0;
    assert(yielded(Seq::<Pulled>::empty()) =~= Seq::<OperationView>::empty());
    assert(yielded(log.drop_last().drop_last()) =~= seq![one]);
    assert(yielded(log.drop_last()) =~= seq![one]);
    assert(yielded(log) =~= seq![one, two]);
}

} // verus!
