use vstd::prelude::*;
use std::collections::VecDeque;
use crate::felt::Felt;

verus! {

/// An invoke transaction: a call from an account with its nonce and calldata.
#[derive(Clone, Debug, PartialEq, Eq)]
pub struct InvokeTx {
    pub sender_address: Felt,
    pub nonce: u64,
    pub calldata: Vec<Felt>,
}

/// A transaction that the executor can run.
#[derive(Clone, Debug, PartialEq, Eq)]
pub enum ExecutableTx {
    Invoke(InvokeTx),
}

/// A transaction together with the hash that identifies it.
#[derive(Clone, Debug, PartialEq, Eq)]
pub struct ExecutableTxWithHash {
    pub hash: Felt,
    pub transaction: ExecutableTx,
}

/// The transactions of a queue of batches, batch after batch, each batch in
/// its own order.
pub open spec fn flatten_batches(q: Seq<Vec<ExecutableTxWithHash>>) -> Seq<ExecutableTxWithHash>
    decreases q.len(),
{
    if q.len() == 0 {
        Seq::empty()
    } else {
        q[0]@ + flatten_batches(q.drop_first())
    }
}

/// Pushing a batch onto a queue appends its transactions, in their order,
/// after those already queued.
pub proof fn lemma_push_order(q: Seq<Vec<ExecutableTxWithHash>>, batch: Vec<ExecutableTxWithHash>)
    ensures
        flatten_batches(q.push(batch)) == flatten_batches(q) + batch@,
    decreases q.len(),
{
    if q.len() == 0 {
        let p = q.push(batch);
        assert(p.drop_first() =~= Seq::<Vec<ExecutableTxWithHash>>::empty());
        assert(flatten_batches(p.drop_first()) == Seq::<ExecutableTxWithHash>::empty());
        assert(p[0] == batch);
        assert(flatten_batches(p) =~= batch@);
        assert(flatten_batches(q) == Seq::<ExecutableTxWithHash>::empty());
    } else {
        lemma_push_order(q.drop_first(), batch);
        assert(q.push(batch).drop_first() =~= q.drop_first().push(batch));
        assert(flatten_batches(q.push(batch)) =~= flatten_batches(q) + batch@);
    }
}

/// Empties the queue and returns all its transactions in FIFO order.
pub fn drain_queue(queue: &mut VecDeque<Vec<ExecutableTxWithHash>>) -> (r: Vec<ExecutableTxWithHash>)
    ensures
        r@ == flatten_batches(old(queue)@),
        final(queue)@.len() == 0,
{
    let ghost orig = queue@;
    let mut out: Vec<ExecutableTxWithHash> = Vec::new();
    loop
        invariant
            out@ + flatten_batches(queue@) == flatten_batches(orig),
            orig == old(queue)@,
        decreases queue@.len(),
    {
        let ghost before = queue@;
        match queue.pop_front() {
            Some(mut batch) => {
                assert(queue@ =~= before.drop_first());
                let ghost prev = out@;
                out.append(&mut batch);
                assert(out@ + flatten_batches(queue@) =~= prev + flatten_batches(before));
            },
            None => {
                assert(flatten_batches(queue@) == Seq::<ExecutableTxWithHash>::empty());
                assert(out@ =~= out@ + flatten_batches(queue@));
                return out;
            },
        }
    }
}

} // verus!
