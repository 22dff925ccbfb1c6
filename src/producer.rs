use vstd::prelude::*;
use std::collections::VecDeque;
use crate::backend::{
    appends_block, hashes_of, Backend, ExecutionError, ExecutionOutput, ExecutorFactory,
    GasPrices, MinedOutcome, SealingError,
};
use crate::transaction::{drain_queue, flatten_batches, ExecutableTxWithHash};

verus! {

/// Why a cycle, or a request for one, produced no block.
#[derive(Clone, Debug, PartialEq, Eq)]
pub enum BlockProductionError {
    /// The executor rejected the batch; the batch is dropped.
    Execution(ExecutionError),
    /// The block could not be committed; storage is unchanged.
    Sealing(SealingError),
    /// A forced cycle was asked for while another cycle is in flight.
    CycleInFlight,
}

/// What one poll of the producer reports.
#[derive(Clone, Debug, PartialEq, Eq)]
pub enum ProducerPoll {
    /// No cycle finished on this poll.
    Pending,
    /// A cycle committed a block.
    Mined(MinedOutcome),
    /// A cycle failed.
    Failed(BlockProductionError),
}

/// When a timer armed at `now` for `interval` milliseconds fires.
pub open spec fn deadline(now: u64, interval: u64) -> u64 {
    if now + interval <= u64::MAX {
        (now + interval) as u64
    } else {
        u64::MAX
    }
}

/// The block producer. Batches wait in `queued`; in interval mode a timer,
/// held as the instant (in milliseconds) at which it fires, is armed once the
/// queue is seen non-empty, and its firing starts a cycle. When a cycle
/// ends, the timer is cleared, or armed afresh if batches arrived meanwhile. A cycle drains the
/// whole queue, executes it (`ongoing_execution`), then commits the result
/// (`ongoing_mining`). Without an interval, blocks are only made on demand by
/// `force_mine`.
pub struct IntervalBlockProducer {
    pub interval: Option<u64>,
    pub queued: VecDeque<Vec<ExecutableTxWithHash>>,
    pub timer: Option<u64>,
    pub ongoing_execution: Option<Vec<ExecutableTxWithHash>>,
    pub ongoing_mining: Option<ExecutionOutput>,
}

fn arm_deadline(now: u64, interval: u64) -> (r: u64)
    ensures
        r == deadline(now, interval),
{
    if now <= u64::MAX - interval {
        now + interval
    } else {
        u64::MAX
    }
}

impl IntervalBlockProducer {
    /// At most one phase of one cycle is in flight, and a timer exists only in
    /// interval mode, while batches wait or their cycle runs.
    pub open spec fn wf(&self) -> bool {
        &&& !(self.ongoing_execution is Some && self.ongoing_mining is Some)
        &&& self.timer is Some ==> self.interval is Some
        &&& self.timer is Some ==> self.queued@.len() > 0 || !self.is_waiting()
        &&& self.ongoing_mining matches Some(out) ==> out.outcomes@.len()
            == out.transactions@.len()
    }

    /// No execution and no sealing is in flight.
    pub open spec fn is_waiting(&self) -> bool {
        self.ongoing_execution is None && self.ongoing_mining is None
    }

    /// A poll in WAIT at `now` starts a cycle: the queue is non-empty and the
    /// armed timer has fired.
    pub open spec fn fires(&self, now: u64) -> bool {
        &&& self.queued@.len() > 0
        &&& self.interval is Some
        &&& self.timer matches Some(d) && d <= now
    }

    /// The transactions that the current or next cycle puts in its block.
    pub open spec fn cycle_txs(&self) -> Seq<ExecutableTxWithHash> {
        match self.ongoing_mining {
            Some(out) => out.transactions@,
            None => match self.ongoing_execution {
                Some(txs) => txs@,
                None => flatten_batches(self.queued@),
            },
        }
    }

    /// The timer a finished cycle leaves behind at `now`: armed afresh in
    /// interval mode while batches still wait, else cleared.
    pub open spec fn next_timer(&self, now: u64) -> Option<u64> {
        if self.queued@.len() > 0 && self.interval is Some {
            Some(deadline(now, self.interval->Some_0))
        } else {
            None
        }
    }

    /// The gas prices that the current or next cycle's block records, given
    /// the oracle's prices.
    pub open spec fn cycle_prices(&self, oracle: GasPrices) -> GasPrices {
        match self.ongoing_mining {
            Some(out) => out.gas_prices,
            None => oracle,
        }
    }

    /// `interval` of `None` is instant mode; `Some(ms)` mines on a timer of
    /// `ms` milliseconds.
    pub fn new(interval: Option<u64>) -> (r: IntervalBlockProducer)
        ensures
            r.wf(),
            r.interval == interval,
            r.queued@.len() == 0,
            r.timer is None,
            r.ongoing_execution is None,
            r.ongoing_mining is None,
    {
        IntervalBlockProducer {
            interval,
            queued: VecDeque::new(),
            timer: None,
            ongoing_execution: None,
            ongoing_mining: None,
        }
    }

    /// Appends a batch at the tail of the queue.
    pub fn queue_transactions(&mut self, transactions: Vec<ExecutableTxWithHash>)
        requires
            old(self).wf(),
        ensures
            final(self).wf(),
            final(self).queued@ == old(self).queued@.push(transactions),
            final(self).interval == old(self).interval,
            final(self).timer == old(self).timer,
            final(self).ongoing_execution == old(self).ongoing_execution,
            final(self).ongoing_mining == old(self).ongoing_mining,
    {
        self.queued.push_back(transactions);
    }

    /// Ends a cycle: the timer is cleared, and armed again at once if
    /// batches arrived while the cycle ran.
    fn rearm_timer(&mut self, now: u64)
        ensures
            final(self).timer == old(self).next_timer(now),
            final(self).interval == old(self).interval,
            final(self).queued@ == old(self).queued@,
            final(self).ongoing_execution == old(self).ongoing_execution,
            final(self).ongoing_mining == old(self).ongoing_mining,
    {
        self.timer = None;
        if self.queued.len() > 0 {
            if let Some(interval) = self.interval {
                self.timer = Some(arm_deadline(now, interval));
            }
        }
    }

    fn execute_batch<EF: ExecutorFactory>(
        backend: &Backend<EF>,
        transactions: Vec<ExecutableTxWithHash>,
    ) -> (r: Result<ExecutionOutput, ExecutionError>)
        ensures
            r matches Ok(out) ==> {
                &&& out.transactions@ == transactions@
                &&& out.outcomes@.len() == transactions@.len()
                &&& out.gas_prices == backend.gas_oracle.prices
            },
            backend.executor_factory.accepts_all() ==> r is Ok,
    {
        let gas_prices = backend.gas_oracle.current_prices();
        backend.executor_factory.execute(&backend.blockchain, transactions, gas_prices)
    }

    /// Advances the state machine by one transition at time `now`
    /// (milliseconds). Only the transition out of MINE writes to storage.
    pub fn step<EF: ExecutorFactory>(&mut self, backend: &mut Backend<EF>, now: u64) -> (r:
        ProducerPoll)
        requires
            old(self).wf(),
            old(backend).wf(),
        ensures
            final(self).wf(),
            final(backend).wf(),
            final(self).interval == old(self).interval,
            final(backend).gas_oracle == old(backend).gas_oracle,
            final(backend).executor_factory == old(backend).executor_factory,
            old(self).ongoing_mining is None ==> final(backend).blockchain == old(
                backend,
            ).blockchain,
            !(r is Mined) ==> final(backend).blockchain.blocks@ == old(backend).blockchain.blocks@,
            old(backend).executor_factory.accepts_all() ==> !(r matches ProducerPoll::Failed(
                BlockProductionError::Execution(_),
            )),
            // MINE: commit, then back to WAIT; the timer is re-armed only if
            // batches wait.
            old(self).ongoing_mining matches Some(out) ==> {
                let n = old(backend).blockchain.blocks@.len();
                &&& final(self).is_waiting()
                &&& final(self).timer == old(self).next_timer(now)
                &&& final(self).queued@ == old(self).queued@
                &&& r is Mined <==> n > 0 && n - 1 < u64::MAX
                &&& r matches ProducerPoll::Mined(o) ==> {
                    &&& appends_block(
                        old(backend).blockchain.blocks@,
                        final(backend).blockchain.blocks@,
                        out.transactions@,
                        out.gas_prices,
                    )
                    &&& o.block_number == n
                    &&& o.tx_hashes@ == hashes_of(out.transactions@)
                }
                &&& r matches ProducerPoll::Failed(e) ==> e == BlockProductionError::Sealing(
                    if n == 0 {
                        SealingError::MissingGenesis
                    } else {
                        SealingError::BlockNumberOverflow
                    },
                )
                &&& !(r is Pending)
            },
            // EXECUTE: on success go on to MINE, on failure back to WAIT.
            (old(self).ongoing_mining is None && old(self).ongoing_execution is Some) ==> {
                let txs = old(self).ongoing_execution->Some_0;
                &&& final(self).queued@ == old(self).queued@
                &&& !(r is Mined)
                &&& r is Pending ==> {
                    &&& final(self).ongoing_execution is None
                    &&& final(self).timer == old(self).timer
                    &&& final(self).ongoing_mining matches Some(out) && out.transactions@ == txs@
                        && out.gas_prices == old(backend).gas_oracle.prices
                }
                &&& r matches ProducerPoll::Failed(e) ==> {
                    &&& e is Execution
                    &&& final(self).is_waiting()
                    &&& final(self).timer == old(self).next_timer(now)
                }
            },
            // WAIT: arm the timer, or start a cycle once it has fired.
            old(self).is_waiting() ==> {
                &&& r is Pending
                &&& final(self).ongoing_mining is None
                &&& if old(self).fires(now) {
                    &&& final(self).ongoing_execution matches Some(txs) && txs@ == flatten_batches(
                        old(self).queued@,
                    )
                    &&& final(self).queued@.len() == 0
                    &&& final(self).timer == old(self).timer
                } else if old(self).queued@.len() > 0 && old(self).timer is None
                    && old(self).interval is Some {
                    &&& final(self).timer == Some(deadline(now, old(self).interval->Some_0))
                    &&& final(self).queued@ == old(self).queued@
                    &&& final(self).ongoing_execution is None
                } else {
                    *final(self) == *old(self)
                }
            },
    {
        if let Some(output) = self.ongoing_mining.take() {
            self.rearm_timer(now);
            return match backend.blockchain.commit(output) {
                Ok(outcome) => ProducerPoll::Mined(outcome),
                Err(e) => ProducerPoll::Failed(BlockProductionError::Sealing(e)),
            };
        }
        if let Some(transactions) = self.ongoing_execution.take() {
            return match Self::execute_batch(backend, transactions) {
                Ok(output) => {
                    self.ongoing_mining = Some(output);
                    ProducerPoll::Pending
                },
                Err(e) => {
                    self.rearm_timer(now);
                    ProducerPoll::Failed(BlockProductionError::Execution(e))
                },
            };
        }
        if self.queued.len() == 0 {
            return ProducerPoll::Pending;
        }
        if let Some(interval) = self.interval {
            match self.timer {
                None => {
                    self.timer = Some(arm_deadline(now, interval));
                },
                Some(d) => {
                    if d <= now {
                        self.ongoing_execution = Some(drain_queue(&mut self.queued));
                    }
                },
            }
        }
        ProducerPoll::Pending
    }

    /// Polls until a cycle finishes, or until the producer waits with no
    /// cycle to run. Execution and sealing complete within the poll, so a
    /// cycle that starts here also finishes here.
    pub fn poll<EF: ExecutorFactory>(&mut self, backend: &mut Backend<EF>, now: u64) -> (r: Option<
        Result<MinedOutcome, BlockProductionError>,
    >)
        requires
            old(self).wf(),
            old(backend).wf(),
        ensures
            final(self).wf(),
            final(backend).wf(),
            final(self).is_waiting(),
            final(self).interval == old(self).interval,
            final(backend).gas_oracle == old(backend).gas_oracle,
            final(backend).executor_factory == old(backend).executor_factory,
            r is Some <==> !old(self).is_waiting() || old(self).fires(now),
            !(r matches Some(Ok(_))) ==> final(backend).blockchain.blocks@ == old(
                backend,
            ).blockchain.blocks@,
            r matches Some(Ok(o)) ==> {
                &&& appends_block(
                    old(backend).blockchain.blocks@,
                    final(backend).blockchain.blocks@,
                    old(self).cycle_txs(),
                    old(self).cycle_prices(old(backend).gas_oracle.prices),
                )
                &&& o.block_number == old(backend).blockchain.blocks@.len()
                &&& o.tx_hashes@ == hashes_of(old(self).cycle_txs())
            },
            r is Some ==> final(self).timer == final(self).next_timer(now),
            old(backend).executor_factory.accepts_all() ==> !(r matches Some(
                Err(BlockProductionError::Execution(_)),
            )),
            old(self).ongoing_mining is Some ==> !(r matches Some(
                Err(BlockProductionError::Execution(_)),
            )),
            // Before its deadline an armed timer is left alone and nothing is
            // produced.
            (old(self).is_waiting() && old(self).timer is Some && now < old(self).timer->Some_0)
                ==> r is None && *final(self) == *old(self),
            r is Some && !(r matches Some(Err(BlockProductionError::Execution(_)))) ==> {
                let n = old(backend).blockchain.blocks@.len();
                r matches Some(Ok(_)) <==> n > 0 && n - 1 < u64::MAX
            },
            r is Some && !old(self).is_waiting() ==> final(self).queued@ == old(self).queued@,
            r is Some && old(self).is_waiting() ==> final(self).queued@.len() == 0,
            r is None ==> {
                &&& final(backend).blockchain == old(backend).blockchain
                &&& if old(self).queued@.len() > 0 && old(self).timer is None
                    && old(self).interval is Some {
                    &&& final(self).timer == Some(deadline(now, old(self).interval->Some_0))
                    &&& final(self).queued@ == old(self).queued@
                } else {
                    *final(self) == *old(self)
                }
            },
    {
        match self.step(backend, now) {
            ProducerPoll::Mined(o) => return Some(Ok(o)),
            ProducerPoll::Failed(e) => return Some(Err(e)),
            ProducerPoll::Pending => {},
        }
        if self.ongoing_execution.is_none() && self.ongoing_mining.is_none() {
            return None;
        }
        match self.step(backend, now) {
            ProducerPoll::Mined(o) => return Some(Ok(o)),
            ProducerPoll::Failed(e) => return Some(Err(e)),
            ProducerPoll::Pending => {},
        }
        match self.step(backend, now) {
            ProducerPoll::Mined(o) => Some(Ok(o)),
            ProducerPoll::Failed(e) => Some(Err(e)),
            ProducerPoll::Pending => None,
        }
    }

    /// Runs one whole cycle now on whatever is queued, possibly nothing,
    /// whatever the mode and the timer. Refused while a cycle is in flight.
    pub fn force_mine<EF: ExecutorFactory>(&mut self, backend: &mut Backend<EF>) -> (r: Result<
        MinedOutcome,
        BlockProductionError,
    >)
        requires
            old(self).wf(),
            old(backend).wf(),
        ensures
            final(self).wf(),
            final(backend).wf(),
            final(self).interval == old(self).interval,
            final(backend).gas_oracle == old(backend).gas_oracle,
            final(backend).executor_factory == old(backend).executor_factory,
            r is Err ==> final(backend).blockchain.blocks@ == old(backend).blockchain.blocks@,
            old(backend).executor_factory.accepts_all() ==> !(r matches Err(
                BlockProductionError::Execution(_),
            )),
            !old(self).is_waiting() ==> {
                &&& r == Err::<MinedOutcome, _>(BlockProductionError::CycleInFlight)
                &&& *final(self) == *old(self)
            },
            old(self).is_waiting() ==> {
                let n = old(backend).blockchain.blocks@.len();
                let txs = flatten_batches(old(self).queued@);
                &&& final(self).is_waiting()
                &&& final(self).timer is None
                &&& final(self).queued@.len() == 0
                &&& r matches Ok(o) ==> {
                    &&& appends_block(
                        old(backend).blockchain.blocks@,
                        final(backend).blockchain.blocks@,
                        txs,
                        old(backend).gas_oracle.prices,
                    )
                    &&& o.block_number == n
                    &&& o.tx_hashes@ == hashes_of(txs)
                }
                &&& !(r matches Err(BlockProductionError::Execution(_))) ==> {
                    &&& r is Ok <==> n > 0 && n - 1 < u64::MAX
                    &&& r matches Err(e) ==> e == BlockProductionError::Sealing(
                        if n == 0 {
                            SealingError::MissingGenesis
                        } else {
                            SealingError::BlockNumberOverflow
                        },
                    )
                }
            },
    {
        if self.ongoing_execution.is_some() || self.ongoing_mining.is_some() {
            return Err(BlockProductionError::CycleInFlight);
        }
        let transactions = drain_queue(&mut self.queued);
        self.timer = None;
        let output = match Self::execute_batch(backend, transactions) {
            Ok(output) => output,
            Err(e) => return Err(BlockProductionError::Execution(e)),
        };
        match backend.blockchain.commit(output) {
            Ok(outcome) => Ok(outcome),
            Err(e) => Err(BlockProductionError::Sealing(e)),
        }
    }
}

} // verus!
