use vstd::prelude::*;
use crate::felt::Felt;
use crate::transaction::ExecutableTxWithHash;

verus! {

/// The L1 gas prices that a block is executed under.
#[derive(Clone, Copy, Debug, PartialEq, Eq, Structural)]
pub struct GasPrices {
    pub l1_gas_price: u128,
    pub l1_data_gas_price: u128,
}

/// Supplies the gas prices in force when a batch is executed.
#[derive(Clone, Copy, Debug, PartialEq, Eq, Structural)]
pub struct GasOracle {
    pub prices: GasPrices,
}

impl GasOracle {
    /// An oracle that always quotes the same prices.
    pub fn fixed(l1_gas_price: u128, l1_data_gas_price: u128) -> (r: GasOracle)
        ensures
            r.prices == (GasPrices { l1_gas_price, l1_data_gas_price }),
    {
        GasOracle { prices: GasPrices { l1_gas_price, l1_data_gas_price } }
    }

    pub fn current_prices(&self) -> (r: GasPrices)
        ensures
            r == self.prices,
    {
        self.prices
    }
}

/// What became of one transaction of an executed batch. A revert is a normal
/// outcome of a transaction, not a failure of the batch.
#[derive(Clone, Debug, PartialEq, Eq)]
pub enum TxOutcome {
    Accepted,
    Reverted { reason: String },
    Rejected { reason: String },
}

/// A committed block: each transaction stands beside its outcome.
#[derive(Debug)]
pub struct Block {
    pub number: u64,
    pub gas_prices: GasPrices,
    pub transactions: Vec<ExecutableTxWithHash>,
    pub outcomes: Vec<TxOutcome>,
}

/// What the executor made of a batch: the transactions it ran, in order, the
/// outcome of each, and the prices it ran them under.
#[derive(Debug)]
pub struct ExecutionOutput {
    pub transactions: Vec<ExecutableTxWithHash>,
    pub outcomes: Vec<TxOutcome>,
    pub gas_prices: GasPrices,
}

/// A batch could not be executed against the current state.
#[derive(Clone, Debug, PartialEq, Eq)]
pub enum ExecutionError {
    BatchRejected { reason: String },
}

/// Runs batches of transactions for the block producer.
pub trait ExecutorFactory {
    /// This executor runs every batch it is given. Nothing is assumed of an
    /// executor that does not say so.
    open spec fn accepts_all(&self) -> bool {
        false
    }

    /// Executes `transactions`, in order, against `state` under `gas_prices`.
    fn execute(
        &self,
        state: &Blockchain,
        transactions: Vec<ExecutableTxWithHash>,
        gas_prices: GasPrices,
    ) -> (r: Result<ExecutionOutput, ExecutionError>)
        ensures
            r matches Ok(out) ==> {
                &&& out.transactions@ == transactions@
                &&& out.outcomes@.len() == transactions@.len()
                &&& out.gas_prices == gas_prices
            },
            self.accepts_all() ==> r is Ok,
    ;
}

/// An executor that accepts every transaction and changes no state.
#[derive(Clone, Copy, Debug, PartialEq, Eq, Structural)]
pub struct NoopExecutorFactory {}

impl NoopExecutorFactory {
    pub fn new() -> (r: NoopExecutorFactory) {
        NoopExecutorFactory {}
    }
}

impl ExecutorFactory for NoopExecutorFactory {
    open spec fn accepts_all(&self) -> bool {
        true
    }

    fn execute(
        &self,
        _state: &Blockchain,
        transactions: Vec<ExecutableTxWithHash>,
        gas_prices: GasPrices,
    ) -> (r: Result<ExecutionOutput, ExecutionError>)
        ensures
            r is Ok,
            r matches Ok(out) ==> forall|j: int|
                0 <= j < out.outcomes@.len() ==> out.outcomes@[j] == TxOutcome::Accepted,
    {
        let mut outcomes: Vec<TxOutcome> = Vec::new();
        let mut i: usize = 0;
        while i < transactions.len()
            invariant
                i <= transactions@.len(),
                outcomes@.len() == i,
                forall|j: int| 0 <= j < i ==> outcomes@[j] == TxOutcome::Accepted,
            decreases transactions@.len() - i,
        {
            outcomes.push(TxOutcome::Accepted);
            i = i + 1;
        }
        Ok(ExecutionOutput { transactions, outcomes, gas_prices })
    }
}

/// Genesis could not be written.
#[derive(Clone, Copy, Debug, PartialEq, Eq, Structural)]
pub enum GenesisError {
    AlreadyInitialized,
}

/// A block could not be committed; storage is left as it was.
#[derive(Clone, Copy, Debug, PartialEq, Eq, Structural)]
pub enum SealingError {
    /// No genesis block is stored yet.
    MissingGenesis,
    /// The chain head already carries the largest block number.
    BlockNumberOverflow,
}

/// The result of a successful cycle: the new block's number and the hashes of
/// the transactions it holds, in order.
#[derive(Clone, Debug, PartialEq, Eq)]
pub struct MinedOutcome {
    pub block_number: u64,
    pub tx_hashes: Vec<Felt>,
}

pub open spec fn hashes_of(txs: Seq<ExecutableTxWithHash>) -> Seq<Felt> {
    txs.map_values(|t: ExecutableTxWithHash| t.hash)
}

/// `after` is `before` with one more block, numbered next, holding `txs`
/// executed under `prices`.
pub open spec fn appends_block(
    before: Seq<Block>,
    after: Seq<Block>,
    txs: Seq<ExecutableTxWithHash>,
    prices: GasPrices,
) -> bool {
    &&& commits_one(before, after)
    &&& after.last().transactions@ == txs
    &&& after.last().gas_prices == prices
    &&& after.last().outcomes@.len() == txs.len()
}

/// In-memory block storage. Block `i` is stored at index `i`; block 0 is
/// genesis.
#[derive(Debug)]
pub struct Blockchain {
    pub blocks: Vec<Block>,
}

impl Blockchain {
    pub open spec fn wf(&self) -> bool {
        forall|i: int| 0 <= i < self.blocks@.len() ==> self.blocks@[i].number == i
    }

    /// The number of the chain head, if genesis is stored.
    pub open spec fn head(&self) -> Option<nat> {
        if self.blocks@.len() == 0 {
            None
        } else {
            Some((self.blocks@.len() - 1) as nat)
        }
    }

    /// Storage that lives only as long as the value.
    pub fn new_ephemeral() -> (r: Blockchain)
        ensures
            r.wf(),
            r.blocks@.len() == 0,
    {
        Blockchain { blocks: Vec::new() }
    }

    pub fn latest_number(&self) -> (r: Option<u64>)
        requires
            self.wf(),
        ensures
            r matches Some(n) ==> self.head() == Some(n as nat),
            r is None <==> self.head() is None,
    {
        let n = self.blocks.len();
        if n == 0 {
            None
        } else {
            Some(self.blocks[n - 1].number)
        }
    }

    /// Stores the executed batch as the next block, in one step.
    pub fn commit(&mut self, output: ExecutionOutput) -> (r: Result<MinedOutcome, SealingError>)
        requires
            old(self).wf(),
            output.outcomes@.len() == output.transactions@.len(),
        ensures
            final(self).wf(),
            r is Ok <==> old(self).blocks@.len() > 0 && old(self).blocks@.len() - 1 < u64::MAX,
            r matches Ok(o) ==> {
                &&& appends_block(
                    old(self).blocks@,
                    final(self).blocks@,
                    output.transactions@,
                    output.gas_prices,
                )
                &&& o.block_number == old(self).blocks@.len()
                &&& o.tx_hashes@ == hashes_of(output.transactions@)
            },
            r matches Err(e) ==> final(self).blocks@ == old(self).blocks@ && e == (if old(
                self,
            ).blocks@.len() == 0 {
                SealingError::MissingGenesis
            } else {
                SealingError::BlockNumberOverflow
            }),
    {
        let n = self.blocks.len();
        if n == 0 {
            return Err(SealingError::MissingGenesis);
        }
        let latest = self.blocks[n - 1].number;
        if latest == u64::MAX {
            return Err(SealingError::BlockNumberOverflow);
        }
        let number = latest + 1;
        let tx_hashes = collect_hashes(&output.transactions);
        let ghost before = self.blocks@;
        self.blocks.push(
            Block {
                number,
                gas_prices: output.gas_prices,
                transactions: output.transactions,
                outcomes: output.outcomes,
            },
        );
        assert(self.blocks@.drop_last() =~= before);
        Ok(MinedOutcome { block_number: number, tx_hashes })
    }
}

/// Block numbers in storage are gapless: after genesis they start at 1 and
/// each is one more than the one before.
pub proof fn lemma_block_numbers_gapless(chain: &Blockchain)
    requires
        chain.wf(),
    ensures
        chain.blocks@.len() > 1 ==> chain.blocks@[1].number == 1,
        forall|i: int|
            #![trigger chain.blocks@[i]]
            1 <= i < chain.blocks@.len() ==> chain.blocks@[i].number == chain.blocks@[i
                - 1].number + 1,
{
}

/// A committed cycle keeps every earlier block and moves the chain head up by
/// exactly one, so a run of cycles numbers its blocks consecutively.
pub proof fn lemma_commit_advances_head(
    before: &Blockchain,
    after: &Blockchain,
    txs: Seq<ExecutableTxWithHash>,
    prices: GasPrices,
)
    requires
        before.wf(),
        appends_block(before.blocks@, after.blocks@, txs, prices),
    ensures
        after.wf(),
        after.head() == Some(before.blocks@.len() as nat),
        before.head() matches Some(h) ==> after.head() == Some(h + 1),
        forall|i: int| 0 <= i < before.blocks@.len() ==> after.blocks@[i] == before.blocks@[i],
{
    assert forall|i: int| 0 <= i < before.blocks@.len() implies after.blocks@[i]
        == before.blocks@[i] by {
        assert(after.blocks@.drop_last()[i] == after.blocks@[i]);
    }
}

/// `after` is `before` with one more block, numbered next.
pub open spec fn commits_one(before: Seq<Block>, after: Seq<Block>) -> bool {
    &&& after.len() == before.len() + 1
    &&& after.drop_last() == before
    &&& after.last().number == before.len()
}

/// How many of the cycles up to snapshot `i` of `run` committed a block.
pub open spec fn commits_before(run: Seq<Seq<Block>>, i: int) -> nat
    decreases i,
{
    if i <= 0 {
        0
    } else {
        commits_before(run, i - 1) + if run[i].len() > run[i - 1].len() {
            1nat
        } else {
            0nat
        }
    }
}

/// Over any run of cycles from genesis, forced or timer-driven, where each
/// cycle either leaves storage as it was or commits one block, the blocks
/// are committed as 1, 2, 3, ... in order: the `k`-th commit is block `k`,
/// and the head is always the number of commits so far.
pub proof fn lemma_cycle_run_numbers(run: Seq<Seq<Block>>)
    requires
        run.len() > 0,
        run[0].len() == 1,
        run[0][0].number == 0,
        forall|i: int|
            #![trigger run[i]]
            0 < i < run.len() ==> run[i] == run[i - 1] || commits_one(run[i - 1], run[i]),
    ensures
        forall|i: int|
            #![trigger run[i]]
            0 <= i < run.len() ==> run[i].len() == commits_before(run, i) + 1,
        forall|i: int|
            0 < i < run.len() && run[i].len() > run[i - 1].len() ==> run[i].last().number
                == commits_before(run, i),
        forall|i: int, k: int| 0 <= i < run.len() && 0 <= k < run[i].len() ==> run[i][k].number == k,
{
    lemma_cycle_run_upto(run, run.len() - 1);
}

proof fn lemma_cycle_run_upto(run: Seq<Seq<Block>>, n: int)
    requires
        0 <= n < run.len(),
        run[0].len() == 1,
        run[0][0].number == 0,
        forall|i: int|
            #![trigger run[i]]
            0 < i < run.len() ==> run[i] == run[i - 1] || commits_one(run[i - 1], run[i]),
    ensures
        forall|i: int|
            #![trigger run[i]]
            0 <= i <= n ==> run[i].len() == commits_before(run, i) + 1,
        forall|i: int|
            0 < i <= n && run[i].len() > run[i - 1].len() ==> run[i].last().number
                == commits_before(run, i),
        forall|i: int, k: int| 0 <= i <= n && 0 <= k < run[i].len() ==> run[i][k].number == k,
    decreases n,
{
    if n > 0 {
        lemma_cycle_run_upto(run, n - 1);
        let before = run[n - 1];
        let after = run[n];
        if after != before {
            assert(commits_one(before, after));
            assert forall|k: int| 0 <= k < after.len() implies after[k].number == k by {
                if k < before.len() {
                    assert(after.drop_last()[k] == after[k]);
                }
            }
        }
    }
}

fn collect_hashes(txs: &Vec<ExecutableTxWithHash>) -> (r: Vec<Felt>)
    ensures
        r@ == hashes_of(txs@),
{
    let mut r: Vec<Felt> = Vec::new();
    let mut i: usize = 0;
    while i < txs.len()
        invariant
            i <= txs@.len(),
            r@ == hashes_of(txs@.take(i as int)),
        decreases txs@.len() - i,
    {
        r.push(txs[i].hash);
        i = i + 1;
        assert(hashes_of(txs@.take(i as int)) =~= r@);
    }
    assert(txs@.take(i as int) =~= txs@);
    r
}

/// Storage, gas oracle and executor of one node.
pub struct Backend<EF> {
    pub blockchain: Blockchain,
    pub gas_oracle: GasOracle,
    pub executor_factory: EF,
}

impl<EF> Backend<EF> {
    pub open spec fn wf(&self) -> bool {
        self.blockchain.wf()
    }

    pub fn new(blockchain: Blockchain, gas_oracle: GasOracle, executor_factory: EF) -> (r: Backend<
        EF,
    >)
        ensures
            r.blockchain == blockchain,
            r.gas_oracle == gas_oracle,
            r.executor_factory == executor_factory,
    {
        Backend { blockchain, gas_oracle, executor_factory }
    }

    /// Writes the genesis block, block 0 with no transactions, into empty
    /// storage.
    pub fn init_genesis(&mut self) -> (r: Result<(), GenesisError>)
        requires
            old(self).wf(),
        ensures
            final(self).wf(),
            final(self).gas_oracle == old(self).gas_oracle,
            final(self).executor_factory == old(self).executor_factory,
            r is Ok <==> old(self).blockchain.blocks@.len() == 0,
            r is Ok ==> appends_block(
                old(self).blockchain.blocks@,
                final(self).blockchain.blocks@,
                Seq::empty(),
                old(self).gas_oracle.prices,
            ),
            r is Err ==> final(self).blockchain.blocks@ == old(self).blockchain.blocks@ && r
                == Err::<(), GenesisError>(GenesisError::AlreadyInitialized),
    {
        if self.blockchain.blocks.len() != 0 {
            return Err(GenesisError::AlreadyInitialized);
        }
        let ghost before = self.blockchain.blocks@;
        let gas_prices = self.gas_oracle.current_prices();
        self.blockchain.blocks.push(Block {
                number: 0,
                gas_prices,
                transactions: Vec::new(),
                outcomes: Vec::new(),
            });
        assert(self.blockchain.blocks@.drop_last() =~= before);
        Ok(())
    }
}

} // verus!
