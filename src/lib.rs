//! Block production for a single-authority sequencer: a pending-transaction
//! queue, a mining timer, and a WAIT / EXECUTE / MINE state machine that turns
//! queued batches into consecutively numbered, committed blocks.
pub mod backend;
pub mod felt;
pub mod producer;
pub mod transaction;

pub use backend::{
    Backend, Block, Blockchain, ExecutionError, ExecutionOutput, ExecutorFactory, GasOracle,
    GasPrices, GenesisError, MinedOutcome, NoopExecutorFactory, SealingError,
    TxOutcome,
};
pub use felt::{starkfelt_to_u128, Felt, RangeError};
pub use producer::{BlockProductionError, IntervalBlockProducer, ProducerPoll};
pub use transaction::{ExecutableTx, ExecutableTxWithHash, InvokeTx};
