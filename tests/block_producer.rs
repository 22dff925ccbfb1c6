use katana_core::{
    starkfelt_to_u128, Backend, BlockProductionError, Blockchain, ExecutableTx,
    ExecutableTxWithHash, ExecutionError, ExecutionOutput, ExecutorFactory, Felt, GasOracle,
    GasPrices, GenesisError, IntervalBlockProducer, InvokeTx, NoopExecutorFactory, ProducerPoll,
    RangeError, SealingError, TxOutcome,
};

fn felt(v: u8) -> Felt {
    let mut bytes = [0u8; 32];
    bytes[31] = v;
    Felt { bytes }
}

fn test_backend() -> Backend<NoopExecutorFactory> {
    let blockchain = Blockchain::new_ephemeral();
    let gas_oracle = GasOracle::fixed(Default::default(), Default::default());
    let mut backend = Backend::new(blockchain, gas_oracle, NoopExecutorFactory::new());
    backend.init_genesis().expect("failed to initialize genesis");
    backend
}

fn tx_with_hash(hash: u8) -> ExecutableTxWithHash {
    ExecutableTxWithHash {
        hash: felt(hash),
        transaction: ExecutableTx::Invoke(InvokeTx {
            sender_address: felt(0x42),
            nonce: hash as u64,
            calldata: vec![felt(7)],
        }),
    }
}

fn dummy_transaction() -> ExecutableTxWithHash {
    tx_with_hash(1)
}

struct RejectingExecutorFactory;

impl ExecutorFactory for RejectingExecutorFactory {
    fn execute(
        &self,
        _state: &Blockchain,
        _transactions: Vec<ExecutableTxWithHash>,
        _gas_prices: GasPrices,
    ) -> Result<ExecutionOutput, ExecutionError> {
        Err(ExecutionError::BatchRejected { reason: "invalid state".to_string() })
    }
}

struct RevertingExecutorFactory;

impl ExecutorFactory for RevertingExecutorFactory {
    fn execute(
        &self,
        _state: &Blockchain,
        transactions: Vec<ExecutableTxWithHash>,
        gas_prices: GasPrices,
    ) -> Result<ExecutionOutput, ExecutionError> {
        let outcomes = transactions
            .iter()
            .map(|_| TxOutcome::Reverted { reason: "out of gas".to_string() })
            .collect();
        Ok(ExecutionOutput { transactions, outcomes, gas_prices })
    }
}

#[test]
fn interval_initial_state() {
    let _backend = test_backend();
    let producer = IntervalBlockProducer::new(Some(1000));

    assert!(producer.timer.is_none());
    assert!(producer.queued.is_empty());
    assert!(producer.ongoing_mining.is_none());
    assert!(producer.ongoing_execution.is_none());
}

#[test]
fn interval_force_mine_without_transactions() {
    let mut backend = test_backend();

    let mut producer = IntervalBlockProducer::new(None);
    let _ = producer.force_mine(&mut backend);

    let latest_num = backend.blockchain.latest_number().unwrap();
    assert_eq!(latest_num, 1);
}

#[test]
fn interval_mine_after_timer() {
    let mut backend = test_backend();
    let mut producer = IntervalBlockProducer::new(Some(1000));
    // Initial state
    assert!(producer.timer.is_none());

    producer.queued.push_back(vec![dummy_transaction()]);

    // Process the transaction, the timer should be automatically started
    let _ = producer.poll(&mut backend, 0);
    assert!(producer.timer.is_some());

    // Advance time to trigger mining
    let result = producer.poll(&mut backend, 1000).expect("should mine block").unwrap();

    assert_eq!(result.block_number, 1);
    assert_eq!(backend.blockchain.latest_number().unwrap(), 1);

    // Final state
    assert!(producer.timer.is_none());
}

#[test]
fn instant_initial_state() {
    let producer = IntervalBlockProducer::new(None);
    assert!(producer.interval.is_none());
    assert!(producer.timer.is_none());
    assert!(producer.queued.is_empty());
    assert!(producer.ongoing_mining.is_none());
    assert!(producer.ongoing_execution.is_none());
}

#[test]
fn force_mine_on_genesis_yields_block_one() {
    let mut backend = test_backend();
    assert_eq!(backend.blockchain.latest_number(), Some(0));
    let mut producer = IntervalBlockProducer::new(None);
    let outcome = producer.force_mine(&mut backend).unwrap();
    assert_eq!(outcome.block_number, 1);
    assert!(outcome.tx_hashes.is_empty());
    assert_eq!(backend.blockchain.latest_number(), Some(1));
    assert_eq!(backend.blockchain.blocks[1].number, 1);
    assert!(backend.blockchain.blocks[1].transactions.is_empty());
}

#[test]
fn timer_is_armed_once_and_fires_at_its_deadline() {
    let mut backend = test_backend();
    let mut producer = IntervalBlockProducer::new(Some(1000));
    producer.queue_transactions(vec![dummy_transaction()]);

    assert!(producer.poll(&mut backend, 5).is_none());
    assert_eq!(producer.timer, Some(1005));

    assert!(producer.poll(&mut backend, 600).is_none());
    assert_eq!(producer.timer, Some(1005));
    assert_eq!(producer.queued.len(), 1);

    assert!(producer.poll(&mut backend, 1004).is_none());
    assert_eq!(backend.blockchain.latest_number(), Some(0));

    let outcome = producer.poll(&mut backend, 1005).unwrap().unwrap();
    assert_eq!(outcome.block_number, 1);
    assert_eq!(outcome.tx_hashes, vec![felt(1)]);
    assert!(producer.timer.is_none());
    assert!(producer.queued.is_empty());
    assert_eq!(backend.blockchain.latest_number(), Some(1));
}

#[test]
fn timer_deadline_saturates() {
    let mut backend = test_backend();
    let mut producer = IntervalBlockProducer::new(Some(1000));
    producer.queue_transactions(vec![dummy_transaction()]);
    assert!(producer.poll(&mut backend, u64::MAX - 10).is_none());
    assert_eq!(producer.timer, Some(u64::MAX));
}

#[test]
fn empty_queue_never_arms_the_timer() {
    let mut backend = test_backend();
    let mut producer = IntervalBlockProducer::new(Some(1000));
    assert!(producer.poll(&mut backend, 0).is_none());
    assert!(producer.poll(&mut backend, 5000).is_none());
    assert!(producer.timer.is_none());
    assert_eq!(backend.blockchain.latest_number(), Some(0));
}

#[test]
fn instant_mode_never_mines_on_poll() {
    let mut backend = test_backend();
    let mut producer = IntervalBlockProducer::new(None);
    producer.queue_transactions(vec![dummy_transaction()]);
    assert!(producer.poll(&mut backend, 0).is_none());
    assert!(producer.poll(&mut backend, 1_000_000).is_none());
    assert!(producer.timer.is_none());
    assert_eq!(producer.queued.len(), 1);
    let outcome = producer.force_mine(&mut backend).unwrap();
    assert_eq!(outcome.tx_hashes, vec![felt(1)]);
    assert!(producer.queued.is_empty());
}

#[test]
fn block_numbers_are_consecutive_across_cycles() {
    let mut backend = test_backend();
    let mut producer = IntervalBlockProducer::new(Some(100));

    assert_eq!(producer.force_mine(&mut backend).unwrap().block_number, 1);

    producer.queue_transactions(vec![tx_with_hash(1)]);
    assert!(producer.poll(&mut backend, 0).is_none());
    assert_eq!(producer.poll(&mut backend, 100).unwrap().unwrap().block_number, 2);

    producer.queue_transactions(vec![tx_with_hash(2)]);
    assert!(producer.poll(&mut backend, 150).is_none());
    assert_eq!(producer.force_mine(&mut backend).unwrap().block_number, 3);
    assert!(producer.timer.is_none());

    assert_eq!(producer.force_mine(&mut backend).unwrap().block_number, 4);
    assert_eq!(backend.blockchain.latest_number(), Some(4));
    for (i, block) in backend.blockchain.blocks.iter().enumerate() {
        assert_eq!(block.number, i as u64);
    }
}

#[test]
fn block_keeps_push_order() {
    let mut backend = test_backend();
    let mut producer = IntervalBlockProducer::new(Some(10));
    producer.queue_transactions(vec![tx_with_hash(3), tx_with_hash(1)]);
    assert!(producer.poll(&mut backend, 0).is_none());
    producer.queue_transactions(vec![tx_with_hash(2)]);
    producer.queue_transactions(vec![]);
    producer.queue_transactions(vec![tx_with_hash(9), tx_with_hash(4)]);

    let outcome = producer.poll(&mut backend, 10).unwrap().unwrap();
    let expected = vec![felt(3), felt(1), felt(2), felt(9), felt(4)];
    assert_eq!(outcome.tx_hashes, expected);
    let block = &backend.blockchain.blocks[1];
    let hashes: Vec<Felt> = block.transactions.iter().map(|t| t.hash).collect();
    assert_eq!(hashes, expected);
    assert_eq!(block.transactions[0], tx_with_hash(3));
}

#[test]
fn pushes_during_a_cycle_wait_for_the_next() {
    let mut backend = test_backend();
    let mut producer = IntervalBlockProducer::new(Some(10));
    producer.queue_transactions(vec![tx_with_hash(1)]);
    assert_eq!(producer.step(&mut backend, 0), ProducerPoll::Pending);
    assert_eq!(producer.step(&mut backend, 10), ProducerPoll::Pending);
    assert!(producer.ongoing_execution.is_some());
    producer.queue_transactions(vec![tx_with_hash(2)]);
    let outcome = producer.poll(&mut backend, 10).unwrap().unwrap();
    assert_eq!(outcome.tx_hashes, vec![felt(1)]);
    assert_eq!(producer.queued.len(), 1);
    // Batches still wait, so the timer is armed again as the cycle ends.
    assert_eq!(producer.timer, Some(20));
    assert!(producer.poll(&mut backend, 19).is_none());
    assert_eq!(producer.timer, Some(20));
    let outcome = producer.poll(&mut backend, 20).unwrap().unwrap();
    assert_eq!(outcome.block_number, 2);
    assert_eq!(outcome.tx_hashes, vec![felt(2)]);
    assert!(producer.timer.is_none());
}

#[test]
fn discarding_during_execute_leaves_storage_unchanged() {
    let mut backend = test_backend();
    {
        let mut producer = IntervalBlockProducer::new(Some(10));
        producer.queue_transactions(vec![dummy_transaction()]);
        assert_eq!(producer.step(&mut backend, 0), ProducerPoll::Pending);
        assert_eq!(producer.step(&mut backend, 10), ProducerPoll::Pending);
        assert!(producer.ongoing_execution.is_some());
        assert!(producer.ongoing_mining.is_none());
    }
    assert_eq!(backend.blockchain.latest_number(), Some(0));
}

#[test]
fn discarding_during_mine_leaves_storage_unchanged() {
    let mut backend = test_backend();
    {
        let mut producer = IntervalBlockProducer::new(Some(10));
        producer.queue_transactions(vec![dummy_transaction()]);
        assert_eq!(producer.step(&mut backend, 0), ProducerPoll::Pending);
        assert_eq!(producer.step(&mut backend, 10), ProducerPoll::Pending);
        assert_eq!(producer.step(&mut backend, 10), ProducerPoll::Pending);
        assert!(producer.ongoing_execution.is_none());
        assert!(producer.ongoing_mining.is_some());
    }
    assert_eq!(backend.blockchain.latest_number(), Some(0));
    assert_eq!(backend.blockchain.blocks.len(), 1);
}

#[test]
fn force_mine_is_refused_while_a_cycle_is_in_flight() {
    let mut backend = test_backend();
    let mut producer = IntervalBlockProducer::new(Some(10));
    producer.queue_transactions(vec![dummy_transaction()]);
    assert_eq!(producer.step(&mut backend, 0), ProducerPoll::Pending);
    assert_eq!(producer.step(&mut backend, 10), ProducerPoll::Pending);
    assert_eq!(producer.force_mine(&mut backend), Err(BlockProductionError::CycleInFlight));
    assert!(producer.ongoing_execution.is_some());
    assert_eq!(backend.blockchain.latest_number(), Some(0));
    let outcome = producer.poll(&mut backend, 10).unwrap().unwrap();
    assert_eq!(outcome.block_number, 1);
}

#[test]
fn execution_failure_is_reported_and_clears_the_cycle() {
    let gas_oracle = GasOracle::fixed(1, 2);
    let mut backend = Backend::new(Blockchain::new_ephemeral(), gas_oracle, RejectingExecutorFactory);
    backend.init_genesis().unwrap();
    let mut producer = IntervalBlockProducer::new(Some(10));
    producer.queue_transactions(vec![dummy_transaction()]);
    assert!(producer.poll(&mut backend, 0).is_none());
    let result = producer.poll(&mut backend, 10).unwrap();
    assert_eq!(
        result,
        Err(BlockProductionError::Execution(ExecutionError::BatchRejected {
            reason: "invalid state".to_string()
        }))
    );
    assert!(producer.timer.is_none());
    assert!(producer.queued.is_empty());
    assert!(producer.ongoing_execution.is_none());
    assert!(producer.ongoing_mining.is_none());
    assert_eq!(backend.blockchain.latest_number(), Some(0));

    let forced = producer.force_mine(&mut backend);
    assert!(matches!(forced, Err(BlockProductionError::Execution(_))));
    assert_eq!(backend.blockchain.latest_number(), Some(0));
}

#[test]
fn sealing_without_genesis_fails() {
    let mut backend =
        Backend::new(Blockchain::new_ephemeral(), GasOracle::fixed(0, 0), NoopExecutorFactory::new());
    assert_eq!(backend.blockchain.latest_number(), None);
    let mut producer = IntervalBlockProducer::new(None);
    producer.queue_transactions(vec![dummy_transaction()]);
    assert_eq!(
        producer.force_mine(&mut backend),
        Err(BlockProductionError::Sealing(SealingError::MissingGenesis))
    );
    assert!(backend.blockchain.blocks.is_empty());
    assert!(producer.queued.is_empty());
}

#[test]
fn genesis_is_written_once() {
    let mut backend = test_backend();
    assert_eq!(backend.blockchain.latest_number(), Some(0));
    assert_eq!(backend.blockchain.blocks[0].number, 0);
    assert_eq!(backend.init_genesis(), Err(GenesisError::AlreadyInitialized));
    assert_eq!(backend.blockchain.blocks.len(), 1);
}

#[test]
fn block_records_oracle_prices() {
    let mut backend =
        Backend::new(Blockchain::new_ephemeral(), GasOracle::fixed(11, 22), NoopExecutorFactory::new());
    backend.init_genesis().unwrap();
    let mut producer = IntervalBlockProducer::new(None);
    producer.force_mine(&mut backend).unwrap();
    assert_eq!(
        backend.blockchain.blocks[1].gas_prices,
        GasPrices { l1_gas_price: 11, l1_data_gas_price: 22 }
    );
    assert_eq!(
        backend.gas_oracle.current_prices(),
        GasPrices { l1_gas_price: 11, l1_data_gas_price: 22 }
    );
}

#[test]
fn felt_small_value_to_u128() {
    assert_eq!(starkfelt_to_u128(felt(0)), Ok(0));
    let mut bytes = [0u8; 32];
    bytes[30] = 0x01;
    bytes[31] = 0x02;
    assert_eq!(starkfelt_to_u128(Felt { bytes }), Ok(0x0102));
}

#[test]
fn felt_largest_u128() {
    let mut bytes = [0u8; 32];
    for b in bytes.iter_mut().skip(16) {
        *b = 0xff;
    }
    assert_eq!(starkfelt_to_u128(Felt { bytes }), Ok(u128::MAX));
    let mut bytes = [0u8; 32];
    bytes[16] = 0x80;
    assert_eq!(starkfelt_to_u128(Felt { bytes }), Ok(1u128 << 127));
}

#[test]
fn felt_out_of_range() {
    let mut bytes = [0u8; 32];
    bytes[15] = 1;
    let f = Felt { bytes };
    assert_eq!(starkfelt_to_u128(f), Err(RangeError::OutOfRange { felt: f }));
    let mut bytes = [0u8; 32];
    bytes[0] = 0x08;
    bytes[31] = 5;
    let f = Felt { bytes };
    assert_eq!(starkfelt_to_u128(f), Err(RangeError::OutOfRange { felt: f }));
}

#[test]
fn noop_executor_accepts_every_transaction() {
    let mut backend = test_backend();
    let mut producer = IntervalBlockProducer::new(None);
    producer.queue_transactions(vec![tx_with_hash(1), tx_with_hash(2)]);
    producer.force_mine(&mut backend).unwrap();
    assert_eq!(backend.blockchain.blocks[1].outcomes, vec![TxOutcome::Accepted, TxOutcome::Accepted]);
    assert!(backend.blockchain.blocks[0].outcomes.is_empty());
}

#[test]
fn reverted_transactions_still_make_a_block() {
    let mut backend =
        Backend::new(Blockchain::new_ephemeral(), GasOracle::fixed(0, 0), RevertingExecutorFactory);
    backend.init_genesis().unwrap();
    let mut producer = IntervalBlockProducer::new(Some(1));
    producer.queue_transactions(vec![tx_with_hash(5)]);
    assert!(producer.poll(&mut backend, 0).is_none());
    let outcome = producer.poll(&mut backend, 1).unwrap().unwrap();
    assert_eq!(outcome.block_number, 1);
    assert_eq!(outcome.tx_hashes, vec![felt(5)]);
    assert_eq!(
        backend.blockchain.blocks[1].outcomes,
        vec![TxOutcome::Reverted { reason: "out of gas".to_string() }]
    );
}

#[test]
fn failed_cycle_rearms_timer_for_batches_that_arrived_meanwhile() {
    let mut backend =
        Backend::new(Blockchain::new_ephemeral(), GasOracle::fixed(0, 0), RejectingExecutorFactory);
    backend.init_genesis().unwrap();
    let mut producer = IntervalBlockProducer::new(Some(50));
    producer.queue_transactions(vec![tx_with_hash(1)]);
    assert_eq!(producer.step(&mut backend, 0), ProducerPoll::Pending);
    assert_eq!(producer.step(&mut backend, 50), ProducerPoll::Pending);
    producer.queue_transactions(vec![tx_with_hash(2)]);
    let result = producer.step(&mut backend, 60);
    assert!(matches!(result, ProducerPoll::Failed(BlockProductionError::Execution(_))));
    assert_eq!(producer.timer, Some(110));
    assert_eq!(producer.queued.len(), 1);
    assert_eq!(backend.blockchain.latest_number(), Some(0));
}
