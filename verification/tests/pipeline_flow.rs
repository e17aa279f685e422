use l2_sync::apply::{ApplyPhase, COMPACT_INTERVAL};
use l2_sync::convert::convert_block;
use l2_sync::data::{
    ContractClassData, L2SyncError, RawBlock, StateDiff, StateUpdate, StorageDiff,
};
use l2_sync::felt::Felt;
use l2_sync::fetch::{FetchStage, FetchedData, FETCH_RETRY_LIMIT};
use l2_sync::pipeline::Pipeline;
use l2_sync::queue::BoundedQueue;
use l2_sync::store::StateStore;

fn felt(n: u64) -> Felt {
    Felt::from_low(n)
}

fn raw_block(n: u64) -> RawBlock {
    RawBlock {
        block_number: n,
        parent_block_hash: felt(n.wrapping_sub(1)),
        global_state_root: felt(1000 + n),
        transaction_count: 2,
        transactions: vec![felt(10 * n), felt(10 * n + 1)],
    }
}

fn state_update(n: u64) -> StateUpdate {
    StateUpdate {
        block_hash: felt(n),
        new_root: felt(1000 + n),
        old_root: felt(1000 + n.wrapping_sub(1)),
        state_diff: StateDiff {
            storage_diffs: vec![StorageDiff {
                contract_address: felt(7),
                entries: vec![(felt(n), felt(2 * n))],
            }],
            declared_classes: vec![felt(n + 500)],
            nonces: vec![(felt(7), n)],
        },
    }
}

fn fetched(n: u64) -> FetchedData {
    FetchedData {
        block: raw_block(n),
        state_update: state_update(n),
        class_update: vec![ContractClassData {
            class_hash: felt(n + 500),
            sierra_program_length: 3,
            abi_length: 4,
        }],
    }
}

/// Drive one block through its full apply slot, returning its height.
fn apply_one(p: &mut Pipeline, store: &mut StateStore, l1_height: u64) -> u64 {
    let plan = p.step_apply_begin().expect("a converted unit should be ready");
    let n = plan.block_n;
    if plan.verify {
        // The commitment engine is simulated as declaring exactly the
        // declared root, so the check matches.
        let declared = plan.block.header.global_state_root;
        let computed = declared;
        store.verify_l2(n, &plan.state_update, computed, l1_height);
        let mismatch = p.step_apply_check(declared, computed);
        assert!(!mismatch);
    }
    p.step_apply_persistence(true, true, true);
    p.step_apply_seal(felt(9000 + n));
    n
}

#[test]
fn conversion_accepts_well_formed_block() {
    let b = raw_block(4);
    let converted = convert_block(b.clone()).expect("well-formed block must convert");
    assert_eq!(converted.header.block_number, 4);
    assert_eq!(converted.header.parent_block_hash, felt(3));
    assert_eq!(converted.header.global_state_root, felt(1004));
    assert_eq!(converted.header.transaction_count, 2);
    assert_eq!(converted.transactions, b.transactions);
}

#[test]
fn conversion_rejects_count_mismatch() {
    let mut b = raw_block(4);
    b.transaction_count = 3;
    assert_eq!(convert_block(b), Err(L2SyncError::Conversion));
}

#[test]
fn fetch_emits_consecutive_heights() {
    let mut f = FetchStage::new(50);
    let u = f.on_response(fetched(50));
    assert_eq!(u.block_n, 50);
    let u = f.on_response(fetched(51));
    assert_eq!(u.block_n, 51);
    assert_eq!(f.next_height, 52);
    assert_eq!(f.retries, 0);
}

#[test]
fn fetch_retry_limit_is_fatal() {
    let mut f = FetchStage::new(50);
    for _ in 0..FETCH_RETRY_LIMIT {
        assert_eq!(f.on_transient_error(), Ok(()));
    }
    // The budget is exhausted: the next transient failure is fatal.
    assert_eq!(f.on_transient_error(), Err(L2SyncError::FetchRetryLimit));
    // The stage never skipped past the failing height.
    assert_eq!(f.next_height, 50);
}

#[test]
fn fetch_retry_resets_after_success() {
    let mut f = FetchStage::new(50);
    assert_eq!(f.on_transient_error(), Ok(()));
    let u = f.on_response(fetched(50));
    assert_eq!(u.block_n, 50);
    assert_eq!(f.retries, 0);
}

#[test]
fn queue_is_first_in_first_out() {
    let mut q: BoundedQueue<u64> = BoundedQueue::new(3);
    assert_eq!(q.try_push(1), None);
    assert_eq!(q.try_push(2), None);
    assert_eq!(q.try_push(3), None);
    // Full: the element is handed back, nothing is dropped.
    assert_eq!(q.try_push(4), Some(4));
    assert_eq!(q.pop(), Some(1));
    // Room again: the retried push succeeds, order intact.
    assert_eq!(q.try_push(4), None);
    assert_eq!(q.pop(), Some(2));
    assert_eq!(q.pop(), Some(3));
    assert_eq!(q.pop(), Some(4));
    assert_eq!(q.pop(), None);
}

#[test]
fn apply_order_is_ascending_despite_reversed_completions() {
    let mut p = Pipeline::new(10, false);
    let mut store = StateStore::new();

    // Fetch heights 10, 11, 12 and move all three into the window.
    let mut raws = Vec::new();
    for n in 10..13 {
        assert!(p.step_fetch_response(fetched(n)).is_none());
        raws.push(p.step_convert_take().expect("window has room"));
    }

    // Complete the conversions in reverse height order.
    for (n, raw) in raws.into_iter().rev() {
        let block = convert_block(raw).expect("well-formed");
        // Nothing can be emitted before the oldest height completed.
        if n != 10 {
            assert!(!p.step_convert_emit());
        }
        assert!(p.step_convert_complete(n, block));
    }

    // Emission and apply still happen in exact input order.
    let mut applied = Vec::new();
    for _ in 0..3 {
        assert!(p.step_convert_emit());
        applied.push(apply_one(&mut p, &mut store, 0));
    }
    assert_eq!(applied, vec![10, 11, 12]);
    assert!(!p.step_convert_emit());
}

#[test]
fn duplicate_or_unknown_completion_is_refused() {
    let mut p = Pipeline::new(10, false);
    assert!(p.step_fetch_response(fetched(10)).is_none());
    let (n, raw) = p.step_convert_take().expect("window has room");
    assert_eq!(n, 10);
    let block = convert_block(raw).expect("well-formed");
    assert!(p.step_convert_complete(10, block.clone()));
    // A second completion for the same height is refused.
    assert!(!p.step_convert_complete(10, block.clone()));
    // A completion for a height never started is refused.
    assert!(!p.step_convert_complete(42, block));
}

#[test]
fn backpressure_blocks_fetch_without_loss() {
    let mut p = Pipeline::new(0, false);
    let mut store = StateStore::new();

    // The apply stage is stalled (never stepped); fill everything upstream:
    // fetch queue (10), conversion window (10) and conversion queue (10).
    let mut accepted = 0u64;
    let mut stalled_raws = Vec::new();
    loop {
        match p.step_fetch_response(fetched(accepted)) {
            None => {
                accepted += 1;
                // Drain the fetch queue into the window whenever possible,
                // converting and emitting eagerly.
                while let Some((n, raw)) = p.step_convert_take() {
                    stalled_raws.push((n, raw));
                }
                while let Some((n, raw)) = stalled_raws.pop() {
                    let block = convert_block(raw).expect("well-formed");
                    assert!(p.step_convert_complete(n, block));
                    p.step_convert_emit();
                }
            }
            Some(unconsumed) => {
                // Blocked: the response is handed back untouched and the
                // fetch stage has not advanced past it.
                assert_eq!(unconsumed.block.block_number, accepted);
                assert_eq!(p.fetch.next_height, accepted);
                break;
            }
        }
    }
    // Every queue and the window are now at capacity: 10 + 10 + 10.
    assert_eq!(accepted, 30);

    // Unblock the consumer: apply two blocks.
    let first = apply_one(&mut p, &mut store, 0);
    let second = apply_one(&mut p, &mut store, 0);
    assert_eq!((first, second), (0, 1));

    // Forward progress resumes: emission makes room all the way upstream,
    // and the fetch stage accepts new heights again.
    assert!(p.step_convert_emit());
    assert!(p.step_convert_emit());
    while let Some((n, raw)) = p.step_convert_take() {
        let block = convert_block(raw).expect("well-formed");
        assert!(p.step_convert_complete(n, block));
    }
    assert!(p.step_fetch_response(fetched(30)).is_none());
    assert_eq!(p.fetch.next_height, 31);

    // Drain everything: no height was skipped or duplicated.
    let mut applied = Vec::new();
    loop {
        let mut progressed = false;
        while let Some((n, raw)) = p.step_convert_take() {
            let block = convert_block(raw).expect("well-formed");
            assert!(p.step_convert_complete(n, block));
            progressed = true;
        }
        while p.step_convert_emit() {
            progressed = true;
        }
        while p.conv_queue.len() > 0 {
            applied.push(apply_one(&mut p, &mut store, 0));
            progressed = true;
        }
        if !progressed {
            break;
        }
    }
    let expected: Vec<u64> = (2..31).collect();
    assert_eq!(applied, expected);
}

#[test]
fn verification_mismatch_does_not_halt_the_block() {
    let mut p = Pipeline::new(5, true);
    let mut store = StateStore::new();
    assert!(p.step_fetch_response(fetched(5)).is_none());
    let (n, raw) = p.step_convert_take().expect("window has room");
    let block = convert_block(raw).expect("well-formed");
    assert!(p.step_convert_complete(n, block));
    assert!(p.step_convert_emit());

    let plan = p.step_apply_begin().expect("unit ready");
    assert!(plan.verify);
    // A deliberately corrupted diff: the recomputed root disagrees.
    let declared = plan.block.header.global_state_root;
    let computed = felt(31337);
    assert_ne!(declared, computed);
    store.verify_l2(plan.block_n, &plan.state_update, computed, 0);
    let mismatch = p.step_apply_check(declared, computed);
    // The mismatch is observable...
    assert!(mismatch);
    assert_eq!(p.apply.phase, ApplyPhase::Unverified);
    // ...but the block still persists, seals and advances the pipeline.
    p.step_apply_persistence(true, true, true);
    p.step_apply_seal(felt(9005));
    assert_eq!(p.apply.phase, ApplyPhase::Idle);
    assert_eq!(p.apply.next_block, 6);
    assert_eq!(p.apply.last_block_hash, Some(felt(9005)));
    // The store took the recomputed root, as on the matching path.
    assert_eq!(store.get_state_update().global_root, computed);
}

#[test]
fn persistence_failure_does_not_block_the_pipeline() {
    // Two identical pipelines; in one the class-update write fails.
    let mut ok = Pipeline::new(5, false);
    let mut failing = Pipeline::new(5, false);
    for p in [&mut ok, &mut failing] {
        assert!(p.step_fetch_response(fetched(5)).is_none());
        let (n, raw) = p.step_convert_take().expect("window has room");
        let block = convert_block(raw).expect("well-formed");
        assert!(p.step_convert_complete(n, block));
        assert!(p.step_convert_emit());
    }
    let plan_ok = ok.step_apply_begin().expect("unit ready");
    let plan_failing = failing.step_apply_begin().expect("unit ready");
    // The plan already carries the state-update and key-update payloads:
    // the class write's failure cannot retract them.
    assert_eq!(plan_ok.state_update, plan_failing.state_update);
    assert_eq!(plan_ok.storage_diffs, plan_failing.storage_diffs);
    assert_eq!(plan_ok.storage_diffs, plan_ok.state_update.state_diff.storage_diffs);
    ok.step_apply_persistence(true, true, true);
    failing.step_apply_persistence(true, false, true);
    // The seal request still occurs and both pipelines advance alike.
    ok.step_apply_seal(felt(9005));
    failing.step_apply_seal(felt(9005));
    assert_eq!(ok.apply.next_block, failing.apply.next_block);
    assert_eq!(ok.apply.last_block_hash, failing.apply.last_block_hash);
    assert_eq!(failing.apply.next_block, 6);
}

#[test]
fn commitment_state_diff_projects_exactly() {
    let su = state_update(3);
    let csd = l2_sync::commitments::build_commitment_state_diff(&su);
    assert_eq!(csd.storage_updates, su.state_diff.storage_diffs);
    assert_eq!(csd.class_updates, su.state_diff.declared_classes);
    assert_eq!(csd.nonce_updates, su.state_diff.nonces);
}

#[test]
fn compaction_triggers_exactly_on_the_interval() {
    assert_eq!(COMPACT_INTERVAL, 1000);
    let mut triggered = Vec::new();
    for n in 500..3000u64 {
        if l2_sync::apply::should_compact(n) {
            triggered.push(n);
        }
    }
    assert_eq!(triggered, vec![1000, 2000]);
}

#[test]
fn plan_marks_compaction_heights() {
    let mut p = Pipeline::new(1000, false);
    for n in 1000..1002 {
        assert!(p.step_fetch_response(fetched(n)).is_none());
        let (m, raw) = p.step_convert_take().expect("window has room");
        let block = convert_block(raw).expect("well-formed");
        assert!(p.step_convert_complete(m, block));
        assert!(p.step_convert_emit());
    }
    let plan = p.step_apply_begin().expect("unit ready");
    assert!(plan.compact);
    p.step_apply_persistence(true, true, true);
    p.step_apply_seal(felt(1));
    let plan = p.step_apply_begin().expect("unit ready");
    assert!(!plan.compact);
}
