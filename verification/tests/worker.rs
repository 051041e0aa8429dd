use geyser_postgres_sink::account::{encode_account, encode_batch, DbAccountInfo};
use geyser_postgres_sink::block_handler::DbBlockInfo;
use geyser_postgres_sink::config::GeyserPluginPostgresConfig;
use geyser_postgres_sink::parallel_client::ParallelClient;
use geyser_postgres_sink::parallel_client_worker::{
    LogTransactionRequest, ParallelClientWorker, UpdateAccountRequest, UpdateBlockMetadataRequest,
    UpdateSlotRequest, Verdict, WorkEvent, WorkRequest, WorkerState,
};
use geyser_postgres_sink::slot_handler::{SlotHandler, SlotStatus};
use geyser_postgres_sink::statement::{GeyserPluginPostgresError, Operation};
use geyser_postgres_sink::transaction_handler::DbTransaction;

fn config(batch_size: usize) -> GeyserPluginPostgresConfig {
    GeyserPluginPostgresConfig {
        connection_str: "host=localhost".to_string(),
        use_ssl: None,
        server_ca: None,
        client_cert: None,
        client_key: None,
        batch_size,
        threads: 1,
        panic_on_db_errors: false,
        accounts_selector: None,
        skip_upsert_existing_accounts_at_startup: false,
        safe_batch_starting_slot_cushion: 0,
    }
}

fn account(fill: u8, slot: u64) -> DbAccountInfo {
    DbAccountInfo {
        pubkey: vec![fill; 32],
        owner: vec![200; 32],
        lamports: 5,
        executable: false,
        data: Vec::new(),
        slot,
        write_version: 1,
    }
}

fn update(fill: u8, slot: u64, is_startup: bool) -> WorkEvent {
    WorkEvent::Request(WorkRequest::UpdateAccount(Box::new(UpdateAccountRequest { account: account(fill, slot), is_startup })))
}

fn slot(slot: u64, status: SlotStatus) -> WorkEvent {
    WorkEvent::Request(WorkRequest::UpdateSlot(Box::new(UpdateSlotRequest { slot, parent: None, slot_status: status })))
}

/// Runs the loop over `events` against a database that refuses the
/// statements whose running number is in `refused`. Gives the texts handed
/// to the database, the number of events taken, how often startup was
/// counted as done, and how the loop ended.
fn run(
    worker: &mut ParallelClientWorker,
    events: Vec<(WorkEvent, bool)>,
    refused: &[usize],
    panic_on_db_errors: bool,
) -> (Vec<String>, usize, usize, Verdict) {
    let mut executed: Vec<String> = Vec::new();
    let mut taken: usize = 0;
    let mut counted: usize = 0;
    for (event, startup_flag) in events {
        let plan = worker.do_work(event, startup_flag, panic_on_db_errors);
        taken += 1;
        for statement in plan.statements.iter() {
            let number: usize = executed.len();
            executed.push(statement.query.clone());
            if plan.after_statement(!refused.contains(&number)) == Verdict::Abort {
                return (executed, taken, counted, Verdict::Abort);
            }
        }
        if plan.startup_acknowledged {
            counted += 1;
        }
        if plan.next != Verdict::Continue {
            worker.finish();
            return (executed, taken, counted, plan.next);
        }
    }
    (executed, taken, counted, Verdict::Continue)
}

#[test]
fn three_startup_updates_with_batch_size_two() {
    let mut worker = ParallelClientWorker::new(config(2)).unwrap();
    let events = vec![
        (update(1, 10, true), false),
        (update(2, 11, true), false),
        (update(3, 10, true), false),
        (WorkEvent::Timeout, false),
        (WorkEvent::Timeout, true),
        (WorkEvent::Timeout, true),
    ];
    let (executed, taken, counted, verdict) = run(&mut worker, events, &[], false);
    assert_eq!(taken, 6);
    assert_eq!(counted, 1);
    assert_eq!(verdict, Verdict::Continue);
    assert_eq!(
        executed,
        vec![
            encode_batch(&None, &vec![account(1, 10), account(2, 11)]),
            encode_account(&None, &account(3, 10)),
            SlotHandler::update(10, None, SlotStatus::Rooted),
            SlotHandler::update(11, None, SlotStatus::Rooted),
        ]
    );
    assert!(worker.has_ended_startup());
    assert_eq!(worker.pending_len(), 0);
    assert_eq!(worker.slots_len(), 0);
    assert_eq!(worker.current_state(), WorkerState::Running);
}

#[test]
fn first_flush_fires_after_second_update() {
    let mut worker = ParallelClientWorker::new(config(2)).unwrap();
    let plan = worker.do_work(update(1, 10, true), false, false);
    assert!(plan.statements.is_empty());
    assert_eq!(worker.pending_len(), 1);
    let plan = worker.do_work(update(2, 11, true), false, false);
    assert_eq!(plan.statements.len(), 1);
    assert_eq!(plan.statements[0].operation, Operation::UpdateAccountBatch);
    assert_eq!(worker.pending_len(), 0);
    let plan = worker.do_work(update(3, 12, true), false, false);
    assert!(plan.statements.is_empty());
    assert_eq!(worker.pending_len(), 1);
    assert_eq!(worker.slots_len(), 3);
}

#[test]
fn fatal_database_error_ends_before_the_third_request() {
    let mut worker = ParallelClientWorker::new(config(2)).unwrap();
    let events = vec![
        (slot(1, SlotStatus::Processed), false),
        (slot(2, SlotStatus::Processed), false),
        (slot(3, SlotStatus::Processed), false),
    ];
    let (executed, taken, _, verdict) = run(&mut worker, events, &[1], true);
    assert_eq!(verdict, Verdict::Abort);
    assert_eq!(taken, 2);
    assert_eq!(
        executed,
        vec![
            SlotHandler::update(1, None, SlotStatus::Processed),
            SlotHandler::update(2, None, SlotStatus::Processed),
        ]
    );
}

#[test]
fn tolerated_database_error_lets_later_requests_through() {
    let mut worker = ParallelClientWorker::new(config(2)).unwrap();
    let events = vec![
        (slot(1, SlotStatus::Processed), false),
        (slot(2, SlotStatus::Processed), false),
        (slot(3, SlotStatus::Processed), false),
        (update(4, 4, false), false),
    ];
    let (executed, taken, _, verdict) = run(&mut worker, events, &[1], false);
    assert_eq!(verdict, Verdict::Continue);
    assert_eq!(taken, 4);
    assert_eq!(executed.len(), 4);
    assert_eq!(executed[2], SlotHandler::update(3, None, SlotStatus::Processed));
    assert_eq!(executed[3], encode_account(&None, &account(4, 4)));
}

#[test]
fn end_of_startup_goes_on_after_a_tolerated_failure() {
    let mut worker = ParallelClientWorker::new(config(10)).unwrap();
    let events = vec![
        (update(1, 5, true), false),
        (update(2, 6, true), false),
        (update(3, 7, true), false),
        (WorkEvent::Timeout, true),
    ];
    let (executed, _, counted, verdict) = run(&mut worker, events, &[0, 2], false);
    assert_eq!(verdict, Verdict::Continue);
    assert_eq!(counted, 1);
    assert_eq!(executed.len(), 4);
    assert_eq!(executed[1], SlotHandler::update(5, None, SlotStatus::Rooted));
    assert_eq!(executed[2], SlotHandler::update(6, None, SlotStatus::Rooted));
    assert_eq!(executed[3], SlotHandler::update(7, None, SlotStatus::Rooted));
}

#[test]
fn end_of_startup_halts_on_a_fatal_failure() {
    let mut worker = ParallelClientWorker::new(config(10)).unwrap();
    let events = vec![(update(1, 5, true), false), (update(2, 6, true), false), (WorkEvent::Timeout, true)];
    let (executed, _, counted, verdict) = run(&mut worker, events, &[1], true);
    assert_eq!(verdict, Verdict::Abort);
    assert_eq!(counted, 0);
    assert_eq!(executed.len(), 2);
}

#[test]
fn startup_is_counted_once() {
    let mut worker = ParallelClientWorker::new(config(2)).unwrap();
    let plan = worker.do_work(WorkEvent::Timeout, false, false);
    assert!(!plan.startup_acknowledged);
    assert!(plan.statements.is_empty());
    assert!(!worker.has_ended_startup());
    let plan = worker.do_work(WorkEvent::Timeout, true, false);
    assert!(plan.startup_acknowledged);
    assert_eq!(plan.statements.len(), 1);
    assert_eq!(plan.statements[0].operation, Operation::FlushAccounts);
    assert!(worker.has_ended_startup());
    for _ in 0..5 {
        let plan = worker.do_work(WorkEvent::Timeout, true, false);
        assert!(!plan.startup_acknowledged);
        assert!(plan.statements.is_empty());
        assert_eq!(plan.next, Verdict::Continue);
    }
    let plan = worker.do_work(update(1, 1, true), true, false);
    assert!(!plan.startup_acknowledged);
}

#[test]
fn requests_do_not_end_startup() {
    let mut worker = ParallelClientWorker::new(config(2)).unwrap();
    let plan = worker.do_work(slot(1, SlotStatus::Confirmed), true, false);
    assert!(!plan.startup_acknowledged);
    assert_eq!(plan.statements.len(), 1);
    assert!(!worker.has_ended_startup());
}

#[test]
fn exit_flag_stops_the_worker() {
    let mut worker = ParallelClientWorker::new(config(2)).unwrap();
    assert_eq!(worker.current_state(), WorkerState::Running);
    let plan = worker.do_work(WorkEvent::Exit, true, true);
    assert_eq!(plan.next, Verdict::Stop);
    assert!(plan.statements.is_empty());
    assert!(!plan.startup_acknowledged);
    assert_eq!(worker.current_state(), WorkerState::Draining);
    let plan = worker.do_work(slot(1, SlotStatus::Confirmed), true, true);
    assert_eq!(plan.next, Verdict::Stop);
    assert!(plan.statements.is_empty());
    worker.finish();
    assert_eq!(worker.current_state(), WorkerState::Stopped);
    let plan = worker.do_work(WorkEvent::Timeout, true, true);
    assert_eq!(plan.next, Verdict::Stop);
    assert!(!plan.startup_acknowledged);
}

#[test]
fn failed_queue_follows_the_failure_policy() {
    let mut worker = ParallelClientWorker::new(config(2)).unwrap();
    let plan = worker.do_work(WorkEvent::Disconnected, false, false);
    assert_eq!(plan.next, Verdict::Stop);
    assert_eq!(plan.on_failure, Verdict::Continue);
    assert_eq!(worker.current_state(), WorkerState::Draining);

    let mut worker = ParallelClientWorker::new(config(2)).unwrap();
    let plan = worker.do_work(WorkEvent::Disconnected, false, true);
    assert_eq!(plan.next, Verdict::Abort);
    assert_eq!(plan.on_failure, Verdict::Abort);
}

#[test]
fn plan_follows_policy_after_each_statement() {
    let mut worker = ParallelClientWorker::new(config(2)).unwrap();
    let strict = worker.do_work(slot(1, SlotStatus::Rooted), false, true);
    assert_eq!(strict.after_statement(true), Verdict::Continue);
    assert_eq!(strict.after_statement(false), Verdict::Abort);
    let lenient = worker.do_work(slot(1, SlotStatus::Rooted), false, false);
    assert_eq!(lenient.after_statement(true), Verdict::Continue);
    assert_eq!(lenient.after_statement(false), Verdict::Continue);
}

#[test]
fn transaction_and_block_requests_reach_the_sink() {
    let mut worker = ParallelClientWorker::new(config(2)).unwrap();
    let t = WorkEvent::Request(WorkRequest::LogTransaction(Box::new(LogTransactionRequest {
        transaction_info: DbTransaction { signature: vec![1; 64], slot: 2, index: 0, is_vote: true },
    })));
    let plan = worker.do_work(t, false, false);
    assert_eq!(plan.statements.len(), 1);
    assert_eq!(plan.statements[0].operation, Operation::LogTransaction);
    let b = WorkEvent::Request(WorkRequest::UpdateBlockMetadata(Box::new(UpdateBlockMetadataRequest {
        block_info: DbBlockInfo { slot: 2, blockhash: vec![1; 32], block_height: None },
    })));
    let plan = worker.do_work(b, false, false);
    assert_eq!(plan.statements.len(), 1);
    assert_eq!(plan.statements[0].operation, Operation::UpdateBlockMetadata);
    assert_eq!(plan.next, Verdict::Continue);
}

#[test]
fn worker_is_refused_with_partial_tls() {
    let mut c = config(2);
    c.use_ssl = Some(true);
    match ParallelClientWorker::new(c) {
        Err(e) => {
            assert!(matches!(e, GeyserPluginPostgresError::ConfigurationError { .. }));
            assert_eq!(e.to_text(), "\"server_ca\" must be specified when \"use_ssl\" is set");
        }
        Ok(_) => panic!("partial tls material was accepted"),
    }
}

#[test]
fn pool_needs_a_worker() {
    match ParallelClient::new(0) {
        Err(e) => {
            assert!(matches!(e, GeyserPluginPostgresError::ConfigurationError { .. }));
            assert_eq!(e.to_text(), "\"threads\" must be at least 1");
        }
        Ok(_) => panic!("a pool without workers was accepted"),
    }
    assert_eq!(ParallelClient::new(3).ok().unwrap().worker_count(), 3);
}

#[test]
fn queues_take_turns() {
    let mut pool = ParallelClient::new(3).ok().unwrap();
    let mut routed: Vec<usize> = Vec::new();
    for _ in 0..7 {
        routed.push(pool.route());
    }
    assert_eq!(routed, vec![0, 1, 2, 0, 1, 2, 0]);
    let mut single = ParallelClient::new(1).ok().unwrap();
    assert_eq!(single.route(), 0);
    assert_eq!(single.route(), 0);
}

#[test]
fn pool_is_drained_when_every_worker_has_ended_startup() {
    let pool = ParallelClient::new(2).ok().unwrap();
    assert!(!pool.is_drained(0));
    assert!(!pool.is_drained(1));
    assert!(pool.is_drained(2));
    assert!(!pool.is_drained(3));
}

#[test]
fn two_workers_each_count_startup_once() {
    let mut workers = vec![
        ParallelClientWorker::new(config(2)).unwrap(),
        ParallelClientWorker::new(config(2)).unwrap(),
    ];
    let pool = ParallelClient::new(workers.len()).ok().unwrap();
    let mut count: usize = 0;
    for round in 0..4 {
        for worker in workers.iter_mut() {
            if worker.do_work(WorkEvent::Timeout, round > 0, false).startup_acknowledged {
                count += 1;
            }
        }
        assert_eq!(pool.is_drained(count), round > 0);
    }
    assert_eq!(count, 2);
}

#[test]
fn worker_is_refused_with_one_tls_file_and_no_use_ssl() {
    let mut c = config(2);
    c.client_cert = Some("cert.pem".to_string());
    match ParallelClientWorker::new(c) {
        Err(e) => {
            assert!(matches!(e, GeyserPluginPostgresError::ConfigurationError { .. }));
            assert_eq!(e.to_text(), "\"server_ca\" must be specified when another TLS file is set");
        }
        Ok(_) => panic!("partial tls material was accepted"),
    }
}
