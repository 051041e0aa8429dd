use geyser_postgres_sink::account::{encode_account, encode_batch, AccountHandlerId, AccountsSelectorConfig, DbAccountInfo};
use geyser_postgres_sink::block_handler::{BlockHandler, DbBlockInfo};
use geyser_postgres_sink::config::{connection_failure, ConnectionPlan, GeyserPluginPostgresConfig};
use geyser_postgres_sink::postgres_client::{PostgresClient, PostgresClientBuilder, SimplePostgresClient};
use geyser_postgres_sink::slot_handler::{SlotHandler, SlotStatus};
use geyser_postgres_sink::statement::{GeyserPluginPostgresError, Operation, Statement};
use geyser_postgres_sink::transaction_handler::{DbTransaction, TransactionHandler};

fn config(batch_size: usize) -> GeyserPluginPostgresConfig {
    GeyserPluginPostgresConfig {
        connection_str: "host=localhost user=ledger".to_string(),
        use_ssl: None,
        server_ca: None,
        client_cert: None,
        client_key: None,
        batch_size,
        threads: 1,
        panic_on_db_errors: false,
        accounts_selector: None,
        skip_upsert_existing_accounts_at_startup: false,
        safe_batch_starting_slot_cushion: 0,
    }
}

fn account(fill: u8, slot: u64) -> DbAccountInfo {
    DbAccountInfo {
        pubkey: vec![fill; 32],
        owner: vec![200; 32],
        lamports: 5,
        executable: false,
        data: vec![fill; 8],
        slot,
        write_version: 1,
    }
}

fn rooted(slot: u64) -> String {
    SlotHandler::update(slot, None, SlotStatus::Rooted)
}

#[test]
fn new_sink_is_empty() {
    let client = SimplePostgresClient::new(config(4)).unwrap();
    assert_eq!(client.pending_len(), 0);
    assert_eq!(client.slots_len(), 0);
    assert!(!client.has_slot(0));
}

#[test]
fn startup_batch_flushes_at_batch_size_and_rest_at_end() {
    let mut client = SimplePostgresClient::new(config(2)).unwrap();
    assert!(client.update_account(account(1, 10), true).is_none());
    assert_eq!(client.pending_len(), 1);

    let first = client.update_account(account(2, 11), true).unwrap();
    assert_eq!(first.operation, Operation::UpdateAccountBatch);
    assert_eq!(first.query, encode_batch(&None, &vec![account(1, 10), account(2, 11)]));
    assert_eq!(first.query, format!("{}{}", encode_account(&None, &account(1, 10)), encode_account(&None, &account(2, 11))));
    assert_eq!(client.pending_len(), 0);

    assert!(client.update_account(account(3, 10), true).is_none());
    assert_eq!(client.pending_len(), 1);
    assert_eq!(client.slots_len(), 2);

    let end = client.notify_end_of_startup();
    assert_eq!(end.len(), 3);
    assert_eq!(end[0].operation, Operation::FlushAccounts);
    assert_eq!(end[0].query, encode_account(&None, &account(3, 10)));
    assert_eq!(end[1].operation, Operation::FlushSlots);
    assert_eq!(end[1].query, rooted(10));
    assert_eq!(end[2].operation, Operation::FlushSlots);
    assert_eq!(end[2].query, rooted(11));
    assert_eq!(client.pending_len(), 0);
    assert_eq!(client.slots_len(), 0);
}

#[test]
fn pending_never_reaches_batch_size() {
    for batch_size in 1usize..6 {
        let mut client = SimplePostgresClient::new(config(batch_size)).unwrap();
        let mut flushes: usize = 0;
        for i in 0u8..23 {
            assert!(client.pending_len() < batch_size);
            if client.update_account(account(i, 1), true).is_some() {
                flushes += 1;
            }
            assert!(client.pending_len() < batch_size);
        }
        assert_eq!(flushes, 23 / batch_size);
        assert_eq!(client.pending_len(), 23 % batch_size);
    }
}

#[test]
fn batch_size_zero_flushes_every_update() {
    let mut client = SimplePostgresClient::new(config(0)).unwrap();
    let s = client.update_account(account(1, 1), true).unwrap();
    assert_eq!(s.query, encode_account(&None, &account(1, 1)));
    assert_eq!(client.pending_len(), 0);
}

#[test]
fn every_startup_slot_is_rooted_once() {
    let mut client = SimplePostgresClient::new(config(100)).unwrap();
    for slot in [7u64, 3, 7, 7, 9, 3, 0] {
        assert!(client.update_account(account(1, slot), true).is_none());
    }
    assert_eq!(client.slots_len(), 4);
    assert!(client.has_slot(7) && client.has_slot(3) && client.has_slot(9) && client.has_slot(0));
    assert!(!client.has_slot(8));
    let end = client.notify_end_of_startup();
    let queries: Vec<String> = end.iter().skip(1).map(|s| s.query.clone()).collect();
    assert_eq!(queries, vec![rooted(7), rooted(3), rooted(9), rooted(0)]);
    for slot in [7u64, 3, 9, 0] {
        assert_eq!(queries.iter().filter(|q| **q == rooted(slot)).count(), 1);
    }
    assert_eq!(client.slots_len(), 0);
    assert!(!client.has_slot(7));

    let again = client.notify_end_of_startup();
    assert_eq!(again.len(), 1);
    assert_eq!(again[0].query, "");
}

#[test]
fn steady_state_update_is_encoded_at_once() {
    let mut client = SimplePostgresClient::new(config(2)).unwrap();
    let s = client.update_account(account(1, 10), false).unwrap();
    assert_eq!(s.operation, Operation::UpdateAccount);
    assert_eq!(s.query, encode_account(&None, &account(1, 10)));
    assert_eq!(client.pending_len(), 0);
    assert_eq!(client.slots_len(), 0);
}

#[test]
fn steady_state_update_without_text_gives_nothing() {
    let mut c = config(2);
    c.accounts_selector = Some(AccountsSelectorConfig { handlers: vec![AccountHandlerId::TokenAccount], owners: Vec::new() });
    let mut client = SimplePostgresClient::new(c).unwrap();
    assert!(client.update_account(account(1, 10), false).is_none());
}

#[test]
fn slot_transaction_and_block_are_encoded_at_once() {
    let mut client = SimplePostgresClient::new(config(2)).unwrap();
    let s = client.update_slot_status(4, Some(3), SlotStatus::Processed);
    assert_eq!(s.operation, Operation::UpdateSlotStatus);
    assert_eq!(s.query, SlotHandler::update(4, Some(3), SlotStatus::Processed));

    let t = client.log_transaction(DbTransaction { signature: vec![9; 64], slot: 4, index: 1, is_vote: false });
    assert_eq!(t.operation, Operation::LogTransaction);
    assert_eq!(t.query, TransactionHandler::update(&DbTransaction { signature: vec![9; 64], slot: 4, index: 1, is_vote: false }));

    let b = client.update_block_metadata(DbBlockInfo { slot: 4, blockhash: vec![5; 32], block_height: Some(2) });
    assert_eq!(b.operation, Operation::UpdateBlockMetadata);
    assert_eq!(b.query, BlockHandler::update(&DbBlockInfo { slot: 4, blockhash: vec![5; 32], block_height: Some(2) }));
    assert_eq!(client.pending_len(), 0);
    assert_eq!(client.slots_len(), 0);
}

#[test]
fn failed_statement_names_its_operation() {
    let s = Statement { operation: Operation::UpdateAccountBatch, query: String::new() };
    let e = s.failure("connection reset");
    assert!(matches!(e, GeyserPluginPostgresError::DataSchemaError { .. }));
    assert_eq!(e.to_text(), "[update_account_batch] error=[connection reset]");
    let labels = [
        (Operation::UpdateAccount, "update_account"),
        (Operation::UpdateSlotStatus, "update_slot_status"),
        (Operation::FlushAccounts, "notify_end_of_startup][flush_accounst_error"),
        (Operation::FlushSlots, "notify_end_of_startup][flush_slots"),
        (Operation::LogTransaction, "log_transaction"),
        (Operation::UpdateBlockMetadata, "update_block_metadata"),
        (Operation::BuildClient, "build_pararallel_postgres_client"),
    ];
    for (operation, label) in labels {
        assert_eq!(operation.as_str(), label);
        let e = Statement { operation, query: String::new() }.failure("x");
        assert_eq!(e.to_text(), format!("[{}] error=[x]", label));
    }
}

#[test]
fn connection_failure_names_the_connection() {
    let e = connection_failure("host=db", "refused");
    assert!(matches!(e, GeyserPluginPostgresError::ConnectionError { .. }));
    assert_eq!(e.to_text(), "[connect_to_db] connection_str=host=db error=refused");
}

#[test]
fn plain_connection_without_tls() {
    let mut c = config(1);
    for use_ssl in [None, Some(false)] {
        c.use_ssl = use_ssl;
        match SimplePostgresClient::connect_to_db(&c).unwrap() {
            ConnectionPlan::Plain { connection_str } => assert_eq!(connection_str, "host=localhost user=ledger"),
            ConnectionPlan::Tls { .. } => panic!("tls was not asked for"),
        }
    }
}

#[test]
fn partial_tls_material_is_refused_whatever_use_ssl_holds() {
    let files = [Some("ca.pem".to_string()), Some("cert.pem".to_string()), Some("key.pem".to_string())];
    let names = ["server_ca", "client_cert", "client_key"];
    for use_ssl in [None, Some(false), Some(true)] {
        for given in 1usize..7 {
            let mut c = config(1);
            c.use_ssl = use_ssl;
            c.server_ca = if given & 1 != 0 { files[0].clone() } else { None };
            c.client_cert = if given & 2 != 0 { files[1].clone() } else { None };
            c.client_key = if given & 4 != 0 { files[2].clone() } else { None };
            let first_missing = (0usize..3).find(|i| given & (1 << i) == 0).unwrap();
            let reason = if use_ssl == Some(true) { "\"use_ssl\" is set" } else { "another TLS file is set" };
            let expected = format!("\"{}\" must be specified when {}", names[first_missing], reason);
            let e = SimplePostgresClient::connect_to_db(&c).unwrap_err();
            assert!(matches!(e, GeyserPluginPostgresError::ConfigurationError { .. }));
            assert_eq!(e.to_text(), expected);
            match SimplePostgresClient::new(c) {
                Err(e) => assert_eq!(e.to_text(), expected),
                Ok(_) => panic!("partial tls material was accepted"),
            }
        }
    }
}

#[test]
fn one_tls_file_alone_is_refused_without_use_ssl() {
    let mut c = config(1);
    c.server_ca = Some("ca.pem".to_string());
    let e = SimplePostgresClient::connect_to_db(&c).unwrap_err();
    assert!(matches!(e, GeyserPluginPostgresError::ConfigurationError { .. }));
    assert_eq!(e.to_text(), "\"client_cert\" must be specified when another TLS file is set");

    let mut c = config(1);
    c.use_ssl = Some(false);
    c.client_key = Some("key.pem".to_string());
    let e = SimplePostgresClient::connect_to_db(&c).unwrap_err();
    assert_eq!(e.to_text(), "\"server_ca\" must be specified when another TLS file is set");
}

#[test]
fn complete_tls_material_is_accepted() {
    for use_ssl in [None, Some(false), Some(true)] {
        let mut c = config(1);
        c.use_ssl = use_ssl;
        c.server_ca = Some("ca.pem".to_string());
        c.client_cert = Some("cert.pem".to_string());
        c.client_key = Some("key.pem".to_string());
        match SimplePostgresClient::connect_to_db(&c).unwrap() {
            ConnectionPlan::Tls { server_ca, client_cert, client_key, .. } => {
                assert_eq!(use_ssl, Some(true));
                assert_eq!((server_ca.as_str(), client_cert.as_str(), client_key.as_str()), ("ca.pem", "cert.pem", "key.pem"));
            }
            ConnectionPlan::Plain { connection_str } => {
                assert_ne!(use_ssl, Some(true));
                assert_eq!(connection_str, "host=localhost user=ledger");
            }
        }
        assert!(SimplePostgresClient::new(c).is_ok());
    }
}

#[test]
fn tls_needs_all_three_files() {
    let mut c = config(1);
    c.use_ssl = Some(true);
    let e = SimplePostgresClient::connect_to_db(&c).unwrap_err();
    assert!(matches!(e, GeyserPluginPostgresError::ConfigurationError { .. }));
    assert_eq!(e.to_text(), "\"server_ca\" must be specified when \"use_ssl\" is set");

    c.server_ca = Some("ca.pem".to_string());
    let e = SimplePostgresClient::connect_to_db(&c).unwrap_err();
    assert_eq!(e.to_text(), "\"client_cert\" must be specified when \"use_ssl\" is set");

    c.client_cert = Some("cert.pem".to_string());
    let e = SimplePostgresClient::connect_to_db(&c).unwrap_err();
    assert!(matches!(e, GeyserPluginPostgresError::ConfigurationError { .. }));
    assert_eq!(e.to_text(), "\"client_key\" must be specified when \"use_ssl\" is set");

    c.client_key = Some("key.pem".to_string());
    match SimplePostgresClient::connect_to_db(&c).unwrap() {
        ConnectionPlan::Tls { connection_str, server_ca, client_cert, client_key } => {
            assert_eq!(connection_str, "host=localhost user=ledger");
            assert_eq!(server_ca, "ca.pem");
            assert_eq!(client_cert, "cert.pem");
            assert_eq!(client_key, "key.pem");
        }
        ConnectionPlan::Plain { .. } => panic!("tls was asked for"),
    }
    assert!(SimplePostgresClient::new(c).is_ok());
}

#[test]
fn sink_is_refused_with_partial_tls() {
    let mut c = config(1);
    c.use_ssl = Some(true);
    c.server_ca = Some("ca.pem".to_string());
    c.client_key = Some("key.pem".to_string());
    match SimplePostgresClient::new(c) {
        Err(e) => {
            assert!(matches!(e, GeyserPluginPostgresError::ConfigurationError { .. }));
            assert_eq!(e.to_text(), "\"client_cert\" must be specified when \"use_ssl\" is set");
        }
        Ok(_) => panic!("partial tls material was accepted"),
    }
}

#[test]
fn schema_holds_every_enabled_table() {
    let s = PostgresClientBuilder::init_query(&config(1));
    assert_eq!(s.operation, Operation::BuildClient);
    assert_eq!(
        s.query,
        format!(
            "{}{}{}{}{}",
            AccountHandlerId::Account.init(&config(1)),
            AccountHandlerId::TokenAccount.init(&config(1)),
            SlotHandler::init(),
            BlockHandler::init(),
            TransactionHandler::init()
        )
    );
    let mut c = config(1);
    c.accounts_selector = Some(AccountsSelectorConfig { handlers: vec![AccountHandlerId::TokenAccount], owners: Vec::new() });
    let s = PostgresClientBuilder::init_query(&c);
    assert_eq!(
        s.query,
        format!("{}{}{}{}", AccountHandlerId::TokenAccount.init(&config(1)), SlotHandler::init(), BlockHandler::init(), TransactionHandler::init())
    );
}

#[test]
fn starting_slot_keeps_the_cushion() {
    let mut c = config(1);
    assert_eq!(PostgresClientBuilder::build_pararallel_postgres_client(&c, 100), None);
    c.skip_upsert_existing_accounts_at_startup = true;
    c.safe_batch_starting_slot_cushion = 10;
    assert_eq!(PostgresClientBuilder::build_pararallel_postgres_client(&c, 100), Some(90));
    assert_eq!(PostgresClientBuilder::build_pararallel_postgres_client(&c, 10), Some(0));
    assert_eq!(PostgresClientBuilder::build_pararallel_postgres_client(&c, 3), Some(0));
    c.safe_batch_starting_slot_cushion = 0;
    assert_eq!(PostgresClientBuilder::build_pararallel_postgres_client(&c, u64::MAX), Some(u64::MAX));
}
