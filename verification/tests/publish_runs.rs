use transaction::defaults::STATUS_FAILED;
use transaction::defaults::STATUS_PENDING;
use transaction::digest::hasher;
use transaction::error::ServiceError;
use transaction::host::filter_trie_command;
use transaction::host::get_tx_command;
use transaction::host::insert_tx_command;
use transaction::meta_contract::MetaContract;
use transaction::meta_contract::TxContract;
use transaction::metadata::Metadata;
use transaction::publish::build_record;
use transaction::publish::Action;
use transaction::publish::Event;
use transaction::publish::Phase;
use transaction::publish::Publish;
use transaction::result::FdbResult;
use transaction::result::TrieResult;
use transaction::transaction::Transaction;
use transaction::transaction::TransactionRequest;
use transaction::transaction::TrieTransaction;

fn s(text: &str) -> String {
    text.to_string()
}

fn request(method: &str, program_id: &str) -> TransactionRequest {
    TransactionRequest {
        program_id: s(program_id),
        alias: s("al"),
        public_key: s("pk"),
        signature: s("sig"),
        data: s("{\"cid\":\"c1\"}"),
        method: s(method),
        chain_id: s("1"),
        token_address: s("addr"),
        token_id: s("7"),
        version: s("v1"),
        mcdata: s("mc"),
    }
}

fn feed(run: Publish, event: Event) -> (Publish, Action) {
    assert!(run.takes(&event));
    run.step(event)
}

/// Answers the clock and the insert, and returns the inserted record and the result.
fn finish(run: Publish, action: Action) -> (TrieTransaction, FdbResult) {
    assert!(matches!(action, Action::ReadClock));
    let (run, action) = feed(run, Event::Clock(1000));
    let record = match action {
        Action::Insert { record } => record,
        _ => panic!("expected an insert"),
    };
    let (run, action) = feed(run, Event::Inserted);
    assert_eq!(run.phase(), Phase::Done);
    match action {
        Action::Finish { result } => (record, result),
        _ => panic!("expected the end of the run"),
    }
}

fn receipt_text(record: &TrieTransaction) -> String {
    record.receipt.as_ref().expect("a receipt").error_text.clone()
}

#[test]
fn start_asks_for_key_type() {
    let (run, action) = Publish::start(request("contract", ""));
    assert_eq!(run.phase(), Phase::AwaitKeyType);
    match action {
        Action::QueryKeyType { public_key } => assert_eq!(public_key, "pk"),
        _ => panic!("expected a key type query"),
    }
}

#[test]
fn unknown_method_is_refused() {
    let (run, _) = Publish::start(request("delete", "p"));
    let (run, action) = feed(run, Event::KeyType(s("ed25519")));
    let (record, result) = finish(run, action);
    assert_eq!(receipt_text(&record), "invalid method: delete");
    assert_eq!(record.transaction.status, STATUS_FAILED);
    assert_eq!(result.transaction_hash, record.transaction.hash);
}

#[test]
fn unknown_key_type_overrides_method_error() {
    let (run, _) = Publish::start(request("delete", "p"));
    let (run, action) = feed(run, Event::KeyType(s("")));
    let (record, _) = finish(run, action);
    assert_eq!(receipt_text(&record), "Invalid encryption: pk");
}

#[test]
fn contract_registration_succeeds() {
    let (run, _) = Publish::start(request("contract", ""));
    let (run, action) = feed(run, Event::KeyType(s("secp256k1")));
    match &action {
        Action::ParseContract { data } => assert_eq!(data, "{\"cid\":\"c1\"}"),
        _ => panic!("expected the payload to be read"),
    }
    let (run, action) = feed(run, Event::ContractData(Some(TxContract { cid: s("c1") })));
    let pid = MetaContract::generate_program_id(s("c1"), s("pk"));
    match &action {
        Action::FilterTrie { trie_key, filter_key, filters } => {
            assert_eq!(trie_key, "metacontract");
            assert_eq!(filter_key, &pid);
            assert!(filters.is_none());
        },
        _ => panic!("expected a trie query"),
    }
    let (run, action) = feed(run, Event::TrieReply(TrieResult { success: false, result: s("") }));
    match &action {
        Action::VerifySignature { public_key, signature, message, encryption } => {
            assert_eq!(public_key, "pk");
            assert_eq!(signature, "sig");
            assert_eq!(message, "{\"cid\":\"c1\"}");
            assert_eq!(encryption, "secp256k1");
        },
        _ => panic!("expected a signature check"),
    }
    let (run, action) = feed(run, Event::Verified(true));
    let (record, result) = finish(run, action);
    assert!(record.receipt.is_none());
    assert_eq!(record.transaction.status, STATUS_PENDING);
    assert_eq!(record.transaction.program_id, pid);
    assert_eq!(record.transaction.data_key, "");
    assert_eq!(record.transaction.timestamp, 1000);
    let expected = Transaction::generate_hash(
        pid.clone(),
        s(""),
        s("{\"cid\":\"c1\"}"),
        s("pk"),
        s("al"),
        s("contract"),
        s("v1"),
        s("mc"),
        pid.clone(),
    );
    assert_eq!(record.transaction.hash, expected);
    assert_eq!(result.transaction_hash, expected);
}

#[test]
fn existing_contract_is_refused() {
    let (run, _) = Publish::start(request("contract", ""));
    let (run, _) = feed(run, Event::KeyType(s("ed25519")));
    let (run, _) = feed(run, Event::ContractData(Some(TxContract { cid: s("c1") })));
    let pid = MetaContract::generate_program_id(s("c1"), s("pk"));
    let (run, action) = feed(run, Event::TrieReply(TrieResult { success: true, result: s("[..]") }));
    match &action {
        Action::ParseMetaContracts { json } => assert_eq!(json, "[..]"),
        _ => panic!("expected the records to be read"),
    }
    let found = MetaContract { program_id: s("stored"), public_key: s("pk"), cid: s("c1") };
    let (run, action) = feed(run, Event::MetaContracts(Some(vec![found])));
    let (record, _) = finish(run, action);
    assert_eq!(receipt_text(&record), format!("Record found: {}", pid));
    assert_eq!(record.transaction.hash, hasher(format!("{}{}", pid, "{\"cid\":\"c1\"}pkalcontractv1mcstored")));
}

#[test]
fn unreadable_contract_records_are_refused() {
    let (run, _) = Publish::start(request("contract", ""));
    let (run, _) = feed(run, Event::KeyType(s("ed25519")));
    let (run, _) = feed(run, Event::ContractData(Some(TxContract { cid: s("c1") })));
    let pid = MetaContract::generate_program_id(s("c1"), s("pk"));
    let (run, _) = feed(run, Event::TrieReply(TrieResult { success: true, result: s("x") }));
    let (run, action) = feed(run, Event::MetaContracts(None));
    let (record, _) = finish(run, action);
    assert_eq!(receipt_text(&record), format!("Invalid data format for method type: {}", pid));
}

#[test]
fn unreadable_contract_payload_is_refused() {
    let (run, _) = Publish::start(request("contract", "given"));
    let (run, _) = feed(run, Event::KeyType(s("ed25519")));
    let (run, action) = feed(run, Event::ContractData(None));
    let (record, _) = finish(run, action);
    assert_eq!(receipt_text(&record), "Invalid data format for method type: given");
    assert_eq!(record.transaction.program_id, "given");
}

#[test]
fn metadata_without_program_id_is_refused() {
    let (run, _) = Publish::start(request("metadata", ""));
    let (run, action) = feed(run, Event::KeyType(s("ed25519")));
    let (record, _) = finish(run, action);
    assert_eq!(receipt_text(&record), "No program id");
}

#[test]
fn metadata_of_unknown_program_is_refused() {
    let (run, _) = Publish::start(request("metadata", "prog"));
    let (run, action) = feed(run, Event::KeyType(s("ed25519")));
    match &action {
        Action::FilterTrie { trie_key, filter_key, filters } => {
            assert_eq!(trie_key, "metacontract");
            assert_eq!(filter_key, "prog");
            assert!(filters.is_none());
        },
        _ => panic!("expected a trie query"),
    }
    let (run, action) = feed(run, Event::TrieReply(TrieResult { success: false, result: s("") }));
    let (record, _) = finish(run, action);
    assert_eq!(receipt_text(&record), "No program id");
    assert_eq!(record.transaction.data_key, Metadata::generate_data_key(s("1"), s("addr"), s("7")));
}

fn metadata_run_until_records() -> (Publish, String) {
    let (run, _) = Publish::start(request("metadata", "prog"));
    let (run, _) = feed(run, Event::KeyType(s("ed25519")));
    let (run, action) = feed(run, Event::TrieReply(TrieResult { success: true, result: s("") }));
    let data_key = Metadata::generate_data_key(s("1"), s("addr"), s("7"));
    let hash = Metadata::generate_hash(data_key.clone(), hasher(s("v1")), hasher(s("al")), s("pk"));
    match &action {
        Action::FilterTrie { trie_key, filter_key, filters } => {
            assert_eq!(trie_key, "metadata");
            assert_eq!(filter_key, "hash");
            assert_eq!(filters, &Some(hash));
        },
        _ => panic!("expected a metadata query"),
    }
    (run, data_key)
}

fn stored_metadata(public_key: &str) -> Metadata {
    Metadata {
        hash: s("h"),
        data_key: s("dk"),
        program_id: s("prog"),
        alias: s("al"),
        cid: s("stored-cid"),
        chain_id: s("1"),
        token_address: s("addr"),
        token_id: s("7"),
        version: s("v1"),
        public_key: s(public_key),
        loose: false,
    }
}

#[test]
fn metadata_of_the_owner_is_accepted() {
    let (run, data_key) = metadata_run_until_records();
    let (run, action) = feed(run, Event::TrieReply(TrieResult { success: true, result: s("[]") }));
    assert!(matches!(action, Action::ParseMetadata { .. }));
    let (run, action) = feed(run, Event::MetadataRecords(Some(vec![stored_metadata("pk")])));
    assert!(matches!(action, Action::VerifySignature { .. }));
    let (run, action) = feed(run, Event::Verified(true));
    let (record, _) = finish(run, action);
    assert!(record.receipt.is_none());
    assert_eq!(record.transaction.data_key, data_key);
    assert_eq!(record.transaction.program_id, "prog");
    assert_eq!(
        record.transaction.hash,
        Transaction::generate_hash(
            s("prog"),
            data_key,
            s("{\"cid\":\"c1\"}"),
            s("pk"),
            s("al"),
            s("metadata"),
            s("v1"),
            s("mc"),
            s("stored-cid")
        )
    );
}

#[test]
fn metadata_of_another_owner_is_refused() {
    let (run, _) = metadata_run_until_records();
    let (run, _) = feed(run, Event::TrieReply(TrieResult { success: true, result: s("[]") }));
    let (run, action) = feed(run, Event::MetadataRecords(Some(vec![stored_metadata("other")])));
    let (record, _) = finish(run, action);
    assert_eq!(receipt_text(&record), "not owner of data_key: pk");
}

#[test]
fn new_metadata_goes_to_signature_check() {
    let (run, _) = metadata_run_until_records();
    let (run, action) = feed(run, Event::TrieReply(TrieResult { success: false, result: s("") }));
    assert!(matches!(action, Action::VerifySignature { .. }));
    let (run, action) = feed(run, Event::Verified(true));
    let (record, _) = finish(run, action);
    assert!(record.receipt.is_none());
}

#[test]
fn unsupported_key_type_is_refused() {
    let (run, _) = Publish::start(request("clone", "p"));
    let (run, action) = feed(run, Event::KeyType(s("rsa")));
    let (record, _) = finish(run, action);
    assert_eq!(receipt_text(&record), "Not supported encryption type: rsa");
}

#[test]
fn bad_signature_is_refused() {
    let (run, _) = Publish::start(request("cron", "p"));
    let (run, action) = feed(run, Event::KeyType(s("secp256k1")));
    assert!(matches!(action, Action::VerifySignature { .. }));
    let (run, action) = feed(run, Event::Verified(false));
    let (record, result) = finish(run, action);
    assert_eq!(receipt_text(&record), "not owner of data_key: pk");
    let receipt = record.receipt.as_ref().unwrap();
    assert_eq!(receipt.hash, record.transaction.hash);
    assert_eq!(receipt.program_id, "p");
    assert_eq!(receipt.status, STATUS_FAILED);
    assert_eq!(receipt.timestamp, 1000);
    assert_eq!(receipt.data, "{\"cid\":\"c1\"}");
    assert_eq!(result.transaction_hash, record.transaction.hash);
}

#[test]
fn run_takes_only_the_awaited_answer() {
    let (run, _) = Publish::start(request("contract", ""));
    assert!(!run.takes(&Event::Verified(true)));
    assert!(!run.takes(&Event::Clock(1)));
    assert!(!run.takes(&Event::Inserted));
    assert!(run.takes(&Event::KeyType(s("x"))));
    let (run, _) = run.step(Event::KeyType(s("ed25519")));
    let (run, _) = run.step(Event::ContractData(Some(TxContract { cid: s("c") })));
    let (run, _) = run.step(Event::TrieReply(TrieResult { success: true, result: s("") }));
    assert!(!run.takes(&Event::MetaContracts(Some(vec![]))));
    assert!(run.takes(&Event::MetaContracts(None)));
}

#[test]
fn record_without_error_has_no_receipt() {
    let req = request("clone", "p");
    let record = build_record(&req, s("p"), s("dk"), s("prev"), &None, 42);
    assert!(record.receipt.is_none());
    assert_eq!(record.transaction.status, STATUS_PENDING);
    assert_eq!(record.transaction.timestamp, 42);
    assert_eq!(record.transaction.data_key, "dk");
}

#[test]
fn record_with_error_is_failed_with_receipt() {
    let req = request("clone", "p");
    let record = build_record(&req, s("p"), s("dk"), s("prev"), &Some(ServiceError::NoProgramId), 42);
    assert_eq!(record.transaction.status, STATUS_FAILED);
    let receipt = record.receipt.clone().unwrap();
    assert_eq!(receipt.error_text, "No program id");
    assert_eq!(receipt.hash, record.transaction.hash);
    assert_eq!(receipt.timestamp, 42);
}

#[test]
fn host_commands() {
    assert_eq!(filter_trie_command(s("tx"), s("123"), None), vec![s("filter_trie"), s("tx"), s("123")]);
    assert_eq!(
        filter_trie_command(s("metadata"), s("hash"), Some(s("h"))),
        vec![s("filter_trie"), s("metadata"), s("hash"), s("h")]
    );
    assert_eq!(insert_tx_command(s("{}")), vec![s("insert_tx"), s("{}")]);
    assert_eq!(get_tx_command(), vec![s("get_pending_tx")]);
}

#[test]
fn finished_run_takes_nothing() {
    let (run, _) = Publish::start(request("clone", "p"));
    let (run, _) = feed(run, Event::KeyType(s("ed25519")));
    let (run, _) = feed(run, Event::Verified(true));
    let (run, _) = feed(run, Event::Clock(5));
    let (run, action) = feed(run, Event::Inserted);
    assert!(matches!(action, Action::Finish { .. }));
    assert_eq!(run.phase(), Phase::Done);
    assert!(!run.takes(&Event::Inserted));
    assert!(!run.takes(&Event::Clock(6)));
    assert!(!run.takes(&Event::KeyType(s("ed25519"))));
    assert!(!run.takes(&Event::Verified(true)));
    assert!(!run.takes(&Event::TrieReply(TrieResult { success: true, result: s("") })));
}
