use transaction::digest::hasher;
use transaction::meta_contract::MetaContract;
use transaction::metadata::Metadata;
use transaction::transaction::Transaction;

fn s(text: &str) -> String {
    text.to_string()
}

#[test]
fn hasher_is_base58_of_sha256() {
    assert_eq!(hasher(s("hello world")), "DULfJyE3WQqNxy3ymuhAChyNR3yufT88pmqvAazKFMG4");
    assert_eq!(hasher(s("")), "GKot5hBsd81kMupNCXHaqbhv3huEbxAFMLnpcX2hniwn");
    assert_eq!(hasher(s("abc")), "DYu3G8aGTMBW1WrTw76zxQJQU4DHLw9MLyy7peG4LKkY");
}

#[test]
fn hasher_hashes_utf8_bytes() {
    assert_eq!(hasher(s("héllo")), "54KSvNF3zF8iZj54oQgRhaTdpUmJCA8sq9YTGxJJfi96");
}

#[test]
fn program_id_is_digest_of_cid_and_key() {
    assert_eq!(
        MetaContract::generate_program_id(s("cid-1"), s("pk-1")),
        "NVtV9bMizzaRDuNvFqyf9WcrgFPE85tQZLDGwrEFxGR"
    );
    assert_eq!(
        MetaContract::generate_program_id(s("cid-1"), s("pk-1")),
        hasher(s("cid-1pk-1"))
    );
}

#[test]
fn metadata_hash_joins_fields() {
    assert_eq!(Metadata::generate_hash(s("dk"), s("v1"), s("al"), s("pk")), "dkv1alpk");
    assert_eq!(Metadata::generate_hash(s(""), s(""), s(""), s("")), "");
}

#[test]
fn data_key_is_digest_of_token() {
    assert_eq!(
        Metadata::generate_data_key(s("1"), s("ethereum0xabc"), s("7")),
        "YJaqmwASxEoK8jkefmuFFM52ZtusSHgkDP48ndnmnwA"
    );
}

#[test]
fn metadata_new_hashes_given_key_and_stores_derived_key() {
    let m = Metadata::new(
        s("given"),
        s("prog"),
        s("al"),
        s("cid"),
        s("pk"),
        s("1"),
        s("ethereum0xabc"),
        s("7"),
        s("v1"),
        true,
    );
    assert_eq!(m.hash, "givenv1alpk");
    assert_eq!(m.data_key, "YJaqmwASxEoK8jkefmuFFM52ZtusSHgkDP48ndnmnwA");
    assert_eq!(m.program_id, "prog");
    assert_eq!(m.alias, "al");
    assert_eq!(m.cid, "cid");
    assert_eq!(m.chain_id, "1");
    assert_eq!(m.token_address, "ethereum0xabc");
    assert_eq!(m.token_id, "7");
    assert_eq!(m.version, "v1");
    assert_eq!(m.public_key, "pk");
    assert!(m.loose);
}

fn make_tx(timestamp: u64, chain_id: &str, status: i64) -> Transaction {
    Transaction::new(
        s("prog"),
        s("dk"),
        s("data"),
        s("pk"),
        s("al"),
        timestamp,
        s("metadata"),
        s(chain_id),
        s("addr"),
        s("tok"),
        s("v1"),
        s("mc"),
        status,
        s("prev"),
    )
}

#[test]
fn transaction_hash_covers_content_and_previous() {
    let tx = make_tx(5, "1", 0);
    assert_eq!(tx.hash, hasher(s("progdkdatapkalmetadatav1mcprev")));
    assert_eq!(
        tx.hash,
        Transaction::generate_hash(
            s("prog"),
            s("dk"),
            s("data"),
            s("pk"),
            s("al"),
            s("metadata"),
            s("v1"),
            s("mc"),
            s("prev")
        )
    );
    assert_eq!(tx.method, "metadata");
    assert_eq!(tx.program_id, "prog");
    assert_eq!(tx.data_key, "dk");
    assert_eq!(tx.data, "data");
    assert_eq!(tx.public_key, "pk");
    assert_eq!(tx.alias, "al");
    assert_eq!(tx.timestamp, 5);
    assert_eq!(tx.chain_id, "1");
    assert_eq!(tx.token_address, "addr");
    assert_eq!(tx.token_id, "tok");
    assert_eq!(tx.version, "v1");
    assert_eq!(tx.mcdata, "mc");
    assert_eq!(tx.status, 0);
}

#[test]
fn transaction_hash_ignores_time_chain_and_status() {
    let a = make_tx(5, "1", 0);
    let b = make_tx(99, "137", 2);
    assert_eq!(a.hash, b.hash);
}

#[test]
fn transaction_hash_depends_on_previous_content() {
    let a = Transaction::generate_hash(
        s("p"), s("k"), s("d"), s("pk"), s("a"), s("m"), s("v"), s("mc"), s("one"),
    );
    let b = Transaction::generate_hash(
        s("p"), s("k"), s("d"), s("pk"), s("a"), s("m"), s("v"), s("mc"), s("two"),
    );
    assert_ne!(a, b);
}
