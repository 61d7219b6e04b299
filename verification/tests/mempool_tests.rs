use jds_mempool::mempool::{BlockHash, JDsMempool, JdsMempoolError, MempoolUpdate, TransacrtionWithHash};
use jds_mempool::rpc::RpcError;
use jds_mempool::transaction::{decode_raw_transaction, RawTransactionError};

const GENESIS_COINBASE: &str = "01000000010000000000000000000000000000000000000000000000000000000000000000ffffffff4d04ffff001d0104455468652054696d65732030332f4a616e2f32303039204368616e63656c6c6f72206f6e206272696e6b206f66207365636f6e64206261696c6f757420666f722062616e6b73ffffffff0100f2052a01000000434104678afdb0fe5548271967f1a67130b7105cd6a828e03909a67962e0ea1f61deb649f6bc3f4cef38c4f35504e51ec112de5c384df7ba0b8d578a4c702b6bf11d5fac00000000";
const GENESIS_COINBASE_TXID: &str = "4a5e1e4baab89f3a32518a88c31bc87f618f76673e2cc77ab2127b7afdeda33b";

fn genesis_coinbase() -> bitcoin::Transaction {
    decode_raw_transaction(GENESIS_COINBASE).unwrap()
}

#[test]
fn decodes_a_raw_transaction() {
    let entry = TransacrtionWithHash::from_transaction(genesis_coinbase());
    assert_eq!(entry.id().to_string(), GENESIS_COINBASE_TXID);
    assert_eq!(entry.tx().input.len(), 1);
}

#[test]
fn decodes_upper_case_hex() {
    let upper = GENESIS_COINBASE.to_uppercase();
    let tx = decode_raw_transaction(&upper).unwrap();
    assert_eq!(tx, genesis_coinbase());
}

#[test]
fn odd_length_hex_is_refused() {
    assert_eq!(decode_raw_transaction("abc").unwrap_err(), RawTransactionError::Hex);
}

#[test]
fn non_hex_character_is_refused() {
    assert_eq!(decode_raw_transaction("0g").unwrap_err(), RawTransactionError::Hex);
}

#[test]
fn hex_that_is_no_transaction_is_refused() {
    assert_eq!(decode_raw_transaction("00").unwrap_err(), RawTransactionError::Consensus);
    assert_eq!(decode_raw_transaction("").unwrap_err(), RawTransactionError::Consensus);
    // A valid transaction with a trailing byte is refused too.
    let trailing = format!("{}00", GENESIS_COINBASE);
    assert_eq!(decode_raw_transaction(&trailing).unwrap_err(), RawTransactionError::Consensus);
}

#[test]
fn new_mempool_is_empty() {
    let m = JDsMempool::new("http://127.0.0.1:18332", "username".to_string(), "password".to_string());
    assert!(m.mempool.is_empty());
}

#[test]
fn client_needs_http_in_the_url() {
    let m = JDsMempool::new("http://127.0.0.1:18332", "u".to_string(), "p".to_string());
    let client = m.get_client().unwrap();
    assert_eq!(client.url(), "http://127.0.0.1:18332");
    assert_eq!(client.authorization(), "Basic dTpw");
    let no = JDsMempool::new("127.0.0.1:18332", "u".to_string(), "p".to_string());
    assert!(no.get_client().is_none());
    let short = JDsMempool::new("htt", "u".to_string(), "p".to_string());
    assert!(short.get_client().is_none());
    let inside = JDsMempool::new("xxhttpxx", "u".to_string(), "p".to_string());
    assert!(inside.get_client().is_some());
    let at_end = JDsMempool::new("\u{e9}http", "u".to_string(), "p".to_string());
    assert!(at_end.get_client().is_some());
    let upper = JDsMempool::new("HTTP://host", "u".to_string(), "p".to_string());
    assert!(upper.get_client().is_none());
}

#[test]
fn begin_update_without_client_is_no_client() {
    let m = JDsMempool::new("ftp://host", "u".to_string(), "p".to_string());
    assert!(matches!(m.begin_update(), Err(JdsMempoolError::NoClient)));
    let ok = JDsMempool::new("http://host", "u".to_string(), "p".to_string());
    assert!(ok.begin_update().is_ok());
}

#[test]
fn failed_listing_is_rpc_error() {
    let r = MempoolUpdate::from_listing(Err(RpcError::Http("refused".to_string())));
    match r {
        Err(JdsMempoolError::RpcError(RpcError::Http(m))) => assert_eq!(m, "refused"),
        _ => panic!("expected the listing error"),
    }
}

#[test]
fn update_keeps_fetched_transactions_in_order() {
    let mut m = JDsMempool::new("http://host", "u".to_string(), "p".to_string());
    let ids = vec!["a".to_string(), "b".to_string(), "c".to_string()];
    let mut update = MempoolUpdate::from_listing(Ok(ids)).unwrap();
    assert_eq!(update.next_txid(), Some("a"));
    update.record(Ok(genesis_coinbase()));
    assert_eq!(update.next_txid(), Some("b"));
    update.record(Err(RpcError::Other("gone".to_string())));
    assert_eq!(update.next_txid(), Some("c"));
    update.record(Ok(genesis_coinbase()));
    assert_eq!(update.next_txid(), None);
    assert!(m.finish_update(update).is_ok());
    assert_eq!(m.mempool.len(), 2);
    assert_eq!(m.mempool[0].id().to_string(), GENESIS_COINBASE_TXID);
}

#[test]
fn update_with_no_fetched_transaction_is_refused_and_keeps_mempool() {
    let mut m = JDsMempool::new("http://host", "u".to_string(), "p".to_string());
    let mut first = MempoolUpdate::from_listing(Ok(vec!["a".to_string()])).unwrap();
    first.record(Ok(genesis_coinbase()));
    m.finish_update(first).unwrap();
    assert_eq!(m.mempool.len(), 1);

    let mut second = MempoolUpdate::from_listing(Ok(vec!["x".to_string(), "y".to_string()])).unwrap();
    second.record(Err(RpcError::Other("gone".to_string())));
    second.record(Err(RpcError::Http("down".to_string())));
    assert!(matches!(m.finish_update(second), Err(JdsMempoolError::EmptyMempool)));
    assert_eq!(m.mempool.len(), 1);
}

#[test]
fn empty_listing_is_empty_mempool() {
    let mut m = JDsMempool::new("http://host", "u".to_string(), "p".to_string());
    let update = MempoolUpdate::from_listing(Ok(Vec::new())).unwrap();
    assert_eq!(update.next_txid(), None);
    assert!(matches!(m.finish_update(update), Err(JdsMempoolError::EmptyMempool)));
    assert!(m.mempool.is_empty());
}

#[test]
fn mempool_error_from_rpc_error() {
    let e = JdsMempoolError::from(RpcError::Deserialization("x".to_string()));
    assert!(matches!(e, JdsMempoolError::RpcError(RpcError::Deserialization(_))));
}

#[test]
fn hashes_compare_by_bytes() {
    assert_eq!(jds_mempool::mempool::Hash([1u8; 32]), jds_mempool::mempool::Hash([1u8; 32]));
    assert_ne!(jds_mempool::mempool::Hash([1u8; 32]), jds_mempool::mempool::Hash([2u8; 32]));
    assert!(BlockHash(jds_mempool::mempool::Hash([0u8; 32])) == BlockHash(jds_mempool::mempool::Hash([0u8; 32])));
}

#[test]
fn each_kept_entry_carries_its_own_txid() {
    let mut m = JDsMempool::new("http://host", "u".to_string(), "p".to_string());
    let mut update = MempoolUpdate::from_listing(Ok(vec!["a".to_string(), "b".to_string()])).unwrap();
    update.record(Err(RpcError::Other("gone".to_string())));
    update.record(Ok(genesis_coinbase()));
    m.finish_update(update).unwrap();
    assert_eq!(m.mempool.len(), 1);
    for entry in &m.mempool {
        assert_eq!(*entry.id(), entry.tx().txid());
    }
    let copy = m.clone();
    assert_eq!(copy.mempool[0].id().to_string(), GENESIS_COINBASE_TXID);
    assert_eq!(copy.mempool[0].tx(), m.mempool[0].tx());
}
