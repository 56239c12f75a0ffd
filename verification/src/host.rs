use vstd::prelude::*;

verus! {

/// The command that asks the trie host for the records of `trie_key` under
/// `filter_key`, narrowed by `filters` when there are any.
pub open spec fn spec_filter_trie_command(
    trie_key: Seq<char>,
    filter_key: Seq<char>,
    filters: Option<Seq<char>>,
) -> Seq<Seq<char>> {
    match filters {
        Some(f) => seq!["filter_trie"@, trie_key, filter_key, f],
        None => seq!["filter_trie"@, trie_key, filter_key],
    }
}

/// Builds the command that queries the trie host.
pub fn filter_trie_command(trie_key: String, filter_key: String, filters: Option<String>) -> (cmd:
    Vec<String>)
    ensures
        cmd@.map_values(|a: String| a@) == spec_filter_trie_command(
            trie_key@,
            filter_key@,
            match filters {
                Some(f) => Some(f@),
                None => None,
            },
        ),
{
    let mut cmd: Vec<String> = Vec::new();
    cmd.push(String::from_str("filter_trie"));
    cmd.push(trie_key);
    cmd.push(filter_key);
    match filters {
        Some(f) => cmd.push(f),
        None => {},
    }
    cmd
}

/// Builds the command that inserts a record, given as JSON text, into the trie.
pub fn insert_tx_command(record_json: String) -> (cmd: Vec<String>)
    ensures
        cmd@.map_values(|a: String| a@) == seq!["insert_tx"@, record_json@],
{
    let mut cmd: Vec<String> = Vec::new();
    cmd.push(String::from_str("insert_tx"));
    cmd.push(record_json);
    cmd
}

/// Builds the command that asks the trie host for the pending transactions.
pub fn get_tx_command() -> (cmd: Vec<String>)
    ensures
        cmd@.map_values(|a: String| a@) == seq!["get_pending_tx"@],
{
    let mut cmd: Vec<String> = Vec::new();
    cmd.push(String::from_str("get_pending_tx"));
    cmd
}

} // verus!
