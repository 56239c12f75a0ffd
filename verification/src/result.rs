use vstd::prelude::*;

verus! {

/// The answer of the trie service to a query.
#[derive(Debug, Clone, PartialEq, Eq)]
pub struct TrieResult {
    pub success: bool,
    pub result: String,
}

/// The abstract value of a [`TrieResult`].
pub struct TrieResultView {
    pub success: bool,
    pub result: Seq<char>,
}

impl View for TrieResult {
    type V = TrieResultView;

    open spec fn view(&self) -> TrieResultView {
        TrieResultView { success: self.success, result: self.result@ }
    }
}

impl TrieResult {
    /// The answer that stands for a query that could not be answered.
    pub fn unavailable() -> (r: Self)
        ensures
            !r.success,
            r.result@ == Seq::<char>::empty(),
    {
        TrieResult { success: false, result: String::new() }
    }

    /// The answer of a query whose reply was read as `parsed`: the reply
    /// itself, or the unavailable answer when the reply was not a trie answer.
    pub fn from_parsed(parsed: Option<TrieResult>) -> (r: Self)
        ensures
            parsed matches Some(p) ==> r@ == p@,
            parsed is None ==> !r.success && r.result@ == Seq::<char>::empty(),
    {
        match parsed {
            Some(p) => p,
            None => Self::unavailable(),
        }
    }
}

/// What publishing a transaction returns to the client.
#[derive(Debug, Clone, PartialEq, Eq)]
pub struct FdbResult {
    pub transaction_hash: String,
}

/// Whether a character is white space in the sense of Unicode's `White_Space`
/// property.
pub open spec fn is_white_space(c: char) -> bool {
    let x = c as int;
    (0x09 <= x <= 0x0d) || x == 0x20 || x == 0x85 || x == 0xa0 || x == 0x1680 || (0x2000 <= x
        <= 0x200a) || x == 0x2028 || x == 0x2029 || x == 0x202f || x == 0x205f || x == 0x3000
}

/// A text without its leading white space.
pub open spec fn trim_start(s: Seq<char>) -> Seq<char>
    decreases s.len(),
{
    if s.len() > 0 && is_white_space(s[0]) {
        trim_start(s.drop_first())
    } else {
        s
    }
}

/// A text without its trailing white space.
pub open spec fn trim_end(s: Seq<char>) -> Seq<char>
    decreases s.len(),
{
    if s.len() > 0 && is_white_space(s.last()) {
        trim_end(s.drop_last())
    } else {
        s
    }
}

/// A text without its leading and trailing white space.
pub open spec fn spec_trim(s: Seq<char>) -> Seq<char> {
    trim_end(trim_start(s))
}

/// The string that a JSON text denotes, as serde_json reads it: `None` when
/// the text is not a JSON string.
pub uninterp spec fn json_string_of(text: Seq<char>) -> Option<Seq<char>>;

/// Calls `str::trim` and copies the result.
/// Trusted: std documents that `trim` removes the leading and trailing white
/// space, white space being Unicode's `White_Space` property.
#[verifier::external_body]
fn trim(text: &str) -> (r: String)
    ensures
        r@ == spec_trim(text@),
{
    text.trim().to_string()
}

/// Calls `serde_json::from_str::<String>`.
/// Trusted: the result is the string that the JSON text denotes, and `None`
/// exactly when the text is not a JSON string; it depends on the text alone.
#[verifier::external_body]
fn json_string(text: &str) -> (r: Option<String>)
    ensures
        r is None <==> json_string_of(text@) is None,
        r matches Some(s) ==> s@ == json_string_of(text@)->0,
{
    serde_json::from_str::<String>(text).ok()
}

/// Reads the output of a trie host call. `None` stands for a call that failed
/// and gives `None`. A call that succeeded gives the JSON string that its
/// trimmed output denotes, which holds the trie's answer as JSON text, or
/// `Some(None)` when the output is not a JSON string.
pub fn trie_reply_json(output: Option<String>) -> (r: Option<Option<String>>)
    ensures
        output is None ==> r is None,
        output matches Some(t) ==> {
            &&& r matches Some(j)
            &&& (j is None <==> json_string_of(spec_trim(t@)) is None)
            &&& (j matches Some(s) ==> s@ == json_string_of(spec_trim(t@))->0)
        },
{
    match output {
        None => None,
        Some(text) => {
            let trimmed = trim(text.as_str());
            Some(json_string(trimmed.as_str()))
        },
    }
}

} // verus!
