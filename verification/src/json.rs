use vstd::prelude::*;

verus! {

/// `serde_json::Error`, carried through unread.
#[verifier::external_type_specification]
#[verifier::external_body]
pub struct JsonError(serde_json::Error);

/// The JSON text that `serde_json::to_string` writes for a list of strings.
pub uninterp spec fn json_string_list(items: Seq<Seq<char>>) -> Seq<char>;

/// What `serde_json::from_str` reads from a text as a list of strings; `None`
/// where the text is not a JSON array of strings.
pub uninterp spec fn json_string_list_parse(text: Seq<char>) -> Option<Seq<Seq<char>>>;

/// Calls `serde_json::to_string` on a list of strings. Claimed: it succeeds
/// (a `Vec<String>` holds neither a failing `Serialize` impl nor a map, and
/// the writer is a `Vec<u8>`, which never fails), its text is the named
/// `json_string_list` of the strings, and `serde_json::from_str` reads that
/// text back as the same strings.
#[verifier::external_body]
fn to_json_string_list(items: &Vec<String>) -> (text: Result<String, serde_json::Error>)
    ensures
        text is Ok,
        text matches Ok(t) ==> t@ == json_string_list(items.deep_view())
            && json_string_list_parse(t@) == Some(items.deep_view()),
{
    serde_json::to_string(items)
}

/// Calls `serde_json::from_str` for a list of strings. Claimed: the result is
/// the named `json_string_list_parse` of the text.
#[verifier::external_body]
fn from_json_string_list(text: &str) -> (items: Result<Vec<String>, serde_json::Error>)
    ensures
        items matches Ok(v) ==> json_string_list_parse(text@) == Some(v.deep_view()),
        items is Err ==> json_string_list_parse(text@) is None,
{
    serde_json::from_str(text)
}

/// A list of addresses written as a JSON array of strings.
pub fn encode_addresses(addresses: &Vec<String>) -> (text: String)
    ensures
        text@ == json_string_list(addresses.deep_view()),
        json_string_list_parse(text@) == Some(addresses.deep_view()),
{
    match to_json_string_list(addresses) {
        Ok(text) => text,
        Err(_) => String::new(),
    }
}

/// A list of addresses read from a JSON array of strings; `None` where the
/// text is not one.
pub fn decode_addresses(text: &str) -> (addresses: Option<Vec<String>>)
    ensures
        addresses matches Some(v) ==> json_string_list_parse(text@) == Some(v.deep_view()),
        addresses is None ==> json_string_list_parse(text@) is None,
{
    match from_json_string_list(text) {
        Ok(v) => Some(v),
        Err(_) => None,
    }
}

} // verus!
