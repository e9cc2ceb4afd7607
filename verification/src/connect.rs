//! The test client's authentication packet, whose body is a JSON object.

use serde_json::Map as JsonMap;
use serde_json::Value;
use vstd::prelude::*;
use vstd::string::StringExecFns;
use vstd::utf8::encode_utf8;

verus! {

#[verifier::external_type_specification]
#[verifier::external_body]
#[verifier::reject_recursive_types(K)]
#[verifier::reject_recursive_types(V)]
pub struct ExJsonMap<K, V>(serde_json::Map<K, V>);

#[verifier::external_type_specification]
#[verifier::external_body]
pub struct ExJsonValue(Value);

/// A JSON object.
pub type JsonObject = JsonMap<String, Value>;

/// The entries of a JSON object whose values are all strings: each key's text
/// to its value's text.
pub uninterp spec fn json_string_entries(object: JsonObject) -> Map<
    Seq<char>,
    Seq<char>,
>;

/// The compact text that serde_json writes for an object of string values
/// with these entries.
pub uninterp spec fn json_object_text(entries: Map<Seq<char>, Seq<char>>) -> Seq<char>;

/// Calls `serde_json::Map::new`, which makes an empty map: the claim.
#[verifier::external_body]
fn json_object_new() -> (object: JsonObject)
    ensures
        json_string_entries(object).dom() == Set::<Seq<char>>::empty(),
{
    serde_json::Map::new()
}

/// Calls `serde_json::Map::insert` with the value as a JSON string. As the
/// source shows (a `BTreeMap` insert), the key then maps to that value and the
/// other entries stay: the claim.
#[verifier::external_body]
fn json_object_insert(object: &mut JsonObject, key: String, value: String)
    ensures
        json_string_entries(*final(object)) == json_string_entries(*old(object)).insert(
            key@,
            value@,
        ),
{
    object.insert(key, Value::String(value));
}

/// Calls `to_string` on the object as a `serde_json::Value`. Claims that the
/// text is named `json_object_text` of the object's entries.
#[verifier::external_body]
fn json_object_to_text(object: JsonObject) -> (text: String)
    ensures
        text@ == json_object_text(json_string_entries(object)),
{
    Value::Object(object).to_string()
}

/// The entries of the test client's authentication object.
pub open spec fn test_auth_entries(id: Seq<char>) -> Map<Seq<char>, Seq<char>> {
    map![
        "id"@ => id,
        "username"@ => "tester "@ + id,
        "session"@ => id,
        "tag"@ => "test"@,
    ]
}

/// The test object has exactly the keys `id`, `username`, `session` and
/// `tag`: the id under `id` and `session`, `tester ` followed by the id under
/// `username`, and `test` under `tag`.
pub proof fn lemma_test_auth_entries(id: Seq<char>)
    ensures
        test_auth_entries(id).dom() == set!["id"@, "username"@, "session"@, "tag"@],
        test_auth_entries(id)["id"@] == id,
        test_auth_entries(id)["username"@] == "tester "@ + id,
        test_auth_entries(id)["session"@] == id,
        test_auth_entries(id)["tag"@] == "test"@,
        test_auth_entries(id)["username"@].len() == id.len() + 7,
        test_auth_entries(id)["username"@].subrange(7, id.len() + 7int) == id,
{
    reveal_strlit("id");
    reveal_strlit("username");
    reveal_strlit("session");
    reveal_strlit("tag");
    reveal_strlit("tester ");
    reveal_strlit("test");
    let e = test_auth_entries(id);
    assert("id"@.len() == 2 && "username"@.len() == 8 && "session"@.len() == 7);
    assert("id"@ != "username"@);
    assert("id"@ != "session"@);
    assert("id"@ != "tag"@);
    assert("username"@ != "session"@);
    assert("username"@ != "tag"@);
    assert("session"@ != "tag"@);
    assert(e.dom() =~= set!["id"@, "username"@, "session"@, "tag"@]);
    assert(("tester "@ + id).subrange(7, id.len() + 7int) =~= id);
}

/// The test client's authentication packet: `c:`, the JSON object with the
/// id, the user name `tester <id>`, the session (the id) and the tag `test`,
/// then `:`.
pub fn test_auth_packet(id: String) -> (packet: Vec<u8>)
    ensures
        packet@ == seq![99u8, 58u8] + encode_utf8(json_object_text(test_auth_entries(id@))) + seq![
            58u8,
        ],
{
    let mut username = String::from_str("tester ");
    username.append(id.as_str());
    let mut object = json_object_new();
    json_object_insert(&mut object, String::from_str("id"), id.clone());
    json_object_insert(&mut object, String::from_str("username"), username);
    json_object_insert(&mut object, String::from_str("session"), id.clone());
    json_object_insert(&mut object, String::from_str("tag"), String::from_str("test"));
    let ghost entries = json_string_entries(object);
    assert(entries =~= test_auth_entries(id@));
    let text = json_object_to_text(object);
    let mut packet: Vec<u8> = Vec::new();
    packet.push(99u8);
    packet.push(58u8);
    packet.extend_from_slice(text.as_str().as_bytes());
    packet.push(58u8);
    packet
}

} // verus!
