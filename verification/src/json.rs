//! Messages between the windows and the tray, which say whether a recording runs.
use vstd::prelude::*;

verus! {

/// A member of an object in a document: its name, and its value where that is true or false.
#[derive(Debug, PartialEq, Eq)]
pub struct JsonMember {
    pub name: String,
    pub flag: Option<bool>,
}

/// The names of the members of an object, each with its value where that is true or false.
pub open spec fn members_model(members: Seq<JsonMember>) -> Map<Seq<char>, Option<bool>>
    decreases members.len(),
{
    if members.len() == 0 {
        Map::empty()
    } else {
        members_model(members.drop_last()).insert(members.last().name@, members.last().flag)
    }
}

/// What a text holds when it is read as JSON, as far as it matters here.
#[derive(Debug, PartialEq, Eq)]
pub enum JsonDocument {
    /// No JSON.
    Invalid,
    Object(Vec<JsonMember>),
    Text(String),
    /// A number, a list, a truth value or nothing.
    Other,
}

/// What a [`JsonDocument`] says.
pub enum JsonModel {
    Invalid,
    Object(Map<Seq<char>, Option<bool>>),
    Text(Seq<char>),
    Other,
}

impl View for JsonDocument {
    type V = JsonModel;

    open spec fn view(&self) -> JsonModel {
        match self {
            JsonDocument::Invalid => JsonModel::Invalid,
            JsonDocument::Object(members) => JsonModel::Object(members_model(members@)),
            JsonDocument::Text(t) => JsonModel::Text(t@),
            JsonDocument::Other => JsonModel::Other,
        }
    }
}

/// What a text holds when it is read as JSON.
pub uninterp spec fn json_document(text: Seq<char>) -> JsonModel;

/// `serde_json::from_str` into a `serde_json::Value`: whether the text is JSON, and whether the
/// value is an object, a text or something else. Of an object the names of its members are given,
/// each with what `Value::as_bool` makes of its value. Which text gives which document is left to the
/// name.
#[verifier::external_body]
fn read_json(text: &str) -> (r: JsonDocument)
    ensures
        r@ == json_document(text@),
{
    match serde_json::from_str::<serde_json::Value>(text) {
        Ok(serde_json::Value::Object(map)) => JsonDocument::Object(
            map.iter().map(|(k, v)| JsonMember { name: k.clone(), flag: v.as_bool() }).collect(),
        ),
        Ok(serde_json::Value::String(inner)) => JsonDocument::Text(inner),
        Ok(_) => JsonDocument::Other,
        Err(_) => JsonDocument::Invalid,
    }
}

/// Whether a document is an object with the member `recording`, and that is true.
pub open spec fn says_recording(document: JsonModel) -> bool {
    match document {
        JsonModel::Object(members) => members.contains_key("recording"@) && members["recording"@]
            == Some(true),
        _ => false,
    }
}

/// Whether a document is an object with the member `recording`, and that is true.
pub fn recording_flag(document: &JsonDocument) -> (r: bool)
    ensures
        r == says_recording(document@),
{
    match document {
        JsonDocument::Object(members) => {
            let mut n: usize = members.len();
            assert(members@.take(n as int) =~= members@);
            while n > 0
                invariant
                    n <= members@.len(),
                    says_recording(document@) == says_recording(
                        JsonModel::Object(members_model(members@.take(n as int))),
                    ),
                decreases n,
            {
                let ghost front = members@.take(n as int);
                n = n - 1;
                assert(front.last() == members@[n as int]);
                assert(front.drop_last() =~= members@.take(n as int));
                if *members[n].name.as_str() == *"recording" {
                    return match members[n].flag {
                        Some(flag) => flag,
                        None => false,
                    };
                }
            }
            false
        },
        _ => false,
    }
}

/// Whether a message says that a recording runs, where `inner` is what the text in it holds: the
/// object may stand in the message itself, or in a text in it.
pub open spec fn message_says_recording(outer: JsonModel, inner: JsonModel) -> bool {
    match outer {
        JsonModel::Object(_) => says_recording(outer),
        JsonModel::Text(_) => says_recording(inner),
        _ => false,
    }
}

/// What the text in a document holds, where the document is a text.
pub open spec fn document_within(outer: JsonModel) -> JsonModel {
    match outer {
        JsonModel::Text(t) => json_document(t),
        _ => JsonModel::Invalid,
    }
}

/// Whether a message says that a recording runs, where it is known what it holds.
pub fn message_flag(outer: &JsonDocument, inner: &JsonDocument) -> (r: bool)
    ensures
        r == message_says_recording(outer@, inner@),
{
    match outer {
        JsonDocument::Object(_) => recording_flag(outer),
        JsonDocument::Text(_) => recording_flag(inner),
        _ => false,
    }
}

/// Whether a message says that a recording runs. A message that cannot be read says that none does.
pub fn parse_recording_flag(payload: &str) -> (r: bool)
    ensures
        r == message_says_recording(
            json_document(payload@),
            document_within(json_document(payload@)),
        ),
{
    let outer = read_json(payload);
    let inner = match &outer {
        JsonDocument::Text(t) => read_json(t.as_str()),
        _ => JsonDocument::Invalid,
    };
    message_flag(&outer, &inner)
}

/// A message that is an object says the same where it is wrapped into a text once.
pub proof fn a_message_in_a_text_says_the_same(payload: Seq<char>, wrapped: Seq<char>)
    ensures
        json_document(payload) is Object && json_document(wrapped) == JsonModel::Text(payload)
            ==> message_says_recording(
            json_document(wrapped),
            document_within(json_document(wrapped)),
        ) == message_says_recording(
            json_document(payload),
            document_within(json_document(payload)),
        ),
{
}

/// Of the members of an object only the one named `recording` counts, and it says that a recording
/// runs where its value is true; of two with that name the later one counts. Nothing but an object
/// says so.
pub proof fn only_the_member_recording_counts(
    members: Seq<JsonMember>,
    member: JsonMember,
    document: JsonModel,
)
    ensures
        says_recording(JsonModel::Object(members_model(members.push(member)))) == if member.name@
            == "recording"@ {
            member.flag == Some(true)
        } else {
            says_recording(JsonModel::Object(members_model(members)))
        },
        !says_recording(JsonModel::Object(members_model(Seq::empty()))),
        !(document is Object) ==> !says_recording(document),
{
    assert(members.push(member).drop_last() =~= members);
    assert(members.push(member).last() == member);
}

/// A message says what its own object says, or what the object in its text says, and otherwise that
/// no recording runs.
pub proof fn a_message_speaks_for_its_object(outer: JsonModel, inner: JsonModel)
    ensures
        outer is Object ==> message_says_recording(outer, inner) == says_recording(outer),
        outer is Text ==> message_says_recording(outer, inner) == says_recording(inner),
        !(outer is Object || outer is Text) ==> !message_says_recording(outer, inner),
        outer matches JsonModel::Text(t) ==> document_within(outer) == json_document(t),
{
}

} // verus!
