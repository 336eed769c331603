use vstd::prelude::*;
use crate::types::ApiResult;

verus! {

/// The option set every conversation-management payload carries.
pub open spec fn spec_autosave_options() -> Seq<Seq<char>> {
    seq!["autosave"@, "savemem"@, "uprofupd"@, "uprofgen"@]
}

/// Builds the vector behind `spec_autosave_options`.
pub(crate) fn autosave_options() -> (r: Vec<String>)
    ensures
        r.deep_view() == spec_autosave_options(),
{
    let mut v: Vec<String> = Vec::new();
    v.push(String::from_str("autosave"));
    v.push(String::from_str("savemem"));
    v.push(String::from_str("uprofupd"));
    v.push(String::from_str("uprofgen"));
    proof {
        assert(v.deep_view() =~= spec_autosave_options());
    }
    v
}

/// The payload of a single-conversation delete request.
#[derive(Debug, Clone)]
pub struct DeleteChatPayload {
    pub conversation_id: String,
    pub participant: Participant,
    pub source: String,
    pub options_sets: Vec<String>,
}

impl DeleteChatPayload {
    pub fn build(client_id: &str, conversation_id: &str) -> (r: DeleteChatPayload)
        ensures
            r.conversation_id@ == conversation_id@,
            r.participant.id@ == client_id@,
            r.source@ == "cib"@,
            r.options_sets.deep_view() == spec_autosave_options(),
    {
        DeleteChatPayload {
            conversation_id: String::from_str(conversation_id),
            participant: Participant { id: String::from_str(client_id) },
            source: String::from_str("cib"),
            options_sets: autosave_options(),
        }
    }
}

/// The payload of a delete request for several conversations at once.
#[derive(Debug, Clone)]
pub struct DeleteChatsPayload {
    pub conversation_ids_to_delete: Vec<String>,
}

impl DeleteChatsPayload {
    pub fn build(conversation_ids: Vec<String>) -> (r: DeleteChatsPayload)
        ensures
            r.conversation_ids_to_delete == conversation_ids,
    {
        DeleteChatsPayload { conversation_ids_to_delete: conversation_ids }
    }
}

/// The requesting client, as the management endpoints expect it.
#[derive(Debug, Clone)]
pub struct Participant {
    pub id: String,
}

/// What the single-conversation delete endpoint answers with.
#[derive(Debug, Clone)]
pub struct DeleteChatResp {
    pub conversation_id: Option<String>,
    pub client_id: Option<String>,
    pub result: ApiResult,
}

/// What the bulk delete endpoint answers with.
#[derive(Debug, Clone)]
pub struct DeleteChatsResp {
    pub conversation_ids_deleted: Vec<String>,
    pub result: ApiResult,
}

} // verus!
