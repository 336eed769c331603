use vstd::prelude::*;
use crate::types::ApiResult;
use crate::types::delete_chat_type::{autosave_options, spec_autosave_options};
use crate::types::user_input_type::Participant;

verus! {

/// The payload of a conversation-rename request.
#[derive(Debug, Clone)]
pub struct RenameChatRequest {
    pub conversation_id: String,
    pub participant: Participant,
    pub chat_name: String,
    pub options_sets: Vec<String>,
}

impl RenameChatRequest {
    pub fn build(conversation_id: String, client_id: String, new_name: String) -> (r:
        RenameChatRequest)
        ensures
            r.conversation_id == conversation_id,
            r.participant.id == client_id,
            r.chat_name == new_name,
            r.options_sets.deep_view() == spec_autosave_options(),
    {
        RenameChatRequest {
            conversation_id,
            participant: Participant { id: client_id },
            chat_name: new_name,
            options_sets: autosave_options(),
        }
    }
}

/// What the rename endpoint answers with.
#[derive(Debug, Clone)]
pub struct RenameChatResp {
    pub chat_name: String,
    pub result: ApiResult,
}

} // verus!
