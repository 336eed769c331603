use vstd::prelude::*;
use crate::types::ApiResult;

verus! {

/// What the conversation-create endpoint answers with.
#[derive(Debug, Clone)]
pub struct CreateChatChatResp {
    pub conversation_id: String,
    pub client_id: String,
    pub result: ApiResult,
}

} // verus!
