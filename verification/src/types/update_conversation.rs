use vstd::prelude::*;
use crate::types::ApiResult;

verus! {

/// What the conversation-update endpoint answers with.
#[derive(Debug, Clone)]
pub struct UpdateConversaionResp {
    pub conversation_id: String,
    pub result: ApiResult,
}

} // verus!
