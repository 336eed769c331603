pub mod bot_easy_resp;
pub mod chat_msg_type;
pub mod chat_type;
pub mod client_info_type;
pub mod cookie_type;
pub mod create_chat_type;
pub mod delete_chat_type;
pub mod plugin_type;
pub mod rename_chat_type;
pub mod update_conversation;
pub mod user_input_type;

use vstd::prelude::*;

verus! {

/// The status block every management endpoint answers with.
#[derive(Debug, Clone)]
pub struct ApiResult {
    pub value: String,
    pub message: Option<String>,
}

impl ApiResult {
    /// The service reports success as the literal value `Success`.
    pub open spec fn spec_is_success(&self) -> bool {
        self.value@ == "Success"@
    }

    pub fn is_success(&self) -> (r: bool)
        ensures
            r == self.spec_is_success(),
    {
        crate::strings::str_eq(self.value.as_str(), "Success")
    }
}

} // verus!
