//! A conversation and its signature-token cache.

use vstd::prelude::*;
use crate::strings::str_eq;
use crate::types::plugin_type::Plugin;

verus! {

/// The per-conversation cache of the two opaque bearer tokens a stream or
/// an authenticated call needs.  Both are populated together, from the same
/// fetch, or neither is; the core never clears them.
#[derive(Debug, Clone)]
pub struct SignatureCache {
    pub plain: Option<String>,
    pub encrypted: Option<String>,
}

impl SignatureCache {
    /// The cache invariant: the two tokens come and go together.
    pub open spec fn wf(&self) -> bool {
        self.plain is Some <==> self.encrypted is Some
    }

    pub fn empty() -> (r: SignatureCache)
        ensures
            r.plain is None,
            r.encrypted is None,
            r.wf(),
    {
        SignatureCache { plain: None, encrypted: None }
    }

    /// Installs both tokens at once, as one fetch delivered them.
    pub fn install(&mut self, plain: String, encrypted: String)
        ensures
            final(self).plain == Some(plain),
            final(self).encrypted == Some(encrypted),
            final(self).wf(),
    {
        self.plain = Some(plain);
        self.encrypted = Some(encrypted);
    }

    pub fn is_filled(&self) -> (r: bool)
        ensures
            r == (self.encrypted is Some),
    {
        self.encrypted.is_some()
    }
}

/// A server-side conversation, addressed by its opaque identifier.
#[derive(Debug, Clone)]
pub struct Chat {
    pub conversation_id: String,
    pub chat_name: Option<String>,
    pub conversation_signature: Option<String>,
    pub tone: Option<String>,
    pub create_time_utc: Option<u64>,
    pub update_time_utc: Option<u64>,
    pub plugins: Vec<Plugin>,
    pub signature: SignatureCache,
}

impl Chat {
    pub open spec fn wf(&self) -> bool {
        self.signature.wf()
    }

    /// A fresh conversation with nothing but its identifier.
    pub fn new(conversation_id: String) -> (r: Chat)
        ensures
            r.conversation_id == conversation_id,
            r.chat_name is None,
            r.conversation_signature is None,
            r.tone is None,
            r.create_time_utc is None,
            r.update_time_utc is None,
            r.plugins@.len() == 0,
            r.signature.plain is None,
            r.signature.encrypted is None,
            r.wf(),
    {
        Chat {
            conversation_id,
            chat_name: None,
            conversation_signature: None,
            tone: None,
            create_time_utc: None,
            update_time_utc: None,
            plugins: Vec::new(),
            signature: SignatureCache::empty(),
        }
    }

    /// Caches the two tokens one signature fetch delivered.
    pub fn install_signature(&mut self, plain: String, encrypted: String)
        ensures
            final(self).signature.plain == Some(plain),
            final(self).signature.encrypted == Some(encrypted),
            final(self).wf(),
            final(self).conversation_id == old(self).conversation_id,
            final(self).chat_name == old(self).chat_name,
            final(self).conversation_signature == old(self).conversation_signature,
            final(self).tone == old(self).tone,
            final(self).create_time_utc == old(self).create_time_utc,
            final(self).update_time_utc == old(self).update_time_utc,
            final(self).plugins == old(self).plugins,
    {
        self.signature.install(plain, encrypted);
    }

    /// Whether a stream may be opened without fetching the signature first.
    pub fn has_stream_token(&self) -> (r: bool)
        ensures
            r == (self.signature.encrypted is Some),
    {
        self.signature.is_filled()
    }
}

/// Field-for-field equality of two conversations, with the plugin list
/// compared by its contents.
pub open spec fn chat_eq(a: Chat, b: Chat) -> bool {
    &&& a.conversation_id == b.conversation_id
    &&& a.chat_name == b.chat_name
    &&& a.conversation_signature == b.conversation_signature
    &&& a.tone == b.tone
    &&& a.create_time_utc == b.create_time_utc
    &&& a.update_time_utc == b.update_time_utc
    &&& a.plugins@ == b.plugins@
    &&& a.signature == b.signature
}

/// What the chat-list endpoint answers with.
#[derive(Debug, Clone)]
pub struct ChatListResp {
    pub chats: Vec<Chat>,
    pub result: GetChatListResult,
    pub client_id: String,
}

/// The status block of the chat-list answer.
#[derive(Debug, Clone)]
pub struct GetChatListResult {
    pub value: String,
    pub message: String,
    pub service_version: String,
}

impl GetChatListResult {
    pub open spec fn spec_is_success(&self) -> bool {
        self.value@ == "Success"@
    }

    pub fn is_success(&self) -> (r: bool)
        ensures
            r == self.spec_is_success(),
    {
        str_eq(self.value.as_str(), "Success")
    }
}

} // verus!
