//! The client state and the decisions behind every management endpoint:
//! what each response means, and how it changes the client.  The transport
//! layer performs the HTTP round trips and hands the answers in.

use vstd::prelude::*;
use crate::const_vars::{gen_image_payload_url, spec_image_payload_url};
use crate::error::ClientError;
use crate::types::chat_type::{Chat, ChatListResp, SignatureCache};
use crate::types::client_info_type::GetClientInfoResponse;
use crate::types::create_chat_type::CreateChatChatResp;
use crate::types::delete_chat_type::{DeleteChatResp, DeleteChatsResp};
use crate::types::plugin_type::clone_plugins;
use crate::types::rename_chat_type::RenameChatResp;

verus! {

/// The client: its cookie header, its identifier, and the conversations it
/// has listed.
#[derive(Debug, Clone)]
pub struct BingClient {
    pub cookie_str: String,
    pub client_id: String,
    pub chats: Vec<Chat>,
}

use crate::strings::clone_opt_string;

/// Rebuilds a conversation field by field, so the copy is known to match
/// its original.
pub fn clone_chat(c: &Chat) -> (r: Chat)
    ensures
        crate::types::chat_type::chat_eq(r, *c),
{
    Chat {
        conversation_id: c.conversation_id.clone(),
        chat_name: clone_opt_string(&c.chat_name),
        conversation_signature: clone_opt_string(&c.conversation_signature),
        tone: clone_opt_string(&c.tone),
        create_time_utc: c.create_time_utc,
        update_time_utc: c.update_time_utc,
        plugins: clone_plugins(&c.plugins),
        signature: SignatureCache {
            plain: clone_opt_string(&c.signature.plain),
            encrypted: clone_opt_string(&c.signature.encrypted),
        },
    }
}

/// Rebuilds a conversation list element by element.
pub fn clone_chats(v: &Vec<Chat>) -> (r: Vec<Chat>)
    ensures
        r@.len() == v@.len(),
        forall|i: int|
            0 <= i < v@.len() ==> crate::types::chat_type::chat_eq(#[trigger] r@[i], v@[i]),
{
    let mut out: Vec<Chat> = Vec::new();
    let mut i: usize = 0;
    while i < v.len()
        invariant
            0 <= i <= v@.len(),
            out@.len() == i,
            forall|j: int|
                0 <= j < i ==> crate::types::chat_type::chat_eq(#[trigger] out@[j], v@[j]),
        decreases v@.len() - i,
    {
        out.push(clone_chat(&v[i]));
        i = i + 1;
    }
    out
}

impl BingClient {
    /// A fresh client around a ready cookie header.
    pub fn new(cookie_str: String) -> (r: BingClient)
        ensures
            r.cookie_str == cookie_str,
            r.client_id@.len() == 0,
            r.chats@.len() == 0,
    {
        BingClient { cookie_str, client_id: String::new(), chats: Vec::new() }
    }

    /// Applies the client-info answer: on success the client takes the
    /// reported identifier; on anything else it stays as it was.
    pub fn update_client_id(&mut self, resp: GetClientInfoResponse) -> (r: Result<
        (),
        ClientError,
    >)
        ensures
            match r {
                Ok(_) => resp.result.spec_is_success()
                    && final(self).client_id == resp.client_id
                    && final(self).cookie_str == old(self).cookie_str
                    && final(self).chats == old(self).chats,
                Err(e) => !resp.result.spec_is_success()
                    && *final(self) == *old(self)
                    && e == (ClientError::ClientInfoFailed {
                        value: resp.result.value,
                        message: resp.result.message,
                    }),
            },
    {
        if resp.result.is_success() {
            self.client_id = resp.client_id;
            Ok(())
        } else {
            Err(ClientError::ClientInfoFailed {
                value: resp.result.value,
                message: resp.result.message,
            })
        }
    }

    /// Applies the chat-list answer: on success the client takes the
    /// reported identifier and conversation list, and the list is returned;
    /// on anything else the client stays as it was.
    pub fn update_chats_client_id(&mut self, resp: ChatListResp) -> (r: Result<
        Vec<Chat>,
        ClientError,
    >)
        ensures
            match r {
                Ok(chats) => resp.result.spec_is_success()
                    && chats == resp.chats
                    && final(self).client_id == resp.client_id
                    && final(self).chats@.len() == resp.chats@.len()
                    && (forall|i: int|
                        0 <= i < resp.chats@.len() ==> crate::types::chat_type::chat_eq(
                            #[trigger] final(self).chats@[i],
                            resp.chats@[i],
                        ))
                    && final(self).cookie_str == old(self).cookie_str,
                Err(e) => !resp.result.spec_is_success()
                    && *final(self) == *old(self)
                    && e == (ClientError::ChatListFailed {
                        value: resp.result.value,
                        message: resp.result.message,
                    }),
            },
    {
        if resp.result.is_success() {
            self.client_id = resp.client_id;
            self.chats = clone_chats(&resp.chats);
            Ok(resp.chats)
        } else {
            Err(ClientError::ChatListFailed {
                value: resp.result.value,
                message: resp.result.message,
            })
        }
    }

    /// Reads the chat-list answer without touching the client.
    pub fn get_chat_list(&self, resp: ChatListResp) -> (r: Result<Vec<Chat>, ClientError>)
        ensures
            match r {
                Ok(chats) => resp.result.spec_is_success() && chats == resp.chats,
                Err(e) => !resp.result.spec_is_success() && e == (ClientError::ChatListFailed {
                    value: resp.result.value,
                    message: resp.result.message,
                }),
            },
    {
        if resp.result.is_success() {
            Ok(resp.chats)
        } else {
            Err(ClientError::ChatListFailed {
                value: resp.result.value,
                message: resp.result.message,
            })
        }
    }

    /// Builds the conversation the create endpoint answered with.  The two
    /// signature headers are cached only when the fetch delivered both, so
    /// the cache invariant holds either way.
    pub fn create_chat(
        &self,
        status_ok: bool,
        status_text: String,
        resp: Option<CreateChatChatResp>,
        plain_sig: Option<String>,
        encrypted_sig: Option<String>,
    ) -> (r: Result<Chat, ClientError>)
        ensures
            match r {
                Ok(chat) => status_ok && resp is Some && chat.conversation_id
                    == resp->Some_0.conversation_id && chat.wf() && chat.chat_name is None
                    && chat.tone is None && chat.plugins@.len() == 0 && ((plain_sig is Some
                    && encrypted_sig is Some) ==> (chat.signature.plain == plain_sig
                    && chat.signature.encrypted == encrypted_sig)) && (!(plain_sig is Some
                    && encrypted_sig is Some) ==> chat.signature.plain is None),
                Err(e) => (!status_ok || resp is None) && e == ClientError::CreateChatFailed(
                    status_text,
                ),
            },
    {
        if !status_ok {
            return Err(ClientError::CreateChatFailed(status_text));
        }
        match resp {
            None => Err(ClientError::CreateChatFailed(status_text)),
            Some(resp) => {
                let mut chat = Chat::new(resp.conversation_id);
                match (plain_sig, encrypted_sig) {
                    (Some(p), Some(e)) => {
                        chat.install_signature(p, e);
                    }
                    _ => {}
                }
                Ok(chat)
            }
        }
    }

    /// Reads the single-conversation delete answer.
    pub fn delete_chat(&self, resp: DeleteChatResp) -> (r: Result<(), ClientError>)
        ensures
            match r {
                Ok(_) => resp.result.spec_is_success(),
                Err(e) => !resp.result.spec_is_success() && e == (ClientError::DeleteChatFailed {
                    conversation_id: resp.conversation_id,
                    value: resp.result.value,
                    message: resp.result.message,
                }),
            },
    {
        if resp.result.is_success() {
            Ok(())
        } else {
            Err(ClientError::DeleteChatFailed {
                conversation_id: resp.conversation_id,
                value: resp.result.value,
                message: resp.result.message,
            })
        }
    }

    /// Reads the bulk delete answer.
    pub fn delete_chats(&self, resp: DeleteChatsResp) -> (r: Result<(), ClientError>)
        ensures
            match r {
                Ok(_) => resp.result.spec_is_success(),
                Err(e) => !resp.result.spec_is_success() && e == (ClientError::DeleteChatFailed {
                    conversation_id: None,
                    value: resp.result.value,
                    message: resp.result.message,
                }),
            },
    {
        if resp.result.is_success() {
            Ok(())
        } else {
            Err(ClientError::DeleteChatFailed {
                conversation_id: None,
                value: resp.result.value,
                message: resp.result.message,
            })
        }
    }

    /// Reads the rename answer.
    pub fn rename_chat(&self, resp: RenameChatResp) -> (r: Result<(), ClientError>)
        ensures
            match r {
                Ok(_) => resp.result.spec_is_success(),
                Err(e) => !resp.result.spec_is_success() && e == (ClientError::RenameChatFailed {
                    value: resp.result.value,
                    message: resp.result.message,
                }),
            },
    {
        if resp.result.is_success() {
            Ok(())
        } else {
            Err(ClientError::RenameChatFailed {
                value: resp.result.value,
                message: resp.result.message,
            })
        }
    }
}

/// The conversation identifiers of a list, in order.
pub open spec fn spec_chat_ids(chats: Seq<Chat>) -> Seq<Seq<char>> {
    chats.map_values(|c: Chat| c.conversation_id@)
}

pub fn chat_ids(chats: &Vec<Chat>) -> (r: Vec<String>)
    ensures
        r.deep_view() == spec_chat_ids(chats@),
{
    let mut out: Vec<String> = Vec::new();
    let mut i: usize = 0;
    while i < chats.len()
        invariant
            0 <= i <= chats@.len(),
            out@.len() == i,
            forall|j: int| 0 <= j < i ==> #[trigger] out@[j]@ == chats@[j].conversation_id@,
        decreases chats@.len() - i,
    {
        out.push(chats[i].conversation_id.clone());
        i = i + 1;
    }
    proof {
        assert(out.deep_view() =~= spec_chat_ids(chats@));
    }
    out
}

/// What one signature fetch yielded: both tokens, or the error naming what
/// was missing.  Success is owed exactly when the endpoint answered with a
/// success status and both headers.
pub fn signature_outcome(
    status_ok: bool,
    status_text: String,
    plain: Option<String>,
    encrypted: Option<String>,
) -> (r: Result<(String, String), ClientError>)
    ensures
        match r {
            Ok(tokens) => status_ok && plain == Some(tokens.0) && encrypted == Some(tokens.1),
            Err(e) => {
                &&& (!status_ok || plain is None || encrypted is None)
                &&& (e matches ClientError::SignatureFetchFailed(m) ==> {
                    &&& (!status_ok ==> m == status_text)
                    &&& (status_ok && plain is None ==> m@
                        == "No X-Sydney-Conversationsignature in resp headers."@)
                    &&& (status_ok && plain is Some && encrypted is None ==> m@
                        == "No X-Sydney-Encryptedconversationsignature in resp headers."@)
                })
                &&& (e is SignatureFetchFailed)
            },
        },
{
    if !status_ok {
        return Err(ClientError::SignatureFetchFailed(status_text));
    }
    match (plain, encrypted) {
        (Some(p), Some(e)) => Ok((p, e)),
        (None, _) => Err(ClientError::SignatureFetchFailed(String::from_str(
            "No X-Sydney-Conversationsignature in resp headers.",
        ))),
        (Some(_), None) => Err(ClientError::SignatureFetchFailed(String::from_str(
            "No X-Sydney-Encryptedconversationsignature in resp headers.",
        ))),
    }
}

/// What one image upload yielded: the payload URL for the blob the
/// endpoint answered with, or the failure.  Success is owed exactly when
/// the endpoint answered with a success status and a blob id.
pub fn upload_image_outcome(status_ok: bool, status_text: String, blob_id: Option<String>) -> (r:
    Result<String, ClientError>)
    ensures
        match r {
            Ok(url) => status_ok && (blob_id matches Some(b)
                && url@ == spec_image_payload_url(b@)),
            Err(e) => (!status_ok || blob_id is None) && e == ClientError::UploadImageFailed(
                status_text,
            ),
        },
{
    if !status_ok {
        return Err(ClientError::UploadImageFailed(status_text));
    }
    match blob_id {
        Some(b) => Ok(gen_image_payload_url(b.as_str())),
        None => Err(ClientError::UploadImageFailed(status_text)),
    }
}

} // verus!
