//! The errors the library reports.  Each variant carries the response
//! fields the failing endpoint answered with, so a caller can render them.

use vstd::prelude::*;

verus! {

#[derive(Debug, Clone)]
pub enum ClientError {
    /// The signature endpoint answered without success or without both
    /// headers; the payload names what was missing.
    SignatureFetchFailed(String),
    /// The client-info endpoint reported a non-success value.
    ClientInfoFailed { value: String, message: Option<String> },
    /// The chat-list endpoint reported a non-success value.
    ChatListFailed { value: String, message: String },
    /// The conversation-create endpoint failed; the payload holds its
    /// status text.
    CreateChatFailed(String),
    /// A delete endpoint reported a non-success value.
    DeleteChatFailed { conversation_id: Option<String>, value: String, message: Option<String> },
    /// The rename endpoint reported a non-success value.
    RenameChatFailed { value: String, message: Option<String> },
    /// The image-upload endpoint failed or answered without a blob id.
    UploadImageFailed(String),
    /// A cookie source did not hold what its format promises.
    InvalidCookie(String),
    /// A stream was opened on a conversation whose encrypted signature
    /// token is absent.
    MissingStreamToken,
}

} // verus!
