use bing_client::client::{chat_ids, signature_outcome, upload_image_outcome, BingClient};
use bing_client::error::ClientError;
use bing_client::types::chat_type::{Chat, ChatListResp, GetChatListResult};
use bing_client::types::client_info_type::GetClientInfoResponse;
use bing_client::types::create_chat_type::CreateChatChatResp;
use bing_client::types::delete_chat_type::{DeleteChatPayload, DeleteChatResp, DeleteChatsPayload};
use bing_client::types::rename_chat_type::{RenameChatRequest, RenameChatResp};
use bing_client::types::ApiResult;

fn ok_result() -> ApiResult {
    ApiResult { value: "Success".to_string(), message: None }
}

fn failed_result() -> ApiResult {
    ApiResult { value: "Throttled".to_string(), message: Some("slow down".to_string()) }
}

#[test]
fn update_client_id_takes_the_reported_identifier() {
    let mut client = BingClient::new("k=v".to_string());
    let resp = GetClientInfoResponse {
        client_id: "client-9".to_string(),
        result: ok_result(),
        consent_settings: None,
    };
    assert!(client.update_client_id(resp).is_ok());
    assert_eq!(client.client_id, "client-9");
    assert_eq!(client.cookie_str, "k=v");
}

#[test]
fn update_client_id_failure_leaves_the_client_alone() {
    let mut client = BingClient::new("k=v".to_string());
    let resp = GetClientInfoResponse {
        client_id: "client-9".to_string(),
        result: failed_result(),
        consent_settings: None,
    };
    let err = client.update_client_id(resp).unwrap_err();
    assert!(matches!(err, ClientError::ClientInfoFailed { .. }));
    assert_eq!(client.client_id, "");
}

fn chat_list(ok: bool) -> ChatListResp {
    ChatListResp {
        chats: vec![Chat::new("c-1".to_string()), Chat::new("c-2".to_string())],
        result: GetChatListResult {
            value: if ok { "Success".to_string() } else { "Error".to_string() },
            message: "".to_string(),
            service_version: "1".to_string(),
        },
        client_id: "client-3".to_string(),
    }
}

#[test]
fn chat_list_success_updates_and_returns_the_chats() {
    let mut client = BingClient::new("k=v".to_string());
    let chats = client.update_chats_client_id(chat_list(true)).unwrap();
    assert_eq!(chats.len(), 2);
    assert_eq!(client.client_id, "client-3");
    assert_eq!(client.chats.len(), 2);
    assert_eq!(client.chats[1].conversation_id, "c-2");
}

#[test]
fn chat_list_failure_is_reported() {
    let client = BingClient::new("k=v".to_string());
    assert!(matches!(
        client.get_chat_list(chat_list(false)),
        Err(ClientError::ChatListFailed { .. })
    ));
    assert_eq!(client.get_chat_list(chat_list(true)).unwrap().len(), 2);
}

#[test]
fn chat_ids_lists_identifiers_in_order() {
    let chats = vec![Chat::new("a".to_string()), Chat::new("b".to_string())];
    assert_eq!(chat_ids(&chats), vec!["a".to_string(), "b".to_string()]);
}

#[test]
fn create_chat_caches_both_signature_tokens_or_neither() {
    let client = BingClient::new(String::new());
    let resp = CreateChatChatResp {
        conversation_id: "c-7".to_string(),
        client_id: "cl".to_string(),
        result: ok_result(),
    };
    let chat = client
        .create_chat(true, "200 OK".to_string(), Some(resp), Some("p".to_string()), None)
        .unwrap();
    assert_eq!(chat.conversation_id, "c-7");
    assert!(chat.signature.plain.is_none());
    assert!(chat.signature.encrypted.is_none());

    let resp = CreateChatChatResp {
        conversation_id: "c-8".to_string(),
        client_id: "cl".to_string(),
        result: ok_result(),
    };
    let chat = client
        .create_chat(
            true,
            "200 OK".to_string(),
            Some(resp),
            Some("p".to_string()),
            Some("e".to_string()),
        )
        .unwrap();
    assert_eq!(chat.signature.plain, Some("p".to_string()));
    assert_eq!(chat.signature.encrypted, Some("e".to_string()));
}

#[test]
fn create_chat_failure_carries_the_status_text() {
    let client = BingClient::new(String::new());
    let err = client.create_chat(false, "503".to_string(), None, None, None).unwrap_err();
    assert!(matches!(err, ClientError::CreateChatFailed(s) if s == "503"));
}

#[test]
fn signature_outcome_requires_status_and_both_headers() {
    let ok = signature_outcome(true, "200".to_string(), Some("p".to_string()), Some(
        "e".to_string(),
    ));
    assert_eq!(ok.unwrap(), ("p".to_string(), "e".to_string()));
    assert!(matches!(
        signature_outcome(false, "403".to_string(), None, None),
        Err(ClientError::SignatureFetchFailed(s)) if s == "403"
    ));
    assert!(matches!(
        signature_outcome(true, "200".to_string(), None, Some("e".to_string())),
        Err(ClientError::SignatureFetchFailed(_))
    ));
    assert!(matches!(
        signature_outcome(true, "200".to_string(), Some("p".to_string()), None),
        Err(ClientError::SignatureFetchFailed(_))
    ));
}

#[test]
fn upload_outcome_builds_the_payload_url() {
    let url = upload_image_outcome(true, "200".to_string(), Some("blob-1".to_string())).unwrap();
    assert_eq!(url, "https://www.bing.com/images/blob?bcid=blob-1");
    assert!(matches!(
        upload_image_outcome(true, "200".to_string(), None),
        Err(ClientError::UploadImageFailed(_))
    ));
    assert!(matches!(
        upload_image_outcome(false, "500".to_string(), Some("b".to_string())),
        Err(ClientError::UploadImageFailed(_))
    ));
}

#[test]
fn delete_and_rename_outcomes_follow_the_result_value() {
    let client = BingClient::new(String::new());
    let resp = DeleteChatResp { conversation_id: Some("c".to_string()), client_id: None, result: ok_result() };
    assert!(client.delete_chat(resp).is_ok());
    let resp = DeleteChatResp { conversation_id: Some("c".to_string()), client_id: None, result: failed_result() };
    assert!(matches!(client.delete_chat(resp), Err(ClientError::DeleteChatFailed { .. })));
    let resp = RenameChatResp { chat_name: "n".to_string(), result: failed_result() };
    assert!(matches!(client.rename_chat(resp), Err(ClientError::RenameChatFailed { .. })));
}

#[test]
fn payload_builders_fill_the_documented_fields() {
    let payload = DeleteChatPayload::build("client-1", "conv-1");
    assert_eq!(payload.conversation_id, "conv-1");
    assert_eq!(payload.participant.id, "client-1");
    assert_eq!(payload.source, "cib");
    assert_eq!(
        payload.options_sets,
        vec!["autosave".to_string(), "savemem".to_string(), "uprofupd".to_string(), "uprofgen".to_string()]
    );
    let payload = DeleteChatsPayload::build(vec!["a".to_string()]);
    assert_eq!(payload.conversation_ids_to_delete, vec!["a".to_string()]);
    let req = RenameChatRequest::build("c".to_string(), "cl".to_string(), "new name".to_string());
    assert_eq!(req.conversation_id, "c");
    assert_eq!(req.participant.id, "cl");
    assert_eq!(req.chat_name, "new name");
    assert_eq!(req.options_sets.len(), 4);
}
