//! The service endpoints: fixed URLs, and the builders for the
//! parameterized ones.

use vstd::prelude::*;
use crate::trusted::{new_uuid_string, url_encode, url_encoded};

verus! {

pub const GET_CHAT_ID_URL: &'static str =
    "https://www.bing.com/turing/userconsent?bundleVersion=1.1626.0&isStartOfConversation=true";

pub const GET_CHAT_LIST_URL: &'static str =
    "https://www.bing.com/turing/conversation/chats?bundleVersion=1.1626.0";

pub const DELETE_CHAT_URL: &'static str = "https://sydney.bing.com/sydney/DeleteSingleConversation";

pub const DELETE_CHATS_URL: &'static str =
    "https://www.bing.com/turing/conversation/deleteChats?bundleVersion=1.1678.0";

pub const CREATE_CHAT_URL: &'static str =
    "https://www.bing.com/turing/conversation/create?bundleVersion=1.1600.1-nodesign2";

pub const RENAME_CHAT_URL: &'static str = "https://sydney.bing.com/sydney/RenameChat";

pub const UPDATE_CONVERSATION_URL: &'static str =
    "https://sydney.bing.com/sydney/UpdateConversation";

pub const GEN_IMAGE_ID_URL: &'static str = "https://www.bing.com/images/kblob";

/// The stream endpoint for a conversation's encrypted signature token.
pub open spec fn spec_chat_hub_wss_url(token: Seq<char>) -> Seq<char> {
    "wss://sydney.bing.com/sydney/ChatHub?sec_access_token="@ + url_encoded(token)
}

pub fn gen_chat_hub_wss_url(sec_access_token: &str) -> (r: String)
    ensures
        r@ == spec_chat_hub_wss_url(sec_access_token@),
{
    let mut s = String::from_str("wss://sydney.bing.com/sydney/ChatHub?sec_access_token=");
    let enc = url_encode(sec_access_token);
    s.append(enc.as_str());
    s
}

/// The signature endpoint for one conversation.
pub open spec fn spec_chat_signature_url(conversation_id: Seq<char>) -> Seq<char> {
    "https://www.bing.com/turing/conversation/create?conversationId="@ + url_encoded(
        conversation_id,
    ) + "&bundleVersion=1.1600.1-nodesign2"@
}

pub fn gen_get_chat_signature_url(conversation_id: &str) -> (r: String)
    ensures
        r@ == spec_chat_signature_url(conversation_id@),
{
    let mut s = String::from_str("https://www.bing.com/turing/conversation/create?conversationId=");
    let enc = url_encode(conversation_id);
    s.append(enc.as_str());
    s.append("&bundleVersion=1.1600.1-nodesign2");
    s
}

/// The history endpoint for one conversation, with a fresh trace id.
pub open spec fn spec_chat_messages_url(
    conversation_id: Seq<char>,
    client_id: Seq<char>,
    trace_id: Seq<char>,
) -> Seq<char> {
    "https://sydney.bing.com/sydney/GetConversation?conversationId="@ + conversation_id
        + "&source=cib&bundleVersion=1.1600.1-nodesign2&participantId="@ + client_id
        + "&traceId="@ + trace_id
}

pub fn gen_get_chat_messages_url(conversation_id: &str, client_id: &str) -> (r: String)
    ensures
        exists|t: Seq<char>|
            t.len() == 36 && r@ == spec_chat_messages_url(conversation_id@, client_id@, t),
{
    let mut s = String::from_str("https://sydney.bing.com/sydney/GetConversation?conversationId=");
    s.append(conversation_id);
    s.append("&source=cib&bundleVersion=1.1600.1-nodesign2&participantId=");
    s.append(client_id);
    s.append("&traceId=");
    let trace = new_uuid_string();
    s.append(trace.as_str());
    proof {
        assert(s@ == spec_chat_messages_url(conversation_id@, client_id@, trace@));
    }
    s
}

/// The generation endpoint for one drawing prompt.  The prompt travels
/// wrapped as `prompt='...'`, percent-encoded.
pub open spec fn spec_draw_image_url(prompt: Seq<char>, message_id: Seq<char>) -> Seq<char> {
    "https://www.bing.com/images/create?partner=sydney&re=1&showselective=1&sude=1&kseed=8000&SFX=3&q="@
        + url_encoded("prompt='"@ + prompt + "'"@) + "&iframeid="@ + message_id
}

pub fn gen_draw_image_url(prompt: &str, message_id: &str) -> (r: String)
    ensures
        r@ == spec_draw_image_url(prompt@, message_id@),
{
    let mut wrapped = String::from_str("prompt='");
    wrapped.append(prompt);
    wrapped.append("'");
    let mut s = String::from_str(
        "https://www.bing.com/images/create?partner=sydney&re=1&showselective=1&sude=1&kseed=8000&SFX=3&q=",
    );
    let enc = url_encode(wrapped.as_str());
    s.append(enc.as_str());
    s.append("&iframeid=");
    s.append(message_id);
    s
}

/// The music-generation endpoint, with a fresh frame id.
pub open spec fn spec_suno_url(frame_id: Seq<char>, request_id: Seq<char>) -> Seq<char> {
    "https://www.bing.com/videos/music?vdpp=suno&kseed=7500&SFX=2&q=&iframeid="@ + frame_id
        + "&requestid="@ + request_id
}

pub fn gen_suno_url(request_id: &str) -> (r: String)
    ensures
        exists|f: Seq<char>| f.len() == 36 && r@ == spec_suno_url(f, request_id@),
{
    let mut s = String::from_str(
        "https://www.bing.com/videos/music?vdpp=suno&kseed=7500&SFX=2&q=&iframeid=",
    );
    let frame = new_uuid_string();
    s.append(frame.as_str());
    s.append("&requestid=");
    s.append(request_id);
    proof {
        assert(s@ == spec_suno_url(frame@, request_id@));
    }
    s
}

/// The polling endpoint for a music-generation request.
pub open spec fn spec_get_suno_url(request_id: Seq<char>) -> Seq<char> {
    "https://www.bing.com/videos/api/custom/music?skey=TmUD-Vs_uyv92Y_rBoRZ0lftFoFeYkDqF_6JTN33304&safesearch=Moderate&vdpp=suno&requestid="@
        + request_id + "&ig=D51BB25CF62E48EE94182816007E1DD1&iid=vsn&sfx=1"@
}

pub fn gen_get_suno_url(request_id: &str) -> (r: String)
    ensures
        r@ == spec_get_suno_url(request_id@),
{
    let mut s = String::from_str(
        "https://www.bing.com/videos/api/custom/music?skey=TmUD-Vs_uyv92Y_rBoRZ0lftFoFeYkDqF_6JTN33304&safesearch=Moderate&vdpp=suno&requestid=",
    );
    s.append(request_id);
    s.append("&ig=D51BB25CF62E48EE94182816007E1DD1&iid=vsn&sfx=1");
    s
}

/// The polling endpoint for a drawing request.
pub open spec fn spec_get_images_url(request_id: Seq<char>) -> Seq<char> {
    "https://www.bing.com/images/create/async/results/"@ + request_id
        + "?showselective=1&partner=sydney&FORM=SYDBIC"@
}

pub fn gen_get_images_url(request_id: &str) -> (r: String)
    ensures
        r@ == spec_get_images_url(request_id@),
{
    let mut s = String::from_str("https://www.bing.com/images/create/async/results/");
    s.append(request_id);
    s.append("?showselective=1&partner=sydney&FORM=SYDBIC");
    s
}

/// The payload URL for an uploaded image blob.
pub open spec fn spec_image_payload_url(image_id: Seq<char>) -> Seq<char> {
    "https://www.bing.com/images/blob?bcid="@ + image_id
}

pub fn gen_image_payload_url(image_id: &str) -> (r: String)
    ensures
        r@ == spec_image_payload_url(image_id@),
{
    let mut s = String::from_str("https://www.bing.com/images/blob?bcid=");
    s.append(image_id);
    s
}

} // verus!
