//! The library's model of one decoded inbound record: exactly the fields
//! the dispatcher reads, as plain values, with a mathematical view for each
//! type.  The conversion out of the parsed JSON stands at the end; the
//! parsed value is opaque, so the conversion promises nothing — every
//! decision about a record is taken, and verified, on these types.

use vstd::prelude::*;
use crate::trusted::{
    json_as_array, json_as_str, json_as_u64, json_get, json_is_null, json_is_object, parse_json,
};
use crate::types::bot_easy_resp::Limit;

verus! {

/// One nested message of an intermediate (type-1) record.
#[derive(Debug, Clone)]
pub struct ChatMessage {
    pub text: Option<String>,
    pub content_origin: Option<String>,
    pub message_type: Option<String>,
    pub message_id: Option<String>,
}

#[verifier::ext_equal]
pub struct ChatMessageModel {
    pub text: Option<Seq<char>>,
    pub content_origin: Option<Seq<char>>,
    pub message_type: Option<Seq<char>>,
    pub message_id: Option<Seq<char>>,
}

/// The view of an optional string.
pub open spec fn opt_view(v: Option<String>) -> Option<Seq<char>> {
    match v {
        Some(s) => Some(s@),
        None => None,
    }
}

impl View for ChatMessage {
    type V = ChatMessageModel;

    open spec fn view(&self) -> ChatMessageModel {
        ChatMessageModel {
            text: opt_view(self.text),
            content_origin: opt_view(self.content_origin),
            message_type: opt_view(self.message_type),
            message_id: opt_view(self.message_id),
        }
    }
}

impl DeepView for ChatMessage {
    type V = ChatMessageModel;

    open spec fn deep_view(&self) -> ChatMessageModel {
        self.view()
    }
}

/// One source attribution of a terminal (type-2) record, as received.
/// `None` stands for an entry whose named fields carry the wrong shape.
#[derive(Debug, Clone)]
pub struct SourceRecord {
    pub display_name: Option<String>,
    pub see_more_url: Option<String>,
    pub image_link: Option<String>,
}

#[verifier::ext_equal]
pub struct SourceRecordModel {
    pub display_name: Option<Seq<char>>,
    pub see_more_url: Option<Seq<char>>,
    pub image_link: Option<Seq<char>>,
}

impl View for SourceRecord {
    type V = SourceRecordModel;

    open spec fn view(&self) -> SourceRecordModel {
        SourceRecordModel {
            display_name: opt_view(self.display_name),
            see_more_url: opt_view(self.see_more_url),
            image_link: opt_view(self.image_link),
        }
    }
}

impl DeepView for SourceRecord {
    type V = SourceRecordModel;

    open spec fn deep_view(&self) -> SourceRecordModel {
        self.view()
    }
}

/// One message of a terminal record.
#[derive(Debug, Clone)]
pub struct FinalMessage {
    pub author: Option<String>,
    pub sources: Option<Vec<Option<SourceRecord>>>,
    pub suggested: Option<Vec<Option<String>>>,
}

#[verifier::ext_equal]
pub struct FinalMessageModel {
    pub author: Option<Seq<char>>,
    pub sources: Option<Seq<Option<SourceRecordModel>>>,
    pub suggested: Option<Seq<Option<Seq<char>>>>,
}

impl View for FinalMessage {
    type V = FinalMessageModel;

    open spec fn view(&self) -> FinalMessageModel {
        FinalMessageModel {
            author: opt_view(self.author),
            sources: match self.sources {
                Some(v) => Some(v.deep_view()),
                None => None,
            },
            suggested: match self.suggested {
                Some(v) => Some(v.deep_view()),
                None => None,
            },
        }
    }
}

impl DeepView for FinalMessage {
    type V = FinalMessageModel;

    open spec fn deep_view(&self) -> FinalMessageModel {
        self.view()
    }
}

/// The body of a terminal record.  `throttling` is `None` where the field
/// is absent, `Some(None)` where it is present but malformed.
#[derive(Debug, Clone)]
pub struct FinalItem {
    pub messages: Vec<FinalMessage>,
    pub throttling: Option<Option<Limit>>,
}

#[verifier::ext_equal]
pub struct FinalItemModel {
    pub messages: Seq<FinalMessageModel>,
    pub throttling: Option<Option<Limit>>,
}

impl View for FinalItem {
    type V = FinalItemModel;

    open spec fn view(&self) -> FinalItemModel {
        FinalItemModel { messages: self.messages.deep_view(), throttling: self.throttling }
    }
}

impl DeepView for FinalItem {
    type V = FinalItemModel;

    open spec fn deep_view(&self) -> FinalItemModel {
        self.view()
    }
}

/// One decoded inbound record: its `type` number, the nested messages of
/// an intermediate record, and the body of a terminal one.
#[derive(Debug, Clone)]
pub struct Record {
    pub type_num: Option<u64>,
    pub messages: Vec<ChatMessage>,
    pub item: Option<FinalItem>,
}

#[verifier::ext_equal]
pub struct RecordModel {
    pub type_num: Option<u64>,
    pub messages: Seq<ChatMessageModel>,
    pub item: Option<FinalItemModel>,
}

impl View for Record {
    type V = RecordModel;

    open spec fn view(&self) -> RecordModel {
        RecordModel {
            type_num: self.type_num,
            messages: self.messages.deep_view(),
            item: match self.item {
                Some(item) => Some(item.deep_view()),
                None => None,
            },
        }
    }
}

impl DeepView for Record {
    type V = RecordModel;

    open spec fn deep_view(&self) -> RecordModel {
        self.view()
    }
}

/// A string field of a JSON object: present and a string, or nothing.
pub(crate) fn string_field(v: &serde_json::Value, key: &str) -> Option<String> {
    match json_get(v, key) {
        Some(f) => match json_as_str(f) {
            Some(s) => Some(String::from_str(s)),
            None => None,
        },
        None => None,
    }
}

/// One nested message, read as the dispatcher needs it.
pub fn chat_message_from_value(m: &serde_json::Value) -> ChatMessage {
    ChatMessage {
        text: string_field(m, "text"),
        content_origin: string_field(m, "contentOrigin"),
        message_type: string_field(m, "messageType"),
        message_id: string_field(m, "messageId"),
    }
}

/// One source attribution.  A named field that is present but neither a
/// string nor null makes the whole entry malformed, as a typed parse of it
/// would fail.
pub(crate) fn source_record_from_value(v: &serde_json::Value) -> Option<SourceRecord> {
    let display_name = match json_get(v, "providerDisplayName") {
        Some(f) => {
            if json_is_null(f) {
                None
            } else {
                match json_as_str(f) {
                    Some(s) => Some(String::from_str(s)),
                    None => { return None; }
                }
            }
        }
        None => None,
    };
    let see_more_url = match json_get(v, "seeMoreUrl") {
        Some(f) => {
            if json_is_null(f) {
                None
            } else {
                match json_as_str(f) {
                    Some(s) => Some(String::from_str(s)),
                    None => { return None; }
                }
            }
        }
        None => None,
    };
    Some(SourceRecord { display_name, see_more_url, image_link: string_field(v, "imageLink") })
}

/// The usage block: all four counters, each in range, or nothing.
fn limit_from_value(v: &serde_json::Value) -> Option<Limit> {
    let max_user = match json_get(v, "maxNumUserMessagesInConversation") {
        Some(f) => json_as_u64(f),
        None => None,
    };
    let num_user = match json_get(v, "numUserMessagesInConversation") {
        Some(f) => json_as_u64(f),
        None => None,
    };
    let max_long = match json_get(v, "maxNumLongDocSummaryUserMessagesInConversation") {
        Some(f) => json_as_u64(f),
        None => None,
    };
    let num_long = match json_get(v, "numLongDocSummaryUserMessagesInConversation") {
        Some(f) => json_as_u64(f),
        None => None,
    };
    match (max_user, num_user, max_long, num_long) {
        (Some(a), Some(b), Some(c), Some(d)) => {
            if a <= u8::MAX as u64 && b <= u8::MAX as u64 && c <= u32::MAX as u64 && d
                <= u32::MAX as u64 {
                Some(Limit {
                    max_num_user_messages: a as u8,
                    num_user_messages: b as u8,
                    max_num_long_doc_summary_user_messages: c as u32,
                    num_long_doc_summary_user_messages: d as u32,
                })
            } else {
                None
            }
        }
        _ => None,
    }
}

/// One terminal-record message.
fn final_message_from_value(m: &serde_json::Value) -> FinalMessage {
    let sources = match json_get(m, "sourceAttributions") {
        Some(f) => match json_as_array(f) {
            Some(arr) => {
                let mut out: Vec<Option<SourceRecord>> = Vec::new();
                let mut i: usize = 0;
                while i < arr.len()
                    decreases arr.len() - i,
                {
                    out.push(source_record_from_value(&arr[i]));
                    i = i + 1;
                }
                Some(out)
            }
            None => None,
        },
        None => None,
    };
    let suggested = match json_get(m, "suggestedResponses") {
        Some(f) => match json_as_array(f) {
            Some(arr) => {
                let mut out: Vec<Option<String>> = Vec::new();
                let mut i: usize = 0;
                while i < arr.len()
                    decreases arr.len() - i,
                {
                    out.push(string_field(&arr[i], "text"));
                    i = i + 1;
                }
                Some(out)
            }
            None => None,
        },
        None => None,
    };
    FinalMessage { author: string_field(m, "author"), sources, suggested }
}

/// The body of a terminal record, where the record has an object there.
fn final_item_from_value(v: &serde_json::Value) -> Option<FinalItem> {
    match json_get(v, "item") {
        Some(iv) => {
            if !json_is_object(iv) {
                return None;
            }
            let messages = match json_get(iv, "messages") {
                Some(f) => match json_as_array(f) {
                    Some(arr) => {
                        let mut out: Vec<FinalMessage> = Vec::new();
                        let mut i: usize = 0;
                        while i < arr.len()
                            decreases arr.len() - i,
                        {
                            out.push(final_message_from_value(&arr[i]));
                            i = i + 1;
                        }
                        out
                    }
                    None => Vec::new(),
                },
                None => Vec::new(),
            };
            let throttling = match json_get(iv, "throttling") {
                Some(tv) => Some(limit_from_value(tv)),
                None => None,
            };
            Some(FinalItem { messages, throttling })
        }
        None => None,
    }
}

/// Reads one parsed record into the model the dispatcher works on.  The
/// parsed value is opaque, so nothing is promised of the result; what any
/// record means is stated on the dispatch functions, which hold for every
/// model value.
pub fn record_from_value(v: &serde_json::Value) -> Record {
    let type_num = match json_get(v, "type") {
        Some(t) => json_as_u64(t),
        None => None,
    };
    let mut messages: Vec<ChatMessage> = Vec::new();
    match json_get(v, "arguments") {
        Some(args_v) => match json_as_array(args_v) {
            Some(args) => {
                let mut i: usize = 0;
                while i < args.len()
                    decreases args.len() - i,
                {
                    match json_get(&args[i], "messages") {
                        Some(msgs_v) => match json_as_array(msgs_v) {
                            Some(msgs) => {
                                let mut j: usize = 0;
                                while j < msgs.len()
                                    decreases msgs.len() - j,
                                {
                                    messages.push(chat_message_from_value(&msgs[j]));
                                    j = j + 1;
                                }
                            }
                            None => {}
                        },
                        None => {}
                    }
                    i = i + 1;
                }
            }
            None => {}
        },
        None => {}
    }
    Record { type_num, messages, item: final_item_from_value(v) }
}

/// Decodes a text frame and reads each of its records: one model per
/// segment that parses as JSON, in order.
pub fn decode_records(text: &str) -> (r: Vec<Record>)
    ensures
        r@.len() == crate::codec::decoded_records(text@).len(),
{
    let segments = crate::codec::FrameCodec::decode(text);
    let mut out: Vec<Record> = Vec::new();
    let mut i: usize = 0;
    while i < segments.len()
        invariant
            0 <= i <= segments@.len(),
            out@.len() == i,
            segments.deep_view() == crate::codec::decoded_records(text@),
        decreases segments@.len() - i,
    {
        match parse_json(segments[i].as_str()) {
            Some(v) => {
                out.push(record_from_value(&v));
            }
            None => {
                proof {
                    crate::codec::frame_segments(text@).lemma_filter_pred(
                        crate::codec::json_segment(),
                        i as int,
                    );
                    assert(false);
                }
            }
        }
        i = i + 1;
    }
    out
}

} // verus!
