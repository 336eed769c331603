use bing_client::dispatch::{
    json2bot_resp_type1, json2bot_resp_type2, process_source_msg, process_suggested_responses,
    BackgroundJob,
};
use bing_client::record::{ChatMessage, FinalItem, FinalMessage, Record, SourceRecord};
use bing_client::types::bot_easy_resp::{BotResp, Limit};

fn message(
    text: Option<&str>,
    content_origin: Option<&str>,
    message_type: Option<&str>,
    message_id: Option<&str>,
) -> ChatMessage {
    ChatMessage {
        text: text.map(|s| s.to_string()),
        content_origin: content_origin.map(|s| s.to_string()),
        message_type: message_type.map(|s| s.to_string()),
        message_id: message_id.map(|s| s.to_string()),
    }
}

fn type1_record(messages: Vec<ChatMessage>) -> Record {
    Record { type_num: Some(1), messages, item: None }
}

#[test]
fn apology_message_yields_exactly_one_apology() {
    let record = type1_record(vec![message(
        Some("I am sorry."),
        Some("Apology"),
        Some("SomeOtherType"),
        Some("m-1"),
    )]);
    let mut tasks: Vec<BackgroundJob> = Vec::new();
    let events = json2bot_resp_type1(&record, &mut tasks);
    assert_eq!(events, vec![BotResp::Apology("I am sorry.".to_string())]);
    assert_eq!(tasks.len(), 0);
}

#[test]
fn generation_request_spawns_a_job_and_yields_nothing() {
    let record = type1_record(vec![message(
        Some("a painting of a cat"),
        None,
        Some("GenerateContentQuery"),
        Some("m-7"),
    )]);
    let mut tasks: Vec<BackgroundJob> = Vec::new();
    let events = json2bot_resp_type1(&record, &mut tasks);
    assert_eq!(events.len(), 0);
    assert_eq!(tasks.len(), 1);
    assert_eq!(tasks[0].prompt, "a painting of a cat");
    assert_eq!(tasks[0].message_id, Some("m-7".to_string()));
}

#[test]
fn loader_message_yields_a_notice() {
    let record = type1_record(vec![message(
        Some("Searching..."),
        None,
        Some("InternalLoaderMessage"),
        None,
    )]);
    let mut tasks: Vec<BackgroundJob> = Vec::new();
    let events = json2bot_resp_type1(&record, &mut tasks);
    assert_eq!(events, vec![BotResp::Notice("Searching...".to_string())]);
}

#[test]
fn untyped_message_yields_the_cumulative_text() {
    let record = type1_record(vec![
        message(Some("Hi"), None, None, None),
        message(Some("ignored"), None, Some("InternalSearchResult"), None),
        message(None, None, None, None),
    ]);
    let mut tasks: Vec<BackgroundJob> = Vec::new();
    let events = json2bot_resp_type1(&record, &mut tasks);
    assert_eq!(events, vec![BotResp::Text("Hi".to_string())]);
}

fn source(
    display_name: Option<&str>,
    see_more_url: Option<&str>,
    image_link: Option<&str>,
) -> Option<SourceRecord> {
    Some(SourceRecord {
        display_name: display_name.map(|s| s.to_string()),
        see_more_url: see_more_url.map(|s| s.to_string()),
        image_link: image_link.map(|s| s.to_string()),
    })
}

#[test]
fn noise_url_source_without_name_or_image_is_dropped() {
    let sources = vec![
        source(None, Some("https://aefd.nelreports.net/api/report"), None),
        source(None, Some("https://www.bing.com/search?q=cats"), None),
    ];
    assert!(process_source_msg(&sources).is_none());
}

#[test]
fn source_with_only_a_display_name_is_kept() {
    let sources = vec![source(Some("An Encyclopedia"), None, None)];
    let kept = process_source_msg(&sources).unwrap();
    assert_eq!(kept.len(), 1);
    assert_eq!(kept[0].display_name, Some("An Encyclopedia".to_string()));
    assert!(kept[0].see_more_url.is_none());
    assert!(kept[0].image.is_none());
}

#[test]
fn source_image_link_becomes_a_named_image() {
    let sources = vec![source(
        Some("A Site"),
        Some("https://example.org/page"),
        Some("https://example.org/img.png"),
    )];
    let kept = process_source_msg(&sources).unwrap();
    assert_eq!(kept[0].image.as_ref().unwrap().name, "bing_source_image.jpg");
    assert_eq!(kept[0].image.as_ref().unwrap().url, "https://example.org/img.png");
}

#[test]
fn malformed_source_entry_rejects_the_whole_list() {
    let sources = vec![source(Some("Fine"), None, None), None];
    assert!(process_source_msg(&sources).is_none());
}

#[test]
fn suggested_responses_collect_texts_in_order() {
    let entries = vec![
        Some("first".to_string()),
        None,
        Some("second".to_string()),
    ];
    let collected = process_suggested_responses(&entries).unwrap();
    assert_eq!(collected, vec!["first".to_string(), "second".to_string()]);
}

#[test]
fn suggested_responses_without_texts_yield_nothing() {
    let entries: Vec<Option<String>> = vec![None, None];
    assert!(process_suggested_responses(&entries).is_none());
}

#[test]
fn terminal_record_without_item_is_an_error() {
    let record = Record { type_num: Some(2), messages: Vec::new(), item: None };
    assert!(json2bot_resp_type2(&record).is_err());
}

#[test]
fn terminal_record_yields_sources_replies_and_limit() {
    let item = FinalItem {
        messages: vec![FinalMessage {
            author: Some("bot".to_string()),
            sources: Some(vec![source(Some("A Site"), None, None)]),
            suggested: Some(vec![Some("Tell me more".to_string())]),
        }],
        throttling: Some(Some(Limit {
            max_num_user_messages: 30,
            num_user_messages: 1,
            max_num_long_doc_summary_user_messages: 5,
            num_long_doc_summary_user_messages: 0,
        })),
    };
    let record = Record { type_num: Some(2), messages: Vec::new(), item: Some(item) };
    let events = json2bot_resp_type2(&record).unwrap();
    assert_eq!(events.len(), 3);
    assert!(matches!(events[0], BotResp::SourceAttribution(_)));
    assert!(matches!(events[1], BotResp::SuggestReply(_)));
    assert!(matches!(events[2], BotResp::Limit(_)));
}

#[test]
fn malformed_throttling_block_is_an_error() {
    let item = FinalItem { messages: Vec::new(), throttling: Some(None) };
    let record = Record { type_num: Some(2), messages: Vec::new(), item: Some(item) };
    assert!(json2bot_resp_type2(&record).is_err());
}

#[test]
fn user_messages_in_terminal_record_yield_nothing() {
    let item = FinalItem {
        messages: vec![FinalMessage {
            author: Some("user".to_string()),
            sources: None,
            suggested: Some(vec![Some("hello".to_string())]),
        }],
        throttling: None,
    };
    let record = Record { type_num: Some(2), messages: Vec::new(), item: Some(item) };
    let events = json2bot_resp_type2(&record).unwrap();
    assert_eq!(events.len(), 0);
}
