use bing_client::client::BingClient;
use bing_client::history::{process_chat_msgs, HistoryMsg, PollOutcome};
use bing_client::record::SourceRecord;
use bing_client::types::bot_easy_resp::Image;
use bing_client::types::chat_type::Chat;
use bing_client::types::plugin_type::Plugin;
use bing_client::types::user_input_type::{
    AllowedMessageTypes, Message, OptionsSets, SliceIds, Tone, UserInput,
};

#[test]
fn plugin_names_round_trip() {
    let plugin = Plugin::build_by_name("Suno").unwrap();
    assert_eq!(plugin.id, "22b7f79d-8ea4-437e-b5fd-3e21f09f7bc1");
    assert_eq!(plugin.category, 1);
    assert_eq!(plugin.get_name(), "Suno");
    assert!(Plugin::build_by_name("Nonsense").is_none());
    let unknown = Plugin { id: "no-such-id".to_string(), category: 1 };
    assert_eq!(unknown.get_name(), "Unknown Plugin");
    assert_eq!(Plugin::search().get_name(), "Search");
    assert_eq!(Plugin::klarna().id, "5f143ea3-8c80-4efd-9515-185e83b7cf8a");
}

#[test]
fn tone_names_round_trip() {
    assert!(matches!(Tone::build_by_name("Creative"), Some(Tone::Creative)));
    assert!(matches!(Tone::build_by_name("Balanced"), Some(Tone::Balanced)));
    assert!(matches!(Tone::build_by_name("Precise"), Some(Tone::Precise)));
    assert!(Tone::build_by_name("precise").is_none());
    assert_eq!(Tone::Creative.render(), "Creative");
}

#[test]
fn option_sets_differ_only_where_documented() {
    let creative = OptionsSets::creative().0;
    let balanced = OptionsSets::balanced().0;
    let precise = OptionsSets::precise().0;
    assert_eq!(creative.len(), 23);
    assert_eq!(balanced.len(), 22);
    assert_eq!(precise.len(), 23);
    assert!(creative.contains(&"h3imaginative".to_string()));
    assert!(balanced.contains(&"galileo".to_string()));
    assert!(precise.contains(&"h3precise".to_string()));
    assert_eq!(creative[0], "nlu_direct_response_filter");
    assert_eq!(AllowedMessageTypes::creative().0, AllowedMessageTypes::precise().0);
    assert_eq!(AllowedMessageTypes::balanced().0.len(), 18);
    assert_eq!(SliceIds::creative().0, SliceIds::balanced().0);
    assert_eq!(SliceIds::precise().0.len(), 30);
}

#[test]
fn message_build_fills_the_fixed_fields() {
    let msg = Message::build(
        "hello".to_string(),
        Some("https://img".to_string()),
        "uuid-1".to_string(),
    );
    assert_eq!(msg.locale, "en-US");
    assert_eq!(msg.author, "user");
    assert_eq!(msg.input_method, "Keyboard");
    assert_eq!(msg.message_type, "Chat");
    assert_eq!(msg.text, "hello");
    assert_eq!(msg.image_url, Some("https://img".to_string()));
    assert_eq!(msg.original_image_url, Some("https://img".to_string()));
    assert_eq!(msg.request_id, "uuid-1");
    assert_eq!(msg.message_id, "uuid-1");
}

#[test]
fn user_input_prefers_the_conversation_tone_and_plugins() {
    let client = BingClient::new("k=v".to_string());
    let mut chat = Chat::new("conv-1".to_string());
    chat.tone = Some("Precise".to_string());
    chat.plugins = vec![Plugin::search()];
    let input = UserInput::build(
        "question".to_string(),
        None,
        Tone::Creative,
        vec![Plugin::suno()],
        &chat,
        &client,
    );
    assert_eq!(input.arguments.len(), 1);
    let arg = &input.arguments[0];
    assert_eq!(arg.tone, "Precise");
    assert_eq!(arg.plugins.len(), 1);
    assert_eq!(arg.plugins[0].id, Plugin::search().id);
    assert_eq!(arg.conversation_id, "conv-1");
    assert_eq!(arg.message.text, "question");
    assert_eq!(arg.request_id.len(), 36);
    assert_eq!(arg.request_id, arg.message.message_id);
    assert_eq!(arg.trace_id.len(), 32);
    assert!(arg.trace_id.chars().all(|c| c.is_ascii_hexdigit() && !c.is_ascii_uppercase()));
    assert_eq!(input.invocation_id, "0");
    assert_eq!(input.target, "chat");
    assert_eq!(input.type_num, 4);
}

#[test]
fn user_input_falls_back_to_the_given_tone_and_plugins() {
    let client = BingClient::new(String::new());
    let mut chat = Chat::new("conv-2".to_string());
    chat.tone = Some("NotATone".to_string());
    let input = UserInput::build(
        "q".to_string(),
        None,
        Tone::Balanced,
        vec![Plugin::suno()],
        &chat,
        &client,
    );
    let arg = &input.arguments[0];
    assert_eq!(arg.tone, "Balanced");
    assert_eq!(arg.plugins[0].id, Plugin::suno().id);
}

fn bare_history_msg() -> HistoryMsg {
    HistoryMsg {
        has_scores: false,
        has_suggested_array: false,
        content_type: None,
        adaptive_null: true,
        author: None,
        text: None,
        sources: None,
        suggested: None,
        image_url: None,
        original_image_url: None,
        persistent_urls: Vec::new(),
    }
}

#[test]
fn history_keeps_only_qualifying_messages() {
    let mut user_msg = bare_history_msg();
    user_msg.has_scores = true;
    user_msg.author = Some("user".to_string());
    user_msg.text = Some("hello".to_string());
    user_msg.image_url = Some("https://attach".to_string());

    let skipped = bare_history_msg();

    let mut no_text = bare_history_msg();
    no_text.has_scores = true;
    no_text.author = Some("user".to_string());

    let msgs = vec![user_msg, skipped, no_text];
    let polls = vec![Vec::new(), Vec::new(), Vec::new()];
    let easy = process_chat_msgs(&msgs, &polls);
    assert_eq!(easy.len(), 1);
    assert_eq!(easy[0].author, "user");
    assert_eq!(easy[0].text, "hello");
    assert_eq!(easy[0].images.len(), 1);
    assert_eq!(easy[0].images[0].name, "user_image_attachment.jpg");
    assert_eq!(easy[0].images[0].url, "https://attach");
}

#[test]
fn bot_image_message_takes_the_last_successful_poll() {
    let mut bot_msg = bare_history_msg();
    bot_msg.has_suggested_array = true;
    bot_msg.content_type = Some("IMAGE".to_string());
    bot_msg.adaptive_null = false;
    bot_msg.author = Some("bot".to_string());
    bot_msg.text = Some("a cat".to_string());
    bot_msg.persistent_urls = vec!["https://p1".to_string(), "https://p2".to_string()];
    bot_msg.sources = Some(vec![Some(SourceRecord {
        display_name: Some("A Site".to_string()),
        see_more_url: None,
        image_link: None,
    })]);
    bot_msg.suggested = Some(vec![Some("More?".to_string())]);

    let polls = vec![vec![
        PollOutcome::Failed("Drawing Failed: Timed out.".to_string()),
        PollOutcome::Images(vec![Image {
            name: "bing_image_1.jpg".to_string(),
            url: "https://img1".to_string(),
        }]),
    ]];
    let easy = process_chat_msgs(&vec![bot_msg], &polls);
    assert_eq!(easy.len(), 2);
    assert_eq!(easy[0].author, "bot");
    assert_eq!(easy[0].text, "Drawing Failed: Timed out.");
    assert_eq!(easy[0].images.len(), 0);
    assert_eq!(easy[1].text, "a cat");
    assert_eq!(easy[1].images.len(), 1);
    assert_eq!(easy[1].images[0].url, "https://img1");
    assert_eq!(easy[1].sources.len(), 1);
    assert_eq!(easy[1].suggest_replys, vec!["More?".to_string()]);
}

#[test]
fn signature_cache_holds_both_tokens_together() {
    let mut chat = Chat::new("c".to_string());
    assert!(!chat.has_stream_token());
    chat.install_signature("plain".to_string(), "enc".to_string());
    assert!(chat.has_stream_token());
    assert_eq!(chat.signature.plain, Some("plain".to_string()));
    assert_eq!(chat.signature.encrypted, Some("enc".to_string()));
}
