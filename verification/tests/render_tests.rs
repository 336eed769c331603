use bing_client::types::bot_easy_resp::{BotResp, Image, Limit, SourceAttribution};
use bing_client::types::chat_msg_type::EasyMsg;

#[test]
fn event_renderings_match_their_display_forms() {
    assert_eq!(BotResp::Text("hello".to_string()).render(), "hello");
    assert_eq!(BotResp::Notice("wait".to_string()).render(), "wait");
    assert_eq!(BotResp::Apology("sorry".to_string()).render(), "sorry");
    assert_eq!(
        BotResp::SuggestReply(vec!["a".to_string(), "b".to_string()]).render(),
        "0: a1: b"
    );
    assert_eq!(
        BotResp::Image(vec![
            Image { name: "x.jpg".to_string(), url: "https://x".to_string() },
            Image { name: "y.jpg".to_string(), url: "https://y".to_string() },
        ])
        .render(),
        "![x.jpg](https://x)\n![y.jpg](https://y)\n"
    );
    assert_eq!(
        BotResp::SourceAttribution(vec![SourceAttribution {
            display_name: Some("A".to_string()),
            see_more_url: Some("https://a".to_string()),
            image: None,
        }])
        .render(),
        "[A](https://a)\n"
    );
    assert_eq!(
        BotResp::Limit(Limit {
            max_num_user_messages: 30,
            num_user_messages: 4,
            max_num_long_doc_summary_user_messages: 5,
            num_long_doc_summary_user_messages: 0,
        })
        .render(),
        "Limit: 4 of 30."
    );
}

#[test]
fn duplicate_preserves_an_event() {
    let event = BotResp::SourceAttribution(vec![SourceAttribution {
        display_name: Some("A".to_string()),
        see_more_url: None,
        image: Some(Image { name: "i.jpg".to_string(), url: "https://i".to_string() }),
    }]);
    assert_eq!(event.duplicate(), event);
}

#[test]
fn stored_message_renders_its_sections() {
    let msg = EasyMsg {
        author: "bot".to_string(),
        text: "Here you go".to_string(),
        images: vec![Image { name: "bing_image_1.jpg".to_string(), url: "https://i".to_string() }],
        sources: vec![SourceAttribution {
            display_name: Some("A Site".to_string()),
            see_more_url: Some("https://s".to_string()),
            image: None,
        }],
        suggest_replys: vec!["More".to_string()],
    };
    assert_eq!(
        msg.render(),
        "Here you go\nImages:\n\n![bing_image_1.jpg](https://i)\n\nSources:\n\n0. [A Site](https://s)\n\nSuggest Replys:\n\n0. More\n"
    );
}

#[test]
fn bare_stored_message_renders_just_its_text() {
    let msg = EasyMsg {
        author: "user".to_string(),
        text: "hi".to_string(),
        images: Vec::new(),
        sources: Vec::new(),
        suggest_replys: Vec::new(),
    };
    assert_eq!(msg.render(), "hi");
}
