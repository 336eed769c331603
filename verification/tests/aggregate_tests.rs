use bing_client::aggregate::ResponseAggregator;
use bing_client::record::decode_records;
use bing_client::session::{SessionInput, StreamSession};
use bing_client::types::bot_easy_resp::{BotResp, Image, Limit, SourceAttribution};

#[test]
fn three_text_updates_then_a_suggested_reply() {
    let mut session = StreamSession::new();
    session.transport_connected();
    session.handshake_done();
    let frames = [
        "{\"type\":1,\"arguments\":[{\"messages\":[{\"text\":\"Hi\"}]}]}\x1e",
        "{\"type\":1,\"arguments\":[{\"messages\":[{\"text\":\"Hi there\"}]}]}\x1e",
        "{\"type\":1,\"arguments\":[{\"messages\":[{\"text\":\"Hi there!\"}]}]}\x1e",
        "{\"type\":2,\"item\":{\"messages\":[{\"author\":\"bot\",\"suggestedResponses\":[{\"text\":\"Tell me more\"}]}]}}\x1e",
    ];
    let mut events: Vec<BotResp> = Vec::new();
    for frame in frames {
        let mut out = session.step(SessionInput::Records(decode_records(frame)), false);
        events.append(&mut out.events);
    }
    let mut drained = session.drain(Vec::new());
    events.append(&mut drained);
    let text = ResponseAggregator::reduce(events);
    assert_eq!(text, "Hi there!\n\nSuggest Replys:\n\n1. Tell me more\n");
}

#[test]
fn latest_text_update_replaces_the_previous_one() {
    let mut agg = ResponseAggregator::new();
    let first = agg.absorb(BotResp::Text("Hi".to_string()));
    assert_eq!(first, Some("Hi".to_string()));
    let second = agg.absorb(BotResp::Text("Hi there".to_string()));
    assert_eq!(second, Some("Hi there".to_string()));
    assert_eq!(agg.finish(), "Hi there");
}

#[test]
fn no_events_reduce_to_the_empty_string() {
    assert_eq!(ResponseAggregator::reduce(Vec::new()), "");
}

#[test]
fn notices_and_apologies_are_not_kept() {
    let events = vec![
        BotResp::Notice("Searching...".to_string()),
        BotResp::Text("Done".to_string()),
        BotResp::Apology("sorry".to_string()),
    ];
    assert_eq!(ResponseAggregator::reduce(events), "Done");
}

#[test]
fn sections_appear_in_the_fixed_order() {
    let events = vec![
        BotResp::Text("Answer".to_string()),
        BotResp::SuggestReply(vec!["More".to_string()]),
        BotResp::Image(vec![Image {
            name: "bing_image_1.jpg".to_string(),
            url: "https://i/1".to_string(),
        }]),
        BotResp::SourceAttribution(vec![SourceAttribution {
            display_name: Some("A Site".to_string()),
            see_more_url: Some("https://s/1".to_string()),
            image: None,
        }]),
        BotResp::Limit(Limit {
            max_num_user_messages: 30,
            num_user_messages: 2,
            max_num_long_doc_summary_user_messages: 5,
            num_long_doc_summary_user_messages: 0,
        }),
    ];
    let text = ResponseAggregator::reduce(events);
    assert_eq!(
        text,
        "Answer\n\nImages:\n\n1. ![bing_image_1.jpg](https://i/1)\n\nSources:\n\n1. [A Site](https://s/1)\n\nSuggest Replys:\n\n1. More\n\nLimits:\n\n1. Limit: 2 of 30.\n"
    );
}

#[test]
fn limit_renders_as_a_usage_line() {
    let limit = Limit {
        max_num_user_messages: 30,
        num_user_messages: 1,
        max_num_long_doc_summary_user_messages: 5,
        num_long_doc_summary_user_messages: 0,
    };
    assert_eq!(limit.render(), "Limit: 1 of 30.");
}

#[test]
fn source_line_falls_back_to_the_url_and_to_unknown() {
    let with_url = SourceAttribution {
        display_name: None,
        see_more_url: Some("https://s/2".to_string()),
        image: None,
    };
    assert_eq!(with_url.render(), "[https://s/2](https://s/2)");
    let bare = SourceAttribution { display_name: None, see_more_url: None, image: None };
    assert_eq!(bare.render(), "[Unknown](Unknown)");
    let with_image = SourceAttribution {
        display_name: Some("A".to_string()),
        see_more_url: None,
        image: Some(Image { name: "n.jpg".to_string(), url: "https://i".to_string() }),
    };
    assert_eq!(with_image.render(), "[A](Unknown)\n![n.jpg](https://i)");
}
