use bing_client::const_vars::{
    gen_chat_hub_wss_url, gen_draw_image_url, gen_get_chat_messages_url,
    gen_get_chat_signature_url, gen_get_images_url, gen_get_suno_url, gen_image_payload_url,
    gen_suno_url,
};
use bing_client::cookie_pre::{cookie2str, ensure_edge_cd, join_cookie_pairs};
use bing_client::draw_image::{
    extract_image_links, extract_request_id, images_from_links, job_event, poll_attempt_budget,
    poll_content_ready,
};
use bing_client::strings::{contains_str, dec_u64, find_str, starts_with_str, str_eq};
use bing_client::types::bot_easy_resp::{BotResp, Image};

#[test]
fn decimal_rendering_is_exact() {
    assert_eq!(dec_u64(0), "0");
    assert_eq!(dec_u64(7), "7");
    assert_eq!(dec_u64(12345), "12345");
    assert_eq!(dec_u64(u64::MAX), "18446744073709551615");
}

#[test]
fn string_search_finds_the_first_occurrence() {
    assert_eq!(find_str("abcabc", "bc"), Some(1));
    assert_eq!(find_str("abc", "zz"), None);
    assert!(contains_str("hello world", "o w"));
    assert!(!contains_str("hello", "world"));
    assert!(starts_with_str("https://x", "https://"));
    assert!(!starts_with_str("http://x", "https://"));
    assert!(str_eq("same", "same"));
    assert!(!str_eq("same", "sam"));
}

#[test]
fn url_builders_produce_the_documented_endpoints() {
    assert_eq!(
        gen_chat_hub_wss_url("a token"),
        "wss://sydney.bing.com/sydney/ChatHub?sec_access_token=a%20token"
    );
    assert_eq!(
        gen_get_chat_signature_url("conv/1"),
        "https://www.bing.com/turing/conversation/create?conversationId=conv%2F1&bundleVersion=1.1600.1-nodesign2"
    );
    assert_eq!(
        gen_image_payload_url("blob9"),
        "https://www.bing.com/images/blob?bcid=blob9"
    );
    assert_eq!(
        gen_get_images_url("req1"),
        "https://www.bing.com/images/create/async/results/req1?showselective=1&partner=sydney&FORM=SYDBIC"
    );
    let url = gen_get_chat_messages_url("c1", "cl1");
    assert!(url.starts_with(
        "https://sydney.bing.com/sydney/GetConversation?conversationId=c1&source=cib&bundleVersion=1.1600.1-nodesign2&participantId=cl1&traceId="
    ));
    let trace = url.rsplit("traceId=").next().unwrap();
    assert_eq!(trace.len(), 36);
    let draw = gen_draw_image_url("a cat", "frame1");
    assert!(draw.contains("q=prompt%3D%27a%20cat%27"));
    assert!(draw.ends_with("&iframeid=frame1"));
    let suno = gen_suno_url("r1");
    assert!(suno.ends_with("&requestid=r1"));
    assert!(gen_get_suno_url("r1").contains("requestid=r1"));
}

#[test]
fn cookie_export_joins_into_a_header_string() {
    let json = "[{\"name\":\"a\",\"value\":\"1\",\"domain\":\".bing.com\"},{\"name\":\"b\",\"value\":\"2\"}]";
    assert_eq!(cookie2str(json).unwrap(), "a=1;b=2");
    assert!(cookie2str("not json").is_err());
    assert!(cookie2str("{\"name\":\"a\"}").is_err());
    assert!(cookie2str("[{\"name\":\"a\"}]").is_err());
    assert_eq!(join_cookie_pairs(&Vec::new()), "");
}

#[test]
fn the_locale_marker_is_appended_once() {
    assert_eq!(ensure_edge_cd("a=1".to_string()), "a=1;_EDGE_CD=m=en-us&u=en-us");
    assert_eq!(ensure_edge_cd("a=1;".to_string()), "a=1;_EDGE_CD=m=en-us&u=en-us");
    assert_eq!(
        ensure_edge_cd("a=1;_EDGE_CD=m=en-us&u=en-us".to_string()),
        "a=1;_EDGE_CD=m=en-us&u=en-us"
    );
    assert_eq!(ensure_edge_cd(String::new()), ";_EDGE_CD=m=en-us&u=en-us");
}

#[test]
fn request_id_extraction_follows_the_last_id_marker() {
    assert_eq!(extract_request_id("/images/create?id=abc123&rest=1"), "abc123");
    assert_eq!(extract_request_id("/images/create?id=abc123"), "abc123");
    assert_eq!(extract_request_id("no marker here"), "no marker here");
    assert_eq!(extract_request_id("x?id=1&y?id=2&z"), "2");
}

#[test]
fn poll_budgets_and_readiness() {
    assert_eq!(poll_attempt_budget(true), 100);
    assert_eq!(poll_attempt_budget(false), 50);
    assert!(poll_content_ready("<img src=\"https://th.bing.com/th/id/x\">"));
    assert!(!poll_content_ready("pending"));
}

#[test]
fn image_links_are_filtered_and_cut() {
    let content = "<img src=\"https://th.example.com/a.png?w=270&h=270\"> \
                   <img src=\"https://r.bing.com/rp/x\"> \
                   <img src=\"https://www.clarity.ms/t\"> \
                   <img src=\"relative/path\"> \
                   <img src=\"https://th.example.com/b.png\">";
    let links = extract_image_links(content);
    assert_eq!(
        links,
        vec!["https://th.example.com/a.png".to_string(), "https://th.example.com/b.png".to_string()]
    );
}

#[test]
fn extracted_links_become_numbered_images() {
    let links = vec!["https://a".to_string(), "https://b".to_string()];
    let images = images_from_links(&links);
    assert_eq!(images.len(), 2);
    assert_eq!(images[0].name, "bing_image_1.jpg");
    assert_eq!(images[0].url, "https://a");
    assert_eq!(images[1].name, "bing_image_2.jpg");
}

#[test]
fn a_job_resolves_to_images_or_an_apology() {
    let images = vec![Image { name: "bing_image_1.jpg".to_string(), url: "https://a".to_string() }];
    assert_eq!(job_event(Ok(images.clone())), BotResp::Image(images));
    assert_eq!(
        job_event(Err("Drawing Failed: Timed out.".to_string())),
        BotResp::Apology(
            "Bing Copilot Draw Image Failed; Error Message: Drawing Failed: Timed out.".to_string()
        )
    );
}
