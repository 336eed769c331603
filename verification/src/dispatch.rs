//! The dispatcher: what each decoded record means.  Intermediate (type-1)
//! records yield apologies, notices and cumulative text updates, or spawn a
//! background generation job; terminal (type-2) records yield source
//! attributions, suggested replies and the usage block.

use vstd::prelude::*;
use crate::record::{
    ChatMessage, ChatMessageModel, FinalMessageModel, FinalItemModel, Record, SourceRecord,
    SourceRecordModel,
};
use crate::strings::{clone_opt_string, has_prefix, starts_with_str, str_eq};
use crate::types::bot_easy_resp::{
    BotResp, EventModel, Image, ImageModel, Limit, SourceAttribution, SourceModel,
};

verus! {

/// One in-flight generation job: the message that asked for it, and the
/// prompt to draw from.
#[derive(Debug, Clone)]
pub struct BackgroundJob {
    pub message_id: Option<String>,
    pub prompt: String,
}

#[verifier::ext_equal]
pub struct JobModel {
    pub message_id: Option<Seq<char>>,
    pub prompt: Seq<char>,
}

impl View for BackgroundJob {
    type V = JobModel;

    open spec fn view(&self) -> JobModel {
        JobModel { message_id: self.message_id.deep_view(), prompt: self.prompt@ }
    }
}

impl DeepView for BackgroundJob {
    type V = JobModel;

    open spec fn deep_view(&self) -> JobModel {
        self.view()
    }
}

/// Whether a nested message is an apology.
pub open spec fn spec_is_apology(m: ChatMessageModel) -> bool {
    match m.content_origin {
        Some(o) => o == "Apology"@,
        None => false,
    }
}

/// The events one nested message yields: its apology, its loader notice,
/// or the cumulative text; nothing for a generation request or any other
/// typed message, and nothing where the text is missing.
pub open spec fn spec_message_events(m: ChatMessageModel) -> Seq<EventModel> {
    match m.text {
        None => seq![],
        Some(text) => if spec_is_apology(m) {
            seq![EventModel::Apology(text)]
        } else {
            match m.message_type {
                Some(mt) => if mt == "InternalLoaderMessage"@ {
                    seq![EventModel::Notice(text)]
                } else {
                    seq![]
                },
                None => seq![EventModel::Text(text)],
            }
        },
    }
}

/// The generation job one nested message spawns, if it requests content.
pub open spec fn spec_message_spawns(m: ChatMessageModel) -> Seq<JobModel> {
    match m.text {
        None => seq![],
        Some(text) => if !spec_is_apology(m) && m.message_type == Some("GenerateContentQuery"@) {
            seq![JobModel { message_id: m.message_id, prompt: text }]
        } else {
            seq![]
        },
    }
}

/// The events of all nested messages of one intermediate record, in order.
pub open spec fn spec_type1_events(ms: Seq<ChatMessageModel>) -> Seq<EventModel>
    decreases ms.len(),
{
    if ms.len() == 0 {
        seq![]
    } else {
        spec_message_events(ms[0]) + spec_type1_events(ms.drop_first())
    }
}

/// The jobs all nested messages of one intermediate record spawn, in order.
pub open spec fn spec_type1_spawns(ms: Seq<ChatMessageModel>) -> Seq<JobModel>
    decreases ms.len(),
{
    if ms.len() == 0 {
        seq![]
    } else {
        spec_message_spawns(ms[0]) + spec_type1_spawns(ms.drop_first())
    }
}

/// Dispatches one nested message: appends its events, and the job it
/// spawns, to the accumulators.
pub fn process_text_msg(
    m: &ChatMessage,
    bot_resps: &mut Vec<BotResp>,
    tasks: &mut Vec<BackgroundJob>,
)
    ensures
        final(bot_resps).deep_view() == old(bot_resps).deep_view() + spec_message_events(m@),
        final(tasks).deep_view() == old(tasks).deep_view() + spec_message_spawns(m@),
{
    let ghost pre_events = bot_resps.deep_view();
    let ghost pre_tasks = tasks.deep_view();
    match &m.text {
        None => {}
        Some(text) => {
            let is_apology = match &m.content_origin {
                Some(o) => str_eq(o.as_str(), "Apology"),
                None => false,
            };
            if is_apology {
                bot_resps.push(BotResp::Apology(text.clone()));
                proof {
                    assert(spec_message_events(m@) =~= seq![EventModel::Apology(text@)]);
                    assert(bot_resps.deep_view() =~= pre_events.push(EventModel::Apology(text@)));
                }
            } else {
                match &m.message_type {
                    Some(mt) => {
                        if str_eq(mt.as_str(), "GenerateContentQuery") {
                            tasks.push(BackgroundJob {
                                message_id: clone_opt_string(&m.message_id),
                                prompt: text.clone(),
                            });
                            proof {
                                // The two literals differ already in length.
                                reveal_strlit("GenerateContentQuery");
                                reveal_strlit("InternalLoaderMessage");
                                assert("GenerateContentQuery"@.len() == 20);
                                assert("InternalLoaderMessage"@.len() == 21);
                                assert(tasks.deep_view() =~= pre_tasks.push(
                                    JobModel { message_id: m@.message_id, prompt: text@ },
                                ));
                            }
                        } else if str_eq(mt.as_str(), "InternalLoaderMessage") {
                            bot_resps.push(BotResp::Notice(text.clone()));
                            proof {
                                assert(spec_message_events(m@) =~= seq![
                                    EventModel::Notice(text@),
                                ]);
                                assert(bot_resps.deep_view() =~= pre_events.push(
                                    EventModel::Notice(text@),
                                ));
                            }
                        } else {
                            proof {
                                assert(spec_message_events(m@) =~= Seq::<EventModel>::empty());
                            }
                        }
                    }
                    None => {
                        bot_resps.push(BotResp::Text(text.clone()));
                        proof {
                            assert(spec_message_events(m@) =~= seq![EventModel::Text(text@)]);
                            assert(bot_resps.deep_view() =~= pre_events.push(
                                EventModel::Text(text@),
                            ));
                        }
                    }
                }
            }
        }
    }
    proof {
        reveal_strlit("GenerateContentQuery");
        reveal_strlit("InternalLoaderMessage");
        assert(bot_resps.deep_view() =~= pre_events + spec_message_events(m@));
        assert(tasks.deep_view() =~= pre_tasks + spec_message_spawns(m@));
    }
}

/// Dispatches one intermediate record: returns its events and appends the
/// jobs it spawns.
pub fn json2bot_resp_type1(r: &Record, tasks: &mut Vec<BackgroundJob>) -> (resps: Vec<BotResp>)
    ensures
        resps.deep_view() == spec_type1_events(r.messages.deep_view()),
        final(tasks).deep_view() == old(tasks).deep_view() + spec_type1_spawns(
            r.messages.deep_view(),
        ),
{
    let ghost full = r.messages.deep_view();
    let mut resps: Vec<BotResp> = Vec::new();
    let mut i: usize = 0;
    proof {
        assert(full.skip(0) =~= full);
        assert(resps.deep_view() + spec_type1_events(full) =~= spec_type1_events(full));
        assert(tasks.deep_view() + spec_type1_spawns(full) =~= old(
            tasks,
        ).deep_view() + spec_type1_spawns(full));
    }
    while i < r.messages.len()
        invariant
            0 <= i <= full.len(),
            full == r.messages.deep_view(),
            spec_type1_events(full) == resps.deep_view() + spec_type1_events(full.skip(i as int)),
            old(tasks).deep_view() + spec_type1_spawns(full) == tasks.deep_view()
                + spec_type1_spawns(full.skip(i as int)),
        decreases full.len() - i,
    {
        let ghost pre_events = resps.deep_view();
        let ghost pre_tasks = tasks.deep_view();
        proof {
            assert(full.skip(i as int)[0] == full[i as int]);
            assert(full.skip(i as int).drop_first() =~= full.skip(i + 1));
        }
        process_text_msg(&r.messages[i], &mut resps, tasks);
        proof {
            assert(resps.deep_view() + spec_type1_events(full.skip(i + 1)) =~= pre_events
                + spec_type1_events(full.skip(i as int)));
            assert(tasks.deep_view() + spec_type1_spawns(full.skip(i + 1)) =~= pre_tasks
                + spec_type1_spawns(full.skip(i as int)));
        }
        i = i + 1;
    }
    proof {
        assert(full.skip(full.len() as int) =~= Seq::<ChatMessageModel>::empty());
        assert(resps.deep_view() =~= resps.deep_view() + spec_type1_events(
            full.skip(full.len() as int),
        ));
        assert(tasks.deep_view() =~= tasks.deep_view() + spec_type1_spawns(
            full.skip(full.len() as int),
        ));
    }
    resps
}

/// The texts collected from the suggested-reply entries, in order.
pub open spec fn spec_suggestions(entries: Seq<Option<Seq<char>>>) -> Seq<Seq<char>>
    decreases entries.len(),
{
    if entries.len() == 0 {
        seq![]
    } else {
        match entries[0] {
            Some(s) => seq![s] + spec_suggestions(entries.drop_first()),
            None => spec_suggestions(entries.drop_first()),
        }
    }
}

/// Collects the suggested replies: the entries' texts in order, or nothing
/// where no entry has one.
pub fn process_suggested_responses(suggested_responses: &Vec<Option<String>>) -> (r: Option<
    Vec<String>,
>)
    ensures
        match r {
            Some(v) => v.deep_view() == spec_suggestions(suggested_responses.deep_view())
                && v@.len() > 0,
            None => spec_suggestions(suggested_responses.deep_view()).len() == 0,
        },
{
    let ghost full = suggested_responses.deep_view();
    let mut rst: Vec<String> = Vec::new();
    let mut i: usize = 0;
    proof {
        assert(full.skip(0) =~= full);
        assert(rst.deep_view() + spec_suggestions(full) =~= spec_suggestions(full));
    }
    while i < suggested_responses.len()
        invariant
            0 <= i <= full.len(),
            full == suggested_responses.deep_view(),
            spec_suggestions(full) == rst.deep_view() + spec_suggestions(full.skip(i as int)),
        decreases full.len() - i,
    {
        let ghost pre = rst.deep_view();
        proof {
            assert(full.skip(i as int)[0] == full[i as int]);
            assert(full.skip(i as int).drop_first() =~= full.skip(i + 1));
        }
        match &suggested_responses[i] {
            Some(content) => {
                rst.push(content.clone());
                proof {
                    assert(rst.deep_view() =~= pre + seq![full[i as int]->0]);
                    assert(rst.deep_view() + spec_suggestions(full.skip(i + 1)) =~= pre
                        + spec_suggestions(full.skip(i as int)));
                }
            }
            None => {}
        }
        i = i + 1;
    }
    proof {
        assert(full.skip(full.len() as int) =~= Seq::<Option<Seq<char>>>::empty());
        assert(rst.deep_view() =~= spec_suggestions(full));
    }
    if rst.len() > 0 {
        Some(rst)
    } else {
        None
    }
}

/// A URL whose host only reports noise: nothing a reader would follow.
pub open spec fn spec_noise_url(u: Seq<char>) -> bool {
    has_prefix(u, "https://aefd.nelreports.net"@) || has_prefix(
        u,
        "https://www.bing.com/search?q="@,
    )
}

/// Whether an attribution is kept: something besides a noise URL must
/// identify it — a display name, an image, or a URL worth following.
pub open spec fn spec_source_keep(s: SourceRecordModel) -> bool {
    ||| s.display_name is Some
    ||| s.image_link is Some
    ||| match s.see_more_url {
        Some(u) => !spec_noise_url(u),
        None => false,
    }
}

/// The attribution built from one well-formed entry.
pub open spec fn spec_source_model(s: SourceRecordModel) -> SourceModel {
    SourceModel {
        display_name: s.display_name,
        see_more_url: s.see_more_url,
        image: match s.image_link {
            Some(u) => Some(ImageModel { name: "bing_source_image.jpg"@, url: u }),
            None => None,
        },
    }
}

/// All entries are well formed.
pub open spec fn spec_sources_ok(entries: Seq<Option<SourceRecordModel>>) -> bool {
    forall|i: int| 0 <= i < entries.len() ==> entries[i] is Some
}

/// The attributions kept, in order.
pub open spec fn spec_kept_sources(entries: Seq<Option<SourceRecordModel>>) -> Seq<SourceModel>
    decreases entries.len(),
{
    if entries.len() == 0 {
        seq![]
    } else {
        let rest = spec_kept_sources(entries.drop_first());
        match entries[0] {
            Some(s) => if spec_source_keep(s) {
                seq![spec_source_model(s)] + rest
            } else {
                rest
            },
            None => rest,
        }
    }
}

/// Builds the kept source attributions: nothing where an entry is
/// malformed or where none is kept.
pub fn process_source_msg(sources: &Vec<Option<SourceRecord>>) -> (r: Option<
    Vec<SourceAttribution>,
>)
    ensures
        match r {
            Some(v) => spec_sources_ok(sources.deep_view()) && v@.len() > 0 && v.deep_view()
                == spec_kept_sources(sources.deep_view()),
            None => !spec_sources_ok(sources.deep_view()) || spec_kept_sources(
                sources.deep_view(),
            ).len() == 0,
        },
{
    let ghost full = sources.deep_view();
    let mut source_resps: Vec<SourceAttribution> = Vec::new();
    let mut i: usize = 0;
    proof {
        assert(full.skip(0) =~= full);
        assert(source_resps.deep_view() + spec_kept_sources(full) =~= spec_kept_sources(full));
    }
    while i < sources.len()
        invariant
            0 <= i <= full.len(),
            full == sources.deep_view(),
            forall|j: int| 0 <= j < i ==> full[j] is Some,
            spec_kept_sources(full) == source_resps.deep_view() + spec_kept_sources(
                full.skip(i as int),
            ),
        decreases full.len() - i,
    {
        let ghost pre = source_resps.deep_view();
        proof {
            assert(full.skip(i as int)[0] == full[i as int]);
            assert(full.skip(i as int).drop_first() =~= full.skip(i + 1));
        }
        match &sources[i] {
            None => {
                return None;
            }
            Some(s) => {
                let keep = s.display_name.is_some() || s.image_link.is_some() || (match
                    &s.see_more_url {
                    Some(u) => !(starts_with_str(u.as_str(), "https://aefd.nelreports.net")
                        || starts_with_str(u.as_str(), "https://www.bing.com/search?q=")),
                    None => false,
                });
                if keep {
                    let image = match &s.image_link {
                        Some(u) => Some(Image {
                            name: String::from_str("bing_source_image.jpg"),
                            url: u.clone(),
                        }),
                        None => None,
                    };
                    source_resps.push(SourceAttribution {
                        display_name: clone_opt_string(&s.display_name),
                        see_more_url: clone_opt_string(&s.see_more_url),
                        image,
                    });
                    proof {
                        assert(source_resps.deep_view() =~= pre + seq![
                            spec_source_model(full[i as int]->0),
                        ]);
                    }
                }
                proof {
                    assert(source_resps.deep_view() + spec_kept_sources(full.skip(i + 1)) =~= pre
                        + spec_kept_sources(full.skip(i as int)));
                }
            }
        }
        i = i + 1;
    }
    proof {
        assert(full.skip(full.len() as int) =~= Seq::<Option<SourceRecordModel>>::empty());
        assert(source_resps.deep_view() =~= spec_kept_sources(full));
    }
    if source_resps.len() > 0 {
        Some(source_resps)
    } else {
        None
    }
}

/// The events one terminal-record message yields: its kept source
/// attributions and its collected suggested replies, where the author is
/// the bot and the lists are non-empty.
pub open spec fn spec_bot_msg_events(m: FinalMessageModel) -> Seq<EventModel> {
    if m.author != Some("bot"@) {
        seq![]
    } else {
        let src: Seq<EventModel> = match m.sources {
            Some(entries) => if spec_sources_ok(entries) && spec_kept_sources(entries).len() > 0 {
                seq![EventModel::SourceAttribution(spec_kept_sources(entries))]
            } else {
                seq![]
            },
            None => seq![],
        };
        let sug: Seq<EventModel> = match m.suggested {
            Some(entries) => if spec_suggestions(entries).len() > 0 {
                seq![EventModel::SuggestReply(spec_suggestions(entries))]
            } else {
                seq![]
            },
            None => seq![],
        };
        src + sug
    }
}

/// The events of all messages of one terminal record, in order.
pub open spec fn spec_type2_msgs_events(ms: Seq<FinalMessageModel>) -> Seq<EventModel>
    decreases ms.len(),
{
    if ms.len() == 0 {
        seq![]
    } else {
        spec_bot_msg_events(ms[0]) + spec_type2_msgs_events(ms.drop_first())
    }
}

/// What a terminal record's body yields: its messages' events, then the
/// usage block; nothing where the usage block is present but malformed.
pub open spec fn spec_type2_result(item: FinalItemModel) -> Option<Seq<EventModel>> {
    match item.throttling {
        None => Some(spec_type2_msgs_events(item.messages)),
        Some(Some(l)) => Some(
            spec_type2_msgs_events(item.messages).push(EventModel::Limit(l)),
        ),
        Some(None) => None,
    }
}

/// Dispatches one terminal record.
pub fn json2bot_resp_type2(r: &Record) -> (out: Result<Vec<BotResp>, String>)
    ensures
        match out {
            Ok(events) => r@.item matches Some(item) && spec_type2_result(item) == Some(
                events.deep_view(),
            ),
            Err(m) => (r@.item is None && m@ == "Item object not found in JSON"@) || (
            r@.item matches Some(item) && item.throttling == Some(None::<Limit>) && m@
                == "Failed to parse limit."@),
        },
{
    match &r.item {
        None => Err(String::from_str("Item object not found in JSON")),
        Some(item) => {
            let ghost full = item.messages.deep_view();
            let mut bot_resps: Vec<BotResp> = Vec::new();
            let mut i: usize = 0;
            proof {
                assert(full.skip(0) =~= full);
                assert(bot_resps.deep_view() + spec_type2_msgs_events(full)
                    =~= spec_type2_msgs_events(full));
            }
            while i < item.messages.len()
                invariant
                    0 <= i <= full.len(),
                    full == item.messages.deep_view(),
                    spec_type2_msgs_events(full) == bot_resps.deep_view()
                        + spec_type2_msgs_events(full.skip(i as int)),
                decreases full.len() - i,
            {
                let ghost pre = bot_resps.deep_view();
                proof {
                    assert(full.skip(i as int)[0] == full[i as int]);
                    assert(full.skip(i as int).drop_first() =~= full.skip(i + 1));
                }
                let msg = &item.messages[i];
                let is_bot = match &msg.author {
                    Some(a) => str_eq(a.as_str(), "bot"),
                    None => false,
                };
                if is_bot {
                    match &msg.sources {
                        Some(entries) => {
                            match process_source_msg(entries) {
                                Some(sources) => {
                                    bot_resps.push(BotResp::SourceAttribution(sources));
                                }
                                None => {}
                            }
                        }
                        None => {}
                    }
                    match &msg.suggested {
                        Some(entries) => {
                            match process_suggested_responses(entries) {
                                Some(s) => {
                                    bot_resps.push(BotResp::SuggestReply(s));
                                }
                                None => {}
                            }
                        }
                        None => {}
                    }
                }
                proof {
                    assert(bot_resps.deep_view() =~= pre + spec_bot_msg_events(full[i as int]));
                    assert(bot_resps.deep_view() + spec_type2_msgs_events(full.skip(i + 1)) =~= pre
                        + spec_type2_msgs_events(full.skip(i as int)));
                }
                i = i + 1;
            }
            proof {
                assert(full.skip(full.len() as int) =~= Seq::<FinalMessageModel>::empty());
                assert(bot_resps.deep_view() =~= spec_type2_msgs_events(full));
            }
            match &item.throttling {
                Some(Some(limit)) => {
                    bot_resps.push(BotResp::Limit(*limit));
                    proof {
                        assert(bot_resps.deep_view() =~= spec_type2_msgs_events(full).push(
                            EventModel::Limit(*limit),
                        ));
                    }
                    Ok(bot_resps)
                }
                Some(None) => Err(String::from_str("Failed to parse limit.")),
                None => Ok(bot_resps),
            }
        }
    }
}

/// A source whose only identifying field is a noise URL is dropped.
pub proof fn lemma_noise_only_source_dropped(s: SourceRecordModel)
    requires
        s.display_name is None,
        s.image_link is None,
        match s.see_more_url {
            Some(u) => spec_noise_url(u),
            None => true,
        },
    ensures
        !spec_source_keep(s),
{
}

/// A source with a display name is kept, whatever its URL.
pub proof fn lemma_named_source_kept(s: SourceRecordModel)
    requires
        s.display_name is Some,
    ensures
        spec_source_keep(s),
{
}

} // verus!
