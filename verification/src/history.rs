//! Processing of a conversation's stored history: which messages count,
//! what each displays, and how a bot message's generated images — polled
//! by the transport layer — fold into the result.

use vstd::prelude::*;
use crate::dispatch::{spec_kept_sources, spec_sources_ok, spec_suggestions,
    process_source_msg, process_suggested_responses};
use crate::record::{opt_view, SourceRecord, SourceRecordModel, source_record_from_value,
    string_field};
use crate::strings::str_eq;
use crate::trusted::{json_as_array, json_get, json_is_null};
use crate::types::bot_easy_resp::{Image, ImageModel, SourceModel};
use crate::types::chat_msg_type::{EasyMsg, EasyMsgModel};

verus! {

/// One stored message, reduced to what the processing reads.
#[derive(Debug, Clone)]
pub struct HistoryMsg {
    /// The message carries a score array.
    pub has_scores: bool,
    /// The message carries a suggested-responses array.
    pub has_suggested_array: bool,
    pub content_type: Option<String>,
    /// The adaptive-cards field is present and null.
    pub adaptive_null: bool,
    pub author: Option<String>,
    pub text: Option<String>,
    pub sources: Option<Vec<Option<SourceRecord>>>,
    pub suggested: Option<Vec<Option<String>>>,
    pub image_url: Option<String>,
    pub original_image_url: Option<String>,
    /// The persistent URLs of the message's adaptive cards, to poll for
    /// generated images.
    pub persistent_urls: Vec<String>,
}

#[verifier::ext_equal]
pub struct HistoryMsgModel {
    pub has_scores: bool,
    pub has_suggested_array: bool,
    pub content_type: Option<Seq<char>>,
    pub adaptive_null: bool,
    pub author: Option<Seq<char>>,
    pub text: Option<Seq<char>>,
    pub sources: Option<Seq<Option<SourceRecordModel>>>,
    pub suggested: Option<Seq<Option<Seq<char>>>>,
    pub image_url: Option<Seq<char>>,
    pub original_image_url: Option<Seq<char>>,
    pub persistent_urls: Seq<Seq<char>>,
}

impl View for HistoryMsg {
    type V = HistoryMsgModel;

    open spec fn view(&self) -> HistoryMsgModel {
        HistoryMsgModel {
            has_scores: self.has_scores,
            has_suggested_array: self.has_suggested_array,
            content_type: opt_view(self.content_type),
            adaptive_null: self.adaptive_null,
            author: opt_view(self.author),
            text: opt_view(self.text),
            sources: match self.sources {
                Some(v) => Some(v.deep_view()),
                None => None,
            },
            suggested: match self.suggested {
                Some(v) => Some(v.deep_view()),
                None => None,
            },
            image_url: opt_view(self.image_url),
            original_image_url: opt_view(self.original_image_url),
            persistent_urls: self.persistent_urls.deep_view(),
        }
    }
}

impl DeepView for HistoryMsg {
    type V = HistoryMsgModel;

    open spec fn deep_view(&self) -> HistoryMsgModel {
        self.view()
    }
}

/// What polling one persistent URL yielded.
#[derive(Debug, Clone)]
pub enum PollOutcome {
    Images(Vec<Image>),
    Failed(String),
}

#[verifier::ext_equal]
pub enum PollOutcomeModel {
    Images(Seq<ImageModel>),
    Failed(Seq<char>),
}

impl View for PollOutcome {
    type V = PollOutcomeModel;

    open spec fn view(&self) -> PollOutcomeModel {
        match self {
            PollOutcome::Images(v) => PollOutcomeModel::Images(v.deep_view()),
            PollOutcome::Failed(m) => PollOutcomeModel::Failed(m@),
        }
    }
}

impl DeepView for PollOutcome {
    type V = PollOutcomeModel;

    open spec fn deep_view(&self) -> PollOutcomeModel {
        self.view()
    }
}

/// Whether a stored message is shown at all: it must carry scores, a
/// suggested-responses array, or typed content with adaptive cards.
pub open spec fn spec_included(m: HistoryMsgModel) -> bool {
    m.has_scores || m.has_suggested_array || (m.content_type is Some && !m.adaptive_null)
}

/// The image a user message attached, if any.
pub open spec fn spec_user_images(m: HistoryMsgModel) -> Seq<ImageModel> {
    match m.image_url {
        Some(u) => seq![ImageModel { name: "user_image_attachment.jpg"@, url: u }],
        None => match m.original_image_url {
            Some(u) => seq![ImageModel { name: "user_image_attachment.jpg"@, url: u }],
            None => seq![],
        },
    }
}

/// The images of the last poll that succeeded, or none.
pub open spec fn spec_last_images(polls: Seq<PollOutcomeModel>) -> Seq<ImageModel>
    decreases polls.len(),
{
    if polls.len() == 0 {
        seq![]
    } else {
        match polls.last() {
            PollOutcomeModel::Images(v) => v,
            PollOutcomeModel::Failed(_) => spec_last_images(polls.drop_last()),
        }
    }
}

/// The images a message displays: a user message shows its attachment; a
/// bot image message shows what the successful polls delivered last.
pub open spec fn spec_msg_images(m: HistoryMsgModel, polls: Seq<PollOutcomeModel>) -> Seq<
    ImageModel,
> {
    if m.author == Some("user"@) {
        spec_user_images(m)
    } else if m.author == Some("bot"@) && m.content_type == Some("IMAGE"@) {
        spec_last_images(polls)
    } else {
        seq![]
    }
}

/// One error message for each poll that failed, in order.
pub open spec fn spec_failed_polls(author: Seq<char>, polls: Seq<PollOutcomeModel>) -> Seq<
    EasyMsgModel,
>
    decreases polls.len(),
{
    if polls.len() == 0 {
        seq![]
    } else {
        let rest = spec_failed_polls(author, polls.drop_first());
        match polls[0] {
            PollOutcomeModel::Failed(e) => seq![
                EasyMsgModel {
                    author: author,
                    text: e,
                    images: seq![],
                    sources: seq![],
                    suggest_replys: seq![],
                },
            ] + rest,
            PollOutcomeModel::Images(_) => rest,
        }
    }
}

/// The error messages a message's polling produced: only a bot image
/// message polls at all.
pub open spec fn spec_msg_errors(m: HistoryMsgModel, polls: Seq<PollOutcomeModel>) -> Seq<
    EasyMsgModel,
> {
    if m.author == Some("bot"@) && m.content_type == Some("IMAGE"@) {
        spec_failed_polls("bot"@, polls)
    } else {
        seq![]
    }
}

/// The source attributions a message displays.
pub open spec fn spec_msg_sources(m: HistoryMsgModel) -> Seq<SourceModel> {
    match m.sources {
        Some(entries) => if spec_sources_ok(entries) {
            spec_kept_sources(entries)
        } else {
            seq![]
        },
        None => seq![],
    }
}

/// The suggested replies a message displays.
pub open spec fn spec_msg_suggests(m: HistoryMsgModel) -> Seq<Seq<char>> {
    match m.suggested {
        Some(entries) => spec_suggestions(entries),
        None => seq![],
    }
}

/// What one stored message contributes: the polling errors, then the
/// message itself — nothing where the message is filtered out or lacks an
/// author or text.
pub open spec fn spec_msg_contrib(m: HistoryMsgModel, polls: Seq<PollOutcomeModel>) -> Seq<
    EasyMsgModel,
> {
    if !spec_included(m) {
        seq![]
    } else {
        match (m.author, m.text) {
            (Some(a), Some(t)) => spec_msg_errors(m, polls) + seq![
                EasyMsgModel {
                    author: a,
                    text: t,
                    images: spec_msg_images(m, polls),
                    sources: spec_msg_sources(m),
                    suggest_replys: spec_msg_suggests(m),
                },
            ],
            _ => seq![],
        }
    }
}

/// What a whole history contributes, message by message.
pub open spec fn spec_history(ms: Seq<HistoryMsgModel>, polls: Seq<Seq<PollOutcomeModel>>) -> Seq<
    EasyMsgModel,
>
    decreases ms.len(),
{
    if ms.len() == 0 || polls.len() == 0 {
        seq![]
    } else {
        spec_msg_contrib(ms[0], polls[0]) + spec_history(ms.drop_first(), polls.drop_first())
    }
}

/// Reads one stored message out of the parsed history.
pub fn history_msg_from_value(v: &serde_json::Value) -> HistoryMsg {
    let has_scores = match json_get(v, "scores") {
        Some(f) => json_as_array(f).is_some(),
        None => false,
    };
    let (has_suggested_array, suggested) = match json_get(v, "suggestedResponses") {
        Some(f) => match json_as_array(f) {
            Some(arr) => {
                let mut out: Vec<Option<String>> = Vec::new();
                let mut i: usize = 0;
                while i < arr.len()
                    decreases arr.len() - i,
                {
                    out.push(string_field(&arr[i], "text"));
                    i = i + 1;
                }
                (true, Some(out))
            }
            None => (false, None),
        },
        None => (false, None),
    };
    let sources = match json_get(v, "sourceAttributions") {
        Some(f) => match json_as_array(f) {
            Some(arr) => {
                let mut out: Vec<Option<SourceRecord>> = Vec::new();
                let mut i: usize = 0;
                while i < arr.len()
                    decreases arr.len() - i,
                {
                    out.push(source_record_from_value(&arr[i]));
                    i = i + 1;
                }
                Some(out)
            }
            None => None,
        },
        None => None,
    };
    let mut persistent_urls: Vec<String> = Vec::new();
    match json_get(v, "adaptiveCards") {
        Some(cards_v) => match json_as_array(cards_v) {
            Some(cards) => {
                let mut i: usize = 0;
                while i < cards.len()
                    decreases cards.len() - i,
                {
                    match json_get(&cards[i], "body") {
                        Some(body_v) => match json_as_array(body_v) {
                            Some(body) => {
                                let mut j: usize = 0;
                                while j < body.len()
                                    decreases body.len() - j,
                                {
                                    match string_field(&body[j], "persistentUrl") {
                                        Some(u) => {
                                            persistent_urls.push(u);
                                        }
                                        None => {}
                                    }
                                    j = j + 1;
                                }
                            }
                            None => {}
                        },
                        None => {}
                    }
                    i = i + 1;
                }
            }
            None => {}
        },
        None => {}
    }
    let adaptive_null = match json_get(v, "adaptiveCards") {
        Some(f) => json_is_null(f),
        None => true,
    };
    HistoryMsg {
        has_scores,
        has_suggested_array,
        content_type: string_field(v, "contentType"),
        adaptive_null,
        author: string_field(v, "author"),
        text: string_field(v, "text"),
        sources,
        suggested,
        image_url: string_field(v, "imageUrl"),
        original_image_url: string_field(v, "originalImageUrl"),
        persistent_urls,
    }
}

/// Reads the whole stored history out of the parsed answer: one model per
/// entry of its message array.
pub fn history_from_value(v: &serde_json::Value) -> Vec<HistoryMsg> {
    let mut out: Vec<HistoryMsg> = Vec::new();
    match json_get(v, "messages") {
        Some(f) => match json_as_array(f) {
            Some(arr) => {
                let mut i: usize = 0;
                while i < arr.len()
                    decreases arr.len() - i,
                {
                    out.push(history_msg_from_value(&arr[i]));
                    i = i + 1;
                }
            }
            None => {}
        },
        None => {}
    }
    out
}

/// Builds one message's displayed images.
fn msg_images(m: &HistoryMsg, polls: &Vec<PollOutcome>) -> (r: Vec<Image>)
    ensures
        r.deep_view() == spec_msg_images(m@, polls.deep_view()),
{
    let ghost full = polls.deep_view();
    let is_user = match &m.author {
        Some(a) => str_eq(a.as_str(), "user"),
        None => false,
    };
    let is_bot = match &m.author {
        Some(a) => str_eq(a.as_str(), "bot"),
        None => false,
    };
    let is_image = match &m.content_type {
        Some(c) => str_eq(c.as_str(), "IMAGE"),
        None => false,
    };
    proof {
        reveal_strlit("user");
        reveal_strlit("bot");
    }
    if is_user {
        let url = match &m.image_url {
            Some(u) => Some(u.clone()),
            None => match &m.original_image_url {
                Some(u) => Some(u.clone()),
                None => None,
            },
        };
        let mut out: Vec<Image> = Vec::new();
        match url {
            Some(u) => {
                out.push(Image { name: String::from_str("user_image_attachment.jpg"), url: u });
            }
            None => {}
        }
        proof {
            assert(out.deep_view() =~~= spec_msg_images(m@, full));
        }
        out
    } else if is_bot && is_image {
        let mut current: Vec<Image> = Vec::new();
        let mut i: usize = 0;
        proof {
            assert(full.take(0) =~~= Seq::<PollOutcomeModel>::empty());
            assert(current.deep_view() =~~= spec_last_images(full.take(0)));
        }
        while i < polls.len()
            invariant
                0 <= i <= full.len(),
                full == polls.deep_view(),
                current.deep_view() == spec_last_images(full.take(i as int)),
            decreases full.len() - i,
        {
            match &polls[i] {
                PollOutcome::Images(v) => {
                    current = clone_images(v);
                }
                PollOutcome::Failed(_) => {}
            }
            proof {
                assert(full.take(i + 1).last() == full[i as int]);
                assert(full.take(i + 1).drop_last() =~~= full.take(i as int));
            }
            i = i + 1;
        }
        proof {
            assert(full.take(full.len() as int) =~~= full);
        }
        current
    } else {
        let out: Vec<Image> = Vec::new();
        proof {
            assert(out.deep_view() =~~= spec_msg_images(m@, full));
        }
        out
    }
}

/// Rebuilds an image list element by element.
pub(crate) fn clone_images(v: &Vec<Image>) -> (r: Vec<Image>)
    ensures
        r.deep_view() == v.deep_view(),
{
    let mut out: Vec<Image> = Vec::new();
    let mut i: usize = 0;
    while i < v.len()
        invariant
            0 <= i <= v@.len(),
            out@.len() == i,
            forall|j: int| 0 <= j < i ==> (#[trigger] out@[j])@ == v@[j]@,
        decreases v@.len() - i,
    {
        out.push(Image { name: v[i].name.clone(), url: v[i].url.clone() });
        i = i + 1;
    }
    proof {
        assert(out.deep_view() =~~= v.deep_view());
    }
    out
}

/// Turns a stored history into display messages.  Each inner vector of
/// `polls` holds, in order, what polling the matching message's
/// persistent URLs yielded; the transport layer did the polling.
pub fn process_chat_msgs(msgs: &Vec<HistoryMsg>, polls: &Vec<Vec<PollOutcome>>) -> (r: Vec<
    EasyMsg,
>)
    requires
        msgs@.len() == polls@.len(),
    ensures
        r.deep_view() == spec_history(msgs.deep_view(), polls.deep_view()),
{
    let ghost fullm = msgs.deep_view();
    let ghost fullp = polls.deep_view();
    let mut easy_msgs: Vec<EasyMsg> = Vec::new();
    let mut i: usize = 0;
    proof {
        assert(fullm.skip(0) =~~= fullm);
        assert(fullp.skip(0) =~~= fullp);
        assert(easy_msgs.deep_view() + spec_history(fullm, fullp) =~~= spec_history(fullm, fullp));
    }
    while i < msgs.len()
        invariant
            0 <= i <= fullm.len(),
            fullm == msgs.deep_view(),
            fullp == polls.deep_view(),
            fullm.len() == fullp.len(),
            spec_history(fullm, fullp) == easy_msgs.deep_view() + spec_history(
                fullm.skip(i as int),
                fullp.skip(i as int),
            ),
        decreases fullm.len() - i,
    {
        let ghost pre = easy_msgs.deep_view();
        proof {
            assert(fullm.skip(i as int)[0] == fullm[i as int]);
            assert(fullm.skip(i as int).drop_first() =~~= fullm.skip(i + 1));
            assert(fullp.skip(i as int)[0] == fullp[i as int]);
            assert(fullp.skip(i as int).drop_first() =~~= fullp.skip(i + 1));
        }
        let m = &msgs[i];
        let included = m.has_scores || m.has_suggested_array || (m.content_type.is_some()
            && !m.adaptive_null);
        if included {
            let author_text = match (&m.author, &m.text) {
                (Some(a), Some(t)) => Some((a.clone(), t.clone())),
                _ => None,
            };
            match author_text {
                Some((author, text)) => {
                    let is_bot = str_eq(author.as_str(), "bot");
                    let is_image = match &m.content_type {
                        Some(c) => str_eq(c.as_str(), "IMAGE"),
                        None => false,
                    };
                    proof {
                        reveal_strlit("bot");
                    }
                    if is_bot && is_image {
                        let ghost prei = easy_msgs.deep_view();
                        let ghost fullpi = polls@[i as int].deep_view();
                        let mut k: usize = 0;
                        proof {
                            assert(fullpi.skip(0) =~~= fullpi);
                            assert(easy_msgs.deep_view() + spec_failed_polls("bot"@, fullpi)
                                =~~= prei + spec_failed_polls("bot"@, fullpi));
                        }
                        while k < polls[i].len()
                            invariant
                                0 <= k <= fullpi.len(),
                                0 <= i < polls@.len(),
                                fullpi == polls@[i as int].deep_view(),
                                prei + spec_failed_polls("bot"@, fullpi) == easy_msgs.deep_view()
                                    + spec_failed_polls("bot"@, fullpi.skip(k as int)),
                            decreases fullpi.len() - k,
                        {
                            let ghost prek = easy_msgs.deep_view();
                            proof {
                                assert(fullpi.skip(k as int)[0] == fullpi[k as int]);
                                assert(fullpi.skip(k as int).drop_first() =~~= fullpi.skip(k + 1));
                            }
                            match &polls[i][k] {
                                PollOutcome::Failed(e) => {
                                    easy_msgs.push(EasyMsg {
                                        author: String::from_str("bot"),
                                        text: e.clone(),
                                        images: Vec::new(),
                                        sources: Vec::new(),
                                        suggest_replys: Vec::new(),
                                    });
                                    proof {
                                        assert(easy_msgs.deep_view() =~~= prek + seq![
                                            EasyMsgModel {
                                                author: "bot"@,
                                                text: fullpi[k as int]->Failed_0,
                                                images: seq![],
                                                sources: seq![],
                                                suggest_replys: seq![],
                                            },
                                        ]);
                                    }
                                }
                                PollOutcome::Images(_) => {}
                            }
                            proof {
                                assert(easy_msgs.deep_view() + spec_failed_polls(
                                    "bot"@,
                                    fullpi.skip(k + 1),
                                ) =~~= prek + spec_failed_polls("bot"@, fullpi.skip(k as int)));
                            }
                            k = k + 1;
                        }
                        proof {
                            assert(fullpi.skip(fullpi.len() as int)
                                =~~= Seq::<PollOutcomeModel>::empty());
                            assert(easy_msgs.deep_view() =~~= prei + spec_failed_polls(
                                "bot"@,
                                fullpi,
                            ));
                        }
                    }
                    let images = msg_images(m, &polls[i]);
                    let sources = match &m.sources {
                        Some(entries) => match process_source_msg(entries) {
                            Some(v) => v,
                            None => Vec::new(),
                        },
                        None => Vec::new(),
                    };
                    let suggest_replys = match &m.suggested {
                        Some(entries) => match process_suggested_responses(entries) {
                            Some(v) => v,
                            None => Vec::new(),
                        },
                        None => Vec::new(),
                    };
                    let ghost mm = fullm[i as int];
                    let ghost pp = fullp[i as int];
                    let ghost main = EasyMsgModel {
                        author: author@,
                        text: text@,
                        images: images.deep_view(),
                        sources: sources.deep_view(),
                        suggest_replys: suggest_replys.deep_view(),
                    };
                    let ghost before = easy_msgs.deep_view();
                    proof {
                        assert(spec_included(mm));
                        assert(mm.author == Some(author@));
                        assert(mm.text == Some(text@));
                        assert(pp == polls@[i as int].deep_view());
                        assert(main.images =~~= spec_msg_images(mm, pp));
                        assert(main.sources =~~= spec_msg_sources(mm));
                        assert(main.suggest_replys =~~= spec_msg_suggests(mm));
                        if !(is_bot && is_image) {
                            assert(spec_msg_errors(mm, pp) =~~= Seq::<EasyMsgModel>::empty());
                        }
                        assert(before =~~= pre + spec_msg_errors(mm, pp));
                        assert(spec_msg_contrib(mm, pp) =~~= spec_msg_errors(mm, pp) + seq![main]);
                    }
                    easy_msgs.push(EasyMsg { author, text, images, sources, suggest_replys });
                    proof {
                        assert(easy_msgs.deep_view() =~~= before.push(main));
                        assert(before.push(main) =~~= pre + spec_msg_contrib(mm, pp));
                        assert(easy_msgs.deep_view() =~~= pre + spec_msg_contrib(
                            fullm[i as int],
                            fullp[i as int],
                        ));
                    }
                }
                None => {}
            }
        }
        proof {
            assert(easy_msgs.deep_view() + spec_history(fullm.skip(i + 1), fullp.skip(i + 1))
                =~~= pre + spec_history(fullm.skip(i as int), fullp.skip(i as int)));
        }
        i = i + 1;
    }
    proof {
        assert(fullm.skip(fullm.len() as int) =~~= Seq::<HistoryMsgModel>::empty());
        assert(easy_msgs.deep_view() =~~= spec_history(fullm, fullp));
    }
    easy_msgs
}

} // verus!
