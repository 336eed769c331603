//! The response aggregator: folds a session's event sequence into one
//! final display string.  The latest cumulative text wins; images, source
//! attributions, suggested replies and usage blocks collect into their own
//! sections, appended in that fixed order as numbered lists — a section
//! appears only when it has entries.

use vstd::prelude::*;
use crate::strings::{dec_digits, dec_u64};
use crate::types::bot_easy_resp::{
    spec_image_markdown, spec_limit_line, spec_source_line, BotResp, EventModel, Image, ImageModel,
    Limit, SourceAttribution, SourceModel,
};

verus! {

/// The aggregator's accumulated state.
#[verifier::ext_equal]
pub struct AggregatorModel {
    pub plain_text: Seq<char>,
    pub images: Seq<ImageModel>,
    pub sources: Seq<SourceModel>,
    pub suggests: Seq<Seq<char>>,
    pub limits: Seq<Limit>,
}

/// Folds one event in: the text is replaced, the lists grow, and notices
/// and apologies pass through without being kept.
pub open spec fn spec_absorb(a: AggregatorModel, e: EventModel) -> AggregatorModel {
    match e {
        EventModel::Text(t) => AggregatorModel {
            plain_text: t,
            images: a.images,
            sources: a.sources,
            suggests: a.suggests,
            limits: a.limits,
        },
        EventModel::SuggestReply(v) => AggregatorModel {
            plain_text: a.plain_text,
            images: a.images,
            sources: a.sources,
            suggests: a.suggests + v,
            limits: a.limits,
        },
        EventModel::Image(v) => AggregatorModel {
            plain_text: a.plain_text,
            images: a.images + v,
            sources: a.sources,
            suggests: a.suggests,
            limits: a.limits,
        },
        EventModel::SourceAttribution(v) => AggregatorModel {
            plain_text: a.plain_text,
            images: a.images,
            sources: a.sources + v,
            suggests: a.suggests,
            limits: a.limits,
        },
        EventModel::Limit(l) => AggregatorModel {
            plain_text: a.plain_text,
            images: a.images,
            sources: a.sources,
            suggests: a.suggests,
            limits: a.limits.push(l),
        },
        EventModel::Notice(_) => a,
        EventModel::Apology(_) => a,
    }
}

/// The state after folding a whole event sequence in, in order.
pub open spec fn spec_fold(a: AggregatorModel, evs: Seq<EventModel>) -> AggregatorModel
    decreases evs.len(),
{
    if evs.len() == 0 {
        a
    } else {
        spec_fold(spec_absorb(a, evs[0]), evs.drop_first())
    }
}

/// The empty aggregator state.
pub open spec fn spec_empty_aggregator() -> AggregatorModel {
    AggregatorModel {
        plain_text: Seq::empty(),
        images: Seq::empty(),
        sources: Seq::empty(),
        suggests: Seq::empty(),
        limits: Seq::empty(),
    }
}

/// `{idx}. {item}` lines, numbered from `idx` on, one per item.
pub open spec fn spec_numbered(items: Seq<Seq<char>>, idx: nat) -> Seq<char>
    decreases items.len(),
{
    if items.len() == 0 {
        Seq::empty()
    } else {
        dec_digits(idx) + ". "@ + items[0] + "\n"@ + spec_numbered(items.drop_first(), idx + 1)
    }
}

/// A section: its header and its numbered entries, or nothing when it has
/// none.
pub open spec fn spec_section(name: Seq<char>, items: Seq<Seq<char>>) -> Seq<char> {
    if items.len() == 0 {
        Seq::empty()
    } else {
        "\n"@ + name + ":\n\n"@ + spec_numbered(items, 1)
    }
}

/// The markdown line of each image.
pub open spec fn spec_image_lines(v: Seq<ImageModel>) -> Seq<Seq<char>> {
    v.map_values(|m: ImageModel| spec_image_markdown(m.name, m.url))
}

/// The display line of each source attribution.
pub open spec fn spec_source_lines(v: Seq<SourceModel>) -> Seq<Seq<char>> {
    v.map_values(|m: SourceModel| spec_source_line(m))
}

/// The display line of each usage block.
pub open spec fn spec_limit_lines(v: Seq<Limit>) -> Seq<Seq<char>> {
    v.map_values(
        |l: Limit| spec_limit_line(l.num_user_messages as nat, l.max_num_user_messages as nat),
    )
}

/// The final string: the last cumulative text, then the non-empty
/// sections, in the fixed order Images, Sources, Suggest Replys, Limits,
/// each separated from what precedes it by a blank line.
pub open spec fn spec_final_text(a: AggregatorModel) -> Seq<char> {
    let sections = spec_section("Images"@, spec_image_lines(a.images)) + spec_section(
        "Sources"@,
        spec_source_lines(a.sources),
    ) + spec_section("Suggest Replys"@, a.suggests) + spec_section(
        "Limits"@,
        spec_limit_lines(a.limits),
    );
    if a.images.len() == 0 && a.sources.len() == 0 && a.suggests.len() == 0 && a.limits.len()
        == 0 {
        a.plain_text
    } else {
        a.plain_text + "\n"@ + sections
    }
}

/// Folds the semantic event sequence of one session into its display
/// string.
pub struct ResponseAggregator {
    pub plain_text: String,
    pub images: Vec<Image>,
    pub sources: Vec<SourceAttribution>,
    pub suggests: Vec<String>,
    pub limits: Vec<Limit>,
}

impl View for ResponseAggregator {
    type V = AggregatorModel;

    open spec fn view(&self) -> AggregatorModel {
        AggregatorModel {
            plain_text: self.plain_text@,
            images: self.images.deep_view(),
            sources: self.sources.deep_view(),
            suggests: self.suggests.deep_view(),
            limits: self.limits@,
        }
    }
}

impl ResponseAggregator {
    pub fn new() -> (r: ResponseAggregator)
        ensures
            r@ == spec_empty_aggregator(),
    {
        let r = ResponseAggregator {
            plain_text: String::new(),
            images: Vec::new(),
            sources: Vec::new(),
            suggests: Vec::new(),
            limits: Vec::new(),
        };
        proof {
            assert(r@.images =~= spec_empty_aggregator().images);
            assert(r@.sources =~= spec_empty_aggregator().sources);
            assert(r@.suggests =~= spec_empty_aggregator().suggests);
            assert(r@.limits =~= spec_empty_aggregator().limits);
        }
        r
    }

    /// Folds one event in.  A cumulative text update is handed back, so a
    /// streaming caller can re-display it as it arrives.
    pub fn absorb(&mut self, event: BotResp) -> (text: Option<String>)
        ensures
            final(self)@ == spec_absorb(old(self)@, event@),
            match text {
                Some(t) => event@ matches EventModel::Text(s) && t@ == s,
                None => !(event@ is Text),
            },
    {
        let ghost pre = self@;
        let ghost ev = event@;
        match event {
            BotResp::Text(t) => {
                let out = t.clone();
                self.plain_text = t;
                proof {
                    assert(self@ =~~= spec_absorb(pre, ev));
                }
                Some(out)
            }
            BotResp::SuggestReply(mut v) => {
                self.suggests.append(&mut v);
                proof {
                    assert(self@.suggests =~= spec_absorb(pre, ev).suggests);
                    assert(self@ =~~= spec_absorb(pre, ev));
                }
                None
            }
            BotResp::Image(mut v) => {
                self.images.append(&mut v);
                proof {
                    assert(self@.images =~= spec_absorb(pre, ev).images);
                    assert(self@ =~~= spec_absorb(pre, ev));
                }
                None
            }
            BotResp::SourceAttribution(mut v) => {
                self.sources.append(&mut v);
                proof {
                    assert(self@.sources =~= spec_absorb(pre, ev).sources);
                    assert(self@ =~~= spec_absorb(pre, ev));
                }
                None
            }
            BotResp::Limit(l) => {
                self.limits.push(l);
                proof {
                    assert(self@ =~~= spec_absorb(pre, ev));
                }
                None
            }
            BotResp::Notice(_) => {
                proof {
                    assert(self@ =~~= spec_absorb(pre, ev));
                }
                None
            }
            BotResp::Apology(_) => {
                proof {
                    assert(self@ =~~= spec_absorb(pre, ev));
                }
                None
            }
        }
    }

    /// Renders the final string.
    pub fn finish(&self) -> (r: String)
        ensures
            r@ == spec_final_text(self@),
    {
        let mut image_lines: Vec<String> = Vec::new();
        let mut i: usize = 0;
        while i < self.images.len()
            invariant
                0 <= i <= self.images@.len(),
                image_lines@.len() == i,
                forall|j: int|
                    0 <= j < i ==> (#[trigger] image_lines@[j])@ == spec_image_lines(
                        self.images.deep_view(),
                    )[j],
            decreases self.images@.len() - i,
        {
            image_lines.push(self.images[i].markdown());
            i = i + 1;
        }
        proof {
            assert(image_lines.deep_view() =~= spec_image_lines(self.images.deep_view()));
        }
        let mut source_lines: Vec<String> = Vec::new();
        let mut i: usize = 0;
        while i < self.sources.len()
            invariant
                0 <= i <= self.sources@.len(),
                source_lines@.len() == i,
                forall|j: int|
                    0 <= j < i ==> (#[trigger] source_lines@[j])@ == spec_source_lines(
                        self.sources.deep_view(),
                    )[j],
            decreases self.sources@.len() - i,
        {
            source_lines.push(self.sources[i].render());
            i = i + 1;
        }
        proof {
            assert(source_lines.deep_view() =~= spec_source_lines(self.sources.deep_view()));
        }
        let mut limit_lines: Vec<String> = Vec::new();
        let mut i: usize = 0;
        while i < self.limits.len()
            invariant
                0 <= i <= self.limits@.len(),
                limit_lines@.len() == i,
                forall|j: int|
                    0 <= j < i ==> (#[trigger] limit_lines@[j])@ == spec_limit_lines(
                        self.limits@,
                    )[j],
            decreases self.limits@.len() - i,
        {
            limit_lines.push(self.limits[i].render());
            i = i + 1;
        }
        proof {
            assert(limit_lines.deep_view() =~= spec_limit_lines(self.limits@));
        }
        let any = self.images.len() > 0 || self.sources.len() > 0 || self.suggests.len() > 0
            || self.limits.len() > 0;
        let mut result = self.plain_text.clone();
        if any {
            result.append("\n");
            let s1 = numbered_section("Images", &image_lines);
            result.append(s1.as_str());
            let s2 = numbered_section("Sources", &source_lines);
            result.append(s2.as_str());
            let s3 = numbered_section("Suggest Replys", &self.suggests);
            result.append(s3.as_str());
            let s4 = numbered_section("Limits", &limit_lines);
            result.append(s4.as_str());
        }
        result
    }

    /// Consumes a whole event sequence and renders the final string.
    pub fn reduce(events: Vec<BotResp>) -> (r: String)
        ensures
            r@ == spec_final_text(spec_fold(spec_empty_aggregator(), events.deep_view())),
    {
        let ghost full = events.deep_view();
        let mut agg = ResponseAggregator::new();
        let mut i: usize = 0;
        proof {
            assert(full.skip(0) =~= full);
        }
        while i < events.len()
            invariant
                0 <= i <= full.len(),
                full == events.deep_view(),
                spec_fold(spec_empty_aggregator(), full) == spec_fold(
                    agg@,
                    full.skip(i as int),
                ),
            decreases full.len() - i,
        {
            proof {
                assert(full.skip(i as int)[0] == full[i as int]);
                assert(full.skip(i as int).drop_first() =~= full.skip(i + 1));
            }
            let event = events[i].duplicate();
            agg.absorb(event);
            i = i + 1;
        }
        proof {
            assert(full.skip(full.len() as int) =~= Seq::<EventModel>::empty());
        }
        agg.finish()
    }
}

/// Appends `{start+k}. {item}` lines for all items, in order.
pub fn numbered_lines(items: &Vec<String>, start: u64) -> (r: String)
    requires
        items@.len() == 0 || start + items@.len() - 1 <= u64::MAX,
    ensures
        r@ == spec_numbered(items.deep_view(), start as nat),
{
    let ghost full = items.deep_view();
    let mut s = String::new();
    let mut i: usize = 0;
    proof {
        assert(full.skip(0) =~= full);
        assert(s@ + spec_numbered(full, start as nat) =~= spec_numbered(full, start as nat));
    }
    while i < items.len()
        invariant
            0 <= i <= full.len(),
            full == items.deep_view(),
            full.len() == 0 || start + full.len() - 1 <= u64::MAX,
            spec_numbered(full, start as nat) == s@ + spec_numbered(
                full.skip(i as int),
                (start + i) as nat,
            ),
        decreases full.len() - i,
    {
        proof {
            assert(full.skip(i as int)[0] == full[i as int]);
            assert(full.skip(i as int).drop_first() =~= full.skip(i + 1));
        }
        let ghost pre = s@;
        let num = dec_u64(start + (i as u64));
        s.append(num.as_str());
        s.append(". ");
        s.append(items[i].as_str());
        s.append("\n");
        proof {
            assert(s@ =~= pre + (dec_digits((start + i) as nat) + ". "@ + full[i as int]
                + "\n"@));
            assert(s@ + spec_numbered(full.skip(i + 1), (start + i + 1) as nat) =~= pre
                + spec_numbered(full.skip(i as int), (start + i) as nat));
        }
        i = i + 1;
    }
    proof {
        assert(full.skip(full.len() as int) =~= Seq::<Seq<char>>::empty());
        assert(s@ =~= spec_numbered(full, start as nat));
    }
    s
}

/// Builds one section: its header and the numbered entries, or nothing
/// where there are none.
fn numbered_section(name: &str, items: &Vec<String>) -> (r: String)
    ensures
        r@ == spec_section(name@, items.deep_view()),
{
    let ghost full = items.deep_view();
    if items.len() == 0 {
        let empty = String::new();
        proof {
            assert(empty@ =~= spec_section(name@, full));
        }
        return empty;
    }
    let mut s = String::from_str("\n");
    s.append(name);
    s.append(":\n\n");
    let lines = numbered_lines(items, 1);
    s.append(lines.as_str());
    proof {
        assert(s@ =~= spec_section(name@, full));
    }
    s
}

} // verus!
