//! The semantic events a stream yields, and their display renderings.

use vstd::prelude::*;
use crate::strings::{dec_digits, dec_u64};

verus! {

/// One generated or attached image: a file name and its URL.
#[derive(Debug, Clone, PartialEq, Eq)]
pub struct Image {
    pub name: String,
    pub url: String,
}

/// The usage/throttling block of a terminal record.
#[derive(Debug, Clone, Copy, PartialEq, Eq)]
pub struct Limit {
    pub max_num_user_messages: u8,
    pub num_user_messages: u8,
    pub max_num_long_doc_summary_user_messages: u32,
    pub num_long_doc_summary_user_messages: u32,
}

/// One source attribution of a terminal record.
#[derive(Debug, Clone, PartialEq, Eq)]
pub struct SourceAttribution {
    pub display_name: Option<String>,
    pub see_more_url: Option<String>,
    pub image: Option<Image>,
}

/// A semantic event, in the order the dispatcher produced it.  `Text`
/// carries the cumulative message so far: each one fully replaces the
/// previous one.
#[derive(Debug, Clone, PartialEq, Eq)]
pub enum BotResp {
    Text(String),
    SuggestReply(Vec<String>),
    Notice(String),
    Image(Vec<Image>),
    Apology(String),
    SourceAttribution(Vec<SourceAttribution>),
    Limit(Limit),
}

#[verifier::ext_equal]
pub struct ImageModel {
    pub name: Seq<char>,
    pub url: Seq<char>,
}

impl View for Image {
    type V = ImageModel;

    open spec fn view(&self) -> ImageModel {
        ImageModel { name: self.name@, url: self.url@ }
    }
}

impl DeepView for Image {
    type V = ImageModel;

    open spec fn deep_view(&self) -> ImageModel {
        self.view()
    }
}

#[verifier::ext_equal]
pub struct SourceModel {
    pub display_name: Option<Seq<char>>,
    pub see_more_url: Option<Seq<char>>,
    pub image: Option<ImageModel>,
}

impl View for SourceAttribution {
    type V = SourceModel;

    open spec fn view(&self) -> SourceModel {
        SourceModel {
            display_name: self.display_name.deep_view(),
            see_more_url: self.see_more_url.deep_view(),
            image: self.image.deep_view(),
        }
    }
}

impl DeepView for SourceAttribution {
    type V = SourceModel;

    open spec fn deep_view(&self) -> SourceModel {
        self.view()
    }
}

/// The mathematical shape of a semantic event.
#[verifier::ext_equal]
pub enum EventModel {
    Text(Seq<char>),
    SuggestReply(Seq<Seq<char>>),
    Notice(Seq<char>),
    Image(Seq<ImageModel>),
    Apology(Seq<char>),
    SourceAttribution(Seq<SourceModel>),
    Limit(Limit),
}

impl View for BotResp {
    type V = EventModel;

    open spec fn view(&self) -> EventModel {
        match self {
            BotResp::Text(s) => EventModel::Text(s@),
            BotResp::SuggestReply(v) => EventModel::SuggestReply(v.deep_view()),
            BotResp::Notice(s) => EventModel::Notice(s@),
            BotResp::Image(v) => EventModel::Image(v.deep_view()),
            BotResp::Apology(s) => EventModel::Apology(s@),
            BotResp::SourceAttribution(v) => EventModel::SourceAttribution(v.deep_view()),
            BotResp::Limit(l) => EventModel::Limit(*l),
        }
    }
}

impl DeepView for BotResp {
    type V = EventModel;

    open spec fn deep_view(&self) -> EventModel {
        self.view()
    }
}

/// `{k}: {item}` pieces, numbered from `idx` on, butted together.
pub open spec fn spec_indexed_pieces(items: Seq<Seq<char>>, idx: nat) -> Seq<char>
    decreases items.len(),
{
    if items.len() == 0 {
        Seq::empty()
    } else {
        dec_digits(idx) + ": "@ + items[0] + spec_indexed_pieces(items.drop_first(), idx + 1)
    }
}

/// One markdown line per image.
pub open spec fn spec_image_block(items: Seq<ImageModel>) -> Seq<char>
    decreases items.len(),
{
    if items.len() == 0 {
        Seq::empty()
    } else {
        spec_image_markdown(items[0].name, items[0].url) + "\n"@ + spec_image_block(
            items.drop_first(),
        )
    }
}

/// One display line per source attribution.
pub open spec fn spec_source_block(items: Seq<SourceModel>) -> Seq<char>
    decreases items.len(),
{
    if items.len() == 0 {
        Seq::empty()
    } else {
        spec_source_line(items[0]) + "\n"@ + spec_source_block(items.drop_first())
    }
}

/// The display text of one event.
pub open spec fn spec_event_text(e: EventModel) -> Seq<char> {
    match e {
        EventModel::Text(s) => s,
        EventModel::Notice(s) => s,
        EventModel::Apology(s) => s,
        EventModel::SuggestReply(v) => spec_indexed_pieces(v, 0),
        EventModel::Image(v) => spec_image_block(v),
        EventModel::SourceAttribution(v) => spec_source_block(v),
        EventModel::Limit(l) => spec_limit_line(
            l.num_user_messages as nat,
            l.max_num_user_messages as nat,
        ),
    }
}

impl BotResp {
    /// The display text of this event.
    pub fn render(&self) -> (r: String)
        ensures
            r@ == spec_event_text(self@),
    {
        match self {
            BotResp::Text(content) => content.clone(),
            BotResp::Notice(content) => content.clone(),
            BotResp::Apology(content) => content.clone(),
            BotResp::Limit(content) => content.render(),
            BotResp::SuggestReply(content) => {
                let ghost full = content.deep_view();
                let mut s = String::new();
                let mut i: usize = 0;
                proof {
                    assert(full.skip(0) =~= full);
                    assert(s@ + spec_indexed_pieces(full, 0) =~= spec_indexed_pieces(full, 0));
                }
                while i < content.len()
                    invariant
                        0 <= i <= full.len(),
                        full == content.deep_view(),
                        spec_indexed_pieces(full, 0) == s@ + spec_indexed_pieces(
                            full.skip(i as int),
                            i as nat,
                        ),
                    decreases full.len() - i,
                {
                    proof {
                        assert(full.skip(i as int)[0] == full[i as int]);
                        assert(full.skip(i as int).drop_first() =~= full.skip(i + 1));
                    }
                    let ghost pre = s@;
                    let num = dec_u64(i as u64);
                    s.append(num.as_str());
                    s.append(": ");
                    s.append(content[i].as_str());
                    proof {
                        assert(s@ + spec_indexed_pieces(full.skip(i + 1), (i + 1) as nat) =~= pre
                            + spec_indexed_pieces(full.skip(i as int), i as nat));
                    }
                    i = i + 1;
                }
                proof {
                    assert(full.skip(full.len() as int) =~= Seq::<Seq<char>>::empty());
                    assert(s@ =~= spec_indexed_pieces(full, 0));
                }
                s
            }
            BotResp::Image(images) => render_image_block(images),
            BotResp::SourceAttribution(sources) => render_source_block(sources),
        }
    }

    /// Duplicates one event, preserving its model.
    pub fn duplicate(&self) -> (r: BotResp)
        ensures
            r@ == self@,
    {
        match self {
            BotResp::Text(s) => BotResp::Text(s.clone()),
            BotResp::Notice(s) => BotResp::Notice(s.clone()),
            BotResp::Apology(s) => BotResp::Apology(s.clone()),
            BotResp::SuggestReply(v) => {
                let mut out: Vec<String> = Vec::new();
                let mut i: usize = 0;
                while i < v.len()
                    invariant
                        0 <= i <= v@.len(),
                        out@.len() == i,
                        forall|j: int| 0 <= j < i ==> (#[trigger] out@[j])@ == v@[j]@,
                    decreases v@.len() - i,
                {
                    out.push(v[i].clone());
                    i = i + 1;
                }
                proof {
                    assert(out.deep_view() =~= v.deep_view());
                }
                BotResp::SuggestReply(out)
            }
            BotResp::Image(v) => {
                let mut out: Vec<Image> = Vec::new();
                let mut i: usize = 0;
                while i < v.len()
                    invariant
                        0 <= i <= v@.len(),
                        out@.len() == i,
                        forall|j: int| 0 <= j < i ==> (#[trigger] out@[j])@ == v@[j]@,
                    decreases v@.len() - i,
                {
                    out.push(Image { name: v[i].name.clone(), url: v[i].url.clone() });
                    i = i + 1;
                }
                proof {
                    assert(out.deep_view() =~= v.deep_view());
                }
                BotResp::Image(out)
            }
            BotResp::SourceAttribution(v) => {
                let mut out: Vec<SourceAttribution> = Vec::new();
                let mut i: usize = 0;
                while i < v.len()
                    invariant
                        0 <= i <= v@.len(),
                        out@.len() == i,
                        forall|j: int| 0 <= j < i ==> (#[trigger] out@[j])@ == v@[j]@,
                    decreases v@.len() - i,
                {
                    let image = match &v[i].image {
                        Some(img) => Some(Image { name: img.name.clone(), url: img.url.clone() }),
                        None => None,
                    };
                    out.push(SourceAttribution {
                        display_name: crate::strings::clone_opt_string(&v[i].display_name),
                        see_more_url: crate::strings::clone_opt_string(&v[i].see_more_url),
                        image,
                    });
                    i = i + 1;
                }
                proof {
                    assert(out.deep_view() =~= v.deep_view());
                }
                BotResp::SourceAttribution(out)
            }
            BotResp::Limit(l) => BotResp::Limit(*l),
        }
    }
}

/// The markdown lines of an image list, one per image.
pub fn render_image_block(images: &Vec<Image>) -> (r: String)
    ensures
        r@ == spec_image_block(images.deep_view()),
{
    let ghost full = images.deep_view();
    let mut s = String::new();
    let mut i: usize = 0;
    proof {
        assert(full.skip(0) =~= full);
        assert(s@ + spec_image_block(full) =~= spec_image_block(full));
    }
    while i < images.len()
        invariant
            0 <= i <= full.len(),
            full == images.deep_view(),
            spec_image_block(full) == s@ + spec_image_block(full.skip(i as int)),
        decreases full.len() - i,
    {
        proof {
            assert(full.skip(i as int)[0] == full[i as int]);
            assert(full.skip(i as int).drop_first() =~= full.skip(i + 1));
        }
        let ghost pre = s@;
        let line = images[i].markdown();
        s.append(line.as_str());
        s.append("\n");
        proof {
            assert(s@ + spec_image_block(full.skip(i + 1)) =~= pre + spec_image_block(
                full.skip(i as int),
            ));
        }
        i = i + 1;
    }
    proof {
        assert(full.skip(full.len() as int) =~= Seq::<ImageModel>::empty());
        assert(s@ =~= spec_image_block(full));
    }
    s
}

/// The display lines of a source list, one per attribution.
pub fn render_source_block(sources: &Vec<SourceAttribution>) -> (r: String)
    ensures
        r@ == spec_source_block(sources.deep_view()),
{
    let ghost full = sources.deep_view();
    let mut s = String::new();
    let mut i: usize = 0;
    proof {
        assert(full.skip(0) =~= full);
        assert(s@ + spec_source_block(full) =~= spec_source_block(full));
    }
    while i < sources.len()
        invariant
            0 <= i <= full.len(),
            full == sources.deep_view(),
            spec_source_block(full) == s@ + spec_source_block(full.skip(i as int)),
        decreases full.len() - i,
    {
        proof {
            assert(full.skip(i as int)[0] == full[i as int]);
            assert(full.skip(i as int).drop_first() =~= full.skip(i + 1));
        }
        let ghost pre = s@;
        let line = sources[i].render();
        s.append(line.as_str());
        s.append("\n");
        proof {
            assert(s@ + spec_source_block(full.skip(i + 1)) =~= pre + spec_source_block(
                full.skip(i as int),
            ));
        }
        i = i + 1;
    }
    proof {
        assert(full.skip(full.len() as int) =~= Seq::<SourceModel>::empty());
        assert(s@ =~= spec_source_block(full));
    }
    s
}

/// `![name](url)` — the markdown rendering of one image.
pub open spec fn spec_image_markdown(name: Seq<char>, url: Seq<char>) -> Seq<char> {
    "!["@ + name + "]("@ + url + ")"@
}

impl Image {
    pub fn markdown(&self) -> (r: String)
        ensures
            r@ == spec_image_markdown(self.name@, self.url@),
    {
        let mut s = String::from_str("![");
        s.append(self.name.as_str());
        s.append("](");
        s.append(self.url.as_str());
        s.append(")");
        s
    }
}

/// `Limit: {used} of {max}.` — the display line of a usage block.
pub open spec fn spec_limit_line(used: nat, max: nat) -> Seq<char> {
    "Limit: "@ + dec_digits(used) + " of "@ + dec_digits(max) + "."@
}

impl Limit {
    pub fn render(&self) -> (r: String)
        ensures
            r@ == spec_limit_line(self.num_user_messages as nat, self.max_num_user_messages as nat),
    {
        let mut s = String::from_str("Limit: ");
        let used = dec_u64(self.num_user_messages as u64);
        s.append(used.as_str());
        s.append(" of ");
        let max = dec_u64(self.max_num_user_messages as u64);
        s.append(max.as_str());
        s.append(".");
        s
    }
}

/// The name part of a source line: the display name if present, else the
/// URL, else `Unknown`.
pub open spec fn spec_source_name(s: SourceModel) -> Seq<char> {
    match s.display_name {
        Some(n) => n,
        None => match s.see_more_url {
            Some(u) => u,
            None => "Unknown"@,
        },
    }
}

/// The URL part of a source line: the URL if present, else `Unknown`.
pub open spec fn spec_source_url(s: SourceModel) -> Seq<char> {
    match s.see_more_url {
        Some(u) => u,
        None => "Unknown"@,
    }
}

/// `[name](url)`, with the image on a second markdown line if there is one.
pub open spec fn spec_source_line(s: SourceModel) -> Seq<char> {
    let base = "["@ + spec_source_name(s) + "]("@ + spec_source_url(s) + ")"@;
    match s.image {
        Some(img) => base + "\n"@ + spec_image_markdown(img.name, img.url),
        None => base,
    }
}

impl SourceAttribution {
    pub fn render(&self) -> (r: String)
        ensures
            r@ == spec_source_line(self@),
    {
        let mut s = String::from_str("[");
        match &self.display_name {
            Some(n) => s.append(n.as_str()),
            None => match &self.see_more_url {
                Some(u) => s.append(u.as_str()),
                None => s.append("Unknown"),
            },
        }
        s.append("](");
        match &self.see_more_url {
            Some(u) => s.append(u.as_str()),
            None => s.append("Unknown"),
        }
        s.append(")");
        match &self.image {
            Some(img) => {
                s.append("\n");
                let line = img.markdown();
                s.append(line.as_str());
            }
            None => {}
        }
        s
    }
}

} // verus!
