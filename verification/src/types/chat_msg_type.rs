use vstd::prelude::*;
use crate::types::bot_easy_resp::{Image, ImageModel, SourceAttribution, SourceModel};

verus! {

/// One message of a conversation's stored history, reduced to the fields a
/// caller displays.
#[derive(Debug, Clone)]
pub struct EasyMsg {
    pub author: String,
    pub text: String,
    pub images: Vec<Image>,
    pub sources: Vec<SourceAttribution>,
    pub suggest_replys: Vec<String>,
}

#[verifier::ext_equal]
pub struct EasyMsgModel {
    pub author: Seq<char>,
    pub text: Seq<char>,
    pub images: Seq<ImageModel>,
    pub sources: Seq<SourceModel>,
    pub suggest_replys: Seq<Seq<char>>,
}

impl View for EasyMsg {
    type V = EasyMsgModel;

    open spec fn view(&self) -> EasyMsgModel {
        EasyMsgModel {
            author: self.author@,
            text: self.text@,
            images: self.images.deep_view(),
            sources: self.sources.deep_view(),
            suggest_replys: self.suggest_replys.deep_view(),
        }
    }
}

impl DeepView for EasyMsg {
    type V = EasyMsgModel;

    open spec fn deep_view(&self) -> EasyMsgModel {
        self.view()
    }
}

/// The display text of one stored message: its text, then its non-empty
/// sections — the images as markdown lines, the sources and suggested
/// replies as lists numbered from zero.
pub open spec fn spec_easy_msg_text(m: EasyMsgModel) -> Seq<char> {
    let imgs: Seq<char> = if m.images.len() == 0 {
        Seq::empty()
    } else {
        "\nImages:\n\n"@ + crate::types::bot_easy_resp::spec_image_block(m.images)
    };
    let srcs: Seq<char> = if m.sources.len() == 0 {
        Seq::empty()
    } else {
        "\nSources:\n\n"@ + crate::aggregate::spec_numbered(
            crate::aggregate::spec_source_lines(m.sources),
            0,
        )
    };
    let sugg: Seq<char> = if m.suggest_replys.len() == 0 {
        Seq::empty()
    } else {
        "\nSuggest Replys:\n\n"@ + crate::aggregate::spec_numbered(m.suggest_replys, 0)
    };
    m.text + imgs + srcs + sugg
}

impl EasyMsg {
    /// Renders this message for display.
    pub fn render(&self) -> (r: String)
        ensures
            r@ == spec_easy_msg_text(self@),
    {
        let mut s = self.text.clone();
        if self.images.len() > 0 {
            s.append("\nImages:\n\n");
            let block = crate::types::bot_easy_resp::render_image_block(&self.images);
            s.append(block.as_str());
        }
        if self.sources.len() > 0 {
            s.append("\nSources:\n\n");
            let mut lines: Vec<String> = Vec::new();
            let mut i: usize = 0;
            while i < self.sources.len()
                invariant
                    0 <= i <= self.sources@.len(),
                    lines@.len() == i,
                    forall|j: int|
                        0 <= j < i ==> (#[trigger] lines@[j])@ == crate::aggregate::spec_source_lines(
                            self.sources.deep_view(),
                        )[j],
                decreases self.sources@.len() - i,
            {
                lines.push(self.sources[i].render());
                i = i + 1;
            }
            proof {
                assert(lines.deep_view() =~= crate::aggregate::spec_source_lines(
                    self.sources.deep_view(),
                ));
            }
            let block = crate::aggregate::numbered_lines(&lines, 0);
            s.append(block.as_str());
        }
        if self.suggest_replys.len() > 0 {
            s.append("\nSuggest Replys:\n\n");
            let block = crate::aggregate::numbered_lines(&self.suggest_replys, 0);
            s.append(block.as_str());
        }
        s
    }
}

} // verus!
