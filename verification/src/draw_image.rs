//! The image-generation flow's decisions: where to poll, when a poll
//! answer is ready, which links it holds, and what one finished job means
//! for the event stream.  The transport layer performs the HTTP requests
//! and the waiting between attempts.

use vstd::prelude::*;
use crate::strings::{contains_str, contains_sub, dec_digits, dec_u64, has_prefix, match_at,
    starts_with_str, sub_at};
use crate::types::bot_easy_resp::{BotResp, EventModel, Image, ImageModel};

verus! {

/// The first position at or after `from` where `p` occurs in `s`.
pub open spec fn spec_find_from(s: Seq<char>, p: Seq<char>, from: int) -> Option<int>
    decreases s.len() - from + 1,
{
    if from < 0 || from + p.len() > s.len() {
        None
    } else if sub_at(s, p, from) {
        Some(from)
    } else {
        spec_find_from(s, p, from + 1)
    }
}

/// The last position at or before `from` where `p` occurs in `s`.
pub open spec fn spec_rfind_from(s: Seq<char>, p: Seq<char>, from: int) -> Option<int>
    decreases from + 1,
{
    if from < 0 {
        None
    } else if sub_at(s, p, from) {
        Some(from)
    } else {
        spec_rfind_from(s, p, from - 1)
    }
}

/// A found occurrence is a match, and lies at or after `from`.
pub proof fn lemma_find_from_is_match(s: Seq<char>, p: Seq<char>, from: int)
    requires
        spec_find_from(s, p, from) is Some,
    ensures
        from <= spec_find_from(s, p, from)->0,
        sub_at(s, p, spec_find_from(s, p, from)->0),
    decreases s.len() - from + 1,
{
    if !(from < 0 || from + p.len() > s.len()) && !sub_at(s, p, from) {
        lemma_find_from_is_match(s, p, from + 1);
    }
}

/// A found last occurrence is a match.
pub proof fn lemma_rfind_is_match(s: Seq<char>, p: Seq<char>, from: int)
    requires
        spec_rfind_from(s, p, from) is Some,
    ensures
        spec_rfind_from(s, p, from)->0 <= from,
        sub_at(s, p, spec_rfind_from(s, p, from)->0),
    decreases from + 1,
{
    if from >= 0 && !sub_at(s, p, from) {
        lemma_rfind_is_match(s, p, from - 1);
    }
}

/// Finds the first occurrence of `p` at or after `from`.
pub fn find_from(s: &str, p: &str, from: usize) -> (r: Option<usize>)
    ensures
        match r {
            Some(i) => spec_find_from(s@, p@, from as int) == Some(i as int),
            None => spec_find_from(s@, p@, from as int) is None,
        },
{
    let s_len = s.unicode_len();
    let p_len = p.unicode_len();
    if p_len > s_len || from > s_len - p_len {
        return None;
    }
    if p_len == 0 {
        proof {
            assert(s@.subrange(from as int, from as int) =~= p@);
        }
        return Some(from);
    }
    let last = s_len - p_len;
    let mut i: usize = from;
    while i <= last
        invariant
            s_len == s@.len(),
            p_len == p@.len(),
            1 <= p_len <= s_len,
            last == s_len - p_len,
            from <= i <= last + 1,
            spec_find_from(s@, p@, from as int) == spec_find_from(s@, p@, i as int),
        decreases last + 1 - i,
    {
        if match_at(s, p, i) {
            return Some(i);
        }
        i = i + 1;
    }
    None
}

/// Finds the last occurrence of `p` in `s`.
pub fn rfind(s: &str, p: &str) -> (r: Option<usize>)
    ensures
        ({
            let start = s@.len() - p@.len();
            match r {
                Some(i) => spec_rfind_from(s@, p@, start) == Some(i as int),
                None => spec_rfind_from(s@, p@, start) is None,
            }
        }),
{
    let s_len = s.unicode_len();
    let p_len = p.unicode_len();
    if p_len > s_len {
        return None;
    }
    let mut i: usize = s_len - p_len;
    loop
        invariant
            s_len == s@.len(),
            p_len == p@.len(),
            p_len <= s_len,
            0 <= i <= s_len - p_len,
            spec_rfind_from(s@, p@, s@.len() - p@.len()) == spec_rfind_from(s@, p@, i as int),
        decreases i,
    {
        if match_at(s, p, i) {
            return Some(i);
        }
        if i == 0 {
            proof {
                assert(spec_rfind_from(s@, p@, 0int) == spec_rfind_from(s@, p@, -1));
            }
            return None;
        }
        i = i - 1;
    }
}

/// How many poll attempts a job gets: a short budget for best-effort
/// inline polling, a longer one when the job must resolve during drain.
pub fn poll_attempt_budget(wait_long: bool) -> (r: u32)
    ensures
        r == (if wait_long { 100u32 } else { 50u32 }),
{
    if wait_long { 100 } else { 50 }
}

/// Whether a poll answer holds finished content.
pub fn poll_content_ready(text: &str) -> (r: bool)
    ensures
        r == contains_sub(text@, "th.bing.com/th"@),
{
    contains_str(text, "th.bing.com/th")
}

/// The generation request id inside a redirect's location header: what
/// follows the last `id=`, up to the first `&` after it — or the whole
/// header where no `id=` occurs.
pub open spec fn spec_request_id(s: Seq<char>) -> Seq<char> {
    let tail_start = match spec_rfind_from(s, "id="@, s.len() - "id="@.len()) {
        Some(i) => i + "id="@.len(),
        None => 0,
    };
    let end = match spec_find_from(s, "&"@, tail_start) {
        Some(j) => j,
        None => s.len() as int,
    };
    s.subrange(tail_start, end)
}

/// Extracts the request id from a redirect's location header.
pub fn extract_request_id(location: &str) -> (r: String)
    ensures
        r@ == spec_request_id(location@),
{
    proof {
        reveal_strlit("id=");
        reveal_strlit("&");
    }
    let len = location.unicode_len();
    let tail_start: usize = match rfind(location, "id=") {
        Some(i) => {
            proof {
                lemma_rfind_is_match(location@, "id="@, location@.len() - 3);
            }
            i + 3
        }
        None => 0,
    };
    let end: usize = match find_from(location, "&", tail_start) {
        Some(j) => {
            proof {
                lemma_find_from_is_match(location@, "&"@, tail_start as int);
            }
            j
        }
        None => len,
    };
    String::from_str(location.substring_char(tail_start, end))
}

/// The pieces of `s` between occurrences of the separator `p`, in order.
pub open spec fn spec_split_str(s: Seq<char>, p: Seq<char>) -> Seq<Seq<char>>
    decreases s.len(),
{
    if p.len() == 0 {
        seq![s]
    } else {
        match spec_find_from(s, p, 0) {
            None => seq![s],
            Some(i) => if 0 <= i && i + p.len() <= s.len() {
                seq![s.subrange(0, i)] + spec_split_str(
                    s.subrange(i + p.len(), s.len() as int),
                    p,
                )
            } else {
                seq![s]
            },
        }
    }
}

/// The link one piece yields: the text up to its first quote, cut at the
/// first `?w=`, kept only when it is an `https://` link that is neither a
/// relay host nor an analytics host.
pub open spec fn spec_piece_link(s: Seq<char>) -> Option<Seq<char>> {
    match spec_find_from(s, "\""@, 0) {
        None => None,
        Some(end) => {
            let full = s.subrange(0, end);
            let link = match spec_find_from(full, "?w="@, 0) {
                Some(i) => full.subrange(0, i),
                None => full,
            };
            if !contains_sub(link, "r.bing.com"@) && has_prefix(link, "https://"@) && !has_prefix(
                link,
                "https://www.clarity."@,
            ) {
                Some(link)
            } else {
                None
            }
        },
    }
}

/// The links all pieces yield, in order.
pub open spec fn spec_piece_links(pieces: Seq<Seq<char>>) -> Seq<Seq<char>>
    decreases pieces.len(),
{
    if pieces.len() == 0 {
        seq![]
    } else {
        match spec_piece_link(pieces[0]) {
            Some(l) => seq![l] + spec_piece_links(pieces.drop_first()),
            None => spec_piece_links(pieces.drop_first()),
        }
    }
}

/// The image links a poll answer holds.
pub open spec fn spec_image_links(content: Seq<char>) -> Seq<Seq<char>> {
    spec_piece_links(spec_split_str(content, "src=\""@))
}

/// Splits `s` at every occurrence of `p`.
fn split_str(s: &str, p: &str) -> (r: Vec<String>)
    requires
        p@.len() > 0,
    ensures
        r.deep_view() == spec_split_str(s@, p@),
{
    let s_len = s.unicode_len();
    let p_len = p.unicode_len();
    let mut out: Vec<String> = Vec::new();
    let mut start: usize = 0;
    proof {
        assert(s@.subrange(0, s_len as int) =~= s@);
        assert(out.deep_view() =~= Seq::<Seq<char>>::empty());
    }
    loop
        invariant
            s_len == s@.len(),
            p_len == p@.len(),
            p_len > 0,
            0 <= start <= s_len,
            spec_split_str(s@, p@) == out.deep_view() + spec_split_str(
                s@.subrange(start as int, s_len as int),
                p@,
            ),
        decreases s_len - start + 1,
    {
        let ghost rest = s@.subrange(start as int, s_len as int);
        let ghost pre = out.deep_view();
        match find_from(s, p, start) {
            Some(i) => {
                proof {
                    lemma_find_from_is_match(s@, p@, start as int);
                    lemma_find_shift(s@, p@, start as int);
                }
                let piece = String::from_str(s.substring_char(start, i));
                out.push(piece);
                proof {
                    assert(rest.subrange(0, i - start) =~= s@.subrange(start as int, i as int));
                    assert(rest.subrange(i - start + p@.len(), rest.len() as int) =~= s@.subrange(
                        i + p@.len(),
                        s_len as int,
                    ));
                    assert(out.deep_view() =~= pre + seq![rest.subrange(0, i - start)]);
                    assert(out.deep_view() + spec_split_str(
                        s@.subrange(i + p@.len(), s_len as int),
                        p@,
                    ) =~= pre + spec_split_str(rest, p@));
                }
                start = i + p_len;
            }
            None => {
                proof {
                    lemma_find_shift(s@, p@, start as int);
                }
                let piece = String::from_str(s.substring_char(start, s_len));
                out.push(piece);
                proof {
                    assert(out.deep_view() =~= pre + seq![rest]);
                    assert(out.deep_view() =~= pre + spec_split_str(rest, p@));
                }
                return out;
            }
        }
    }
}

/// Searching the whole text from `from` on finds the same occurrence as
/// searching the text's tail from its start.
proof fn lemma_find_shift(s: Seq<char>, p: Seq<char>, from: int)
    requires
        p.len() > 0,
        0 <= from <= s.len(),
    ensures
        ({
            let rest = s.subrange(from, s.len() as int);
            match spec_find_from(s, p, from) {
                Some(i) => spec_find_from(rest, p, 0) == Some(i - from),
                None => spec_find_from(rest, p, 0) is None,
            }
        }),
{
    let rest = s.subrange(from, s.len() as int);
    lemma_find_shift_rec(s, p, from, from);
}

/// The shifted search agrees position by position.
proof fn lemma_find_shift_rec(s: Seq<char>, p: Seq<char>, from: int, at: int)
    requires
        p.len() > 0,
        0 <= from <= at <= s.len(),
    ensures
        ({
            let rest = s.subrange(from, s.len() as int);
            match spec_find_from(s, p, at) {
                Some(i) => spec_find_from(rest, p, at - from) == Some(i - from),
                None => spec_find_from(rest, p, at - from) is None,
            }
        }),
    decreases s.len() - at,
{
    let rest = s.subrange(from, s.len() as int);
    if at + p.len() <= s.len() {
        assert(sub_at(s, p, at) == sub_at(rest, p, at - from)) by {
            if at + p.len() <= s.len() {
                assert(s.subrange(at, at + p.len()) =~= rest.subrange(
                    at - from,
                    at - from + p.len(),
                ));
            }
        }
        if !sub_at(s, p, at) {
            lemma_find_shift_rec(s, p, from, at + 1);
        }
    }
}

/// Extracts the image links a poll answer holds, in order.
pub fn extract_image_links(content: &str) -> (r: Vec<String>)
    ensures
        r.deep_view() == spec_image_links(content@),
{
    proof {
        reveal_strlit("src=\"");
    }
    let pieces = split_str(content, "src=\"");
    let ghost full = pieces.deep_view();
    let mut links: Vec<String> = Vec::new();
    let mut i: usize = 0;
    proof {
        assert(full.skip(0) =~= full);
        assert(links.deep_view() + spec_piece_links(full) =~= spec_piece_links(full));
    }
    while i < pieces.len()
        invariant
            0 <= i <= full.len(),
            full == pieces.deep_view(),
            spec_piece_links(full) == links.deep_view() + spec_piece_links(full.skip(i as int)),
        decreases full.len() - i,
    {
        let ghost pre = links.deep_view();
        proof {
            assert(full.skip(i as int)[0] == full[i as int]);
            assert(full.skip(i as int).drop_first() =~= full.skip(i + 1));
        }
        let piece = &pieces[i];
        match find_from(piece.as_str(), "\"", 0) {
            Some(end) => {
                proof {
                    reveal_strlit("\"");
                    lemma_find_from_is_match(piece@, "\""@, 0);
                }
                let quoted = String::from_str(piece.as_str().substring_char(0, end));
                let cut = match find_from(quoted.as_str(), "?w=", 0) {
                    Some(j) => {
                        proof {
                            reveal_strlit("?w=");
                            lemma_find_from_is_match(quoted@, "?w="@, 0);
                        }
                        String::from_str(quoted.as_str().substring_char(0, j))
                    }
                    None => quoted,
                };
                let keep = !contains_str(cut.as_str(), "r.bing.com") && starts_with_str(
                    cut.as_str(),
                    "https://",
                ) && !starts_with_str(cut.as_str(), "https://www.clarity.");
                if keep {
                    links.push(cut);
                    proof {
                        assert(links.deep_view() =~= pre + seq![
                            spec_piece_link(full[i as int])->0,
                        ]);
                    }
                }
                proof {
                    assert(links.deep_view() + spec_piece_links(full.skip(i + 1)) =~= pre
                        + spec_piece_links(full.skip(i as int)));
                }
            }
            None => {
                proof {
                    assert(links.deep_view() + spec_piece_links(full.skip(i + 1)) =~= pre
                        + spec_piece_links(full.skip(i as int)));
                }
            }
        }
        i = i + 1;
    }
    proof {
        assert(full.skip(full.len() as int) =~= Seq::<Seq<char>>::empty());
        assert(links.deep_view() =~= spec_piece_links(full));
    }
    links
}

/// The name given to the `k`-th extracted image, numbered from one.
pub open spec fn spec_image_name(k: nat) -> Seq<char> {
    "bing_image_"@ + dec_digits(k) + ".jpg"@
}

/// Wraps the extracted links as named images, in order.
pub fn images_from_links(links: &Vec<String>) -> (r: Vec<Image>)
    ensures
        r@.len() == links@.len(),
        forall|i: int|
            0 <= i < links@.len() ==> (#[trigger] r@[i])@ == (ImageModel {
                name: spec_image_name((i + 1) as nat),
                url: links@[i]@,
            }),
{
    let mut out: Vec<Image> = Vec::new();
    let mut i: usize = 0;
    while i < links.len()
        invariant
            0 <= i <= links@.len(),
            out@.len() == i,
            forall|j: int|
                0 <= j < i ==> (#[trigger] out@[j])@ == (ImageModel {
                    name: spec_image_name((j + 1) as nat),
                    url: links@[j]@,
                }),
        decreases links@.len() - i,
    {
        let mut name = String::from_str("bing_image_");
        let num = dec_u64((i + 1) as u64);
        name.append(num.as_str());
        name.append(".jpg");
        out.push(Image { name, url: links[i].clone() });
        i = i + 1;
    }
    out
}

/// The apology text for a failed generation job.
pub open spec fn spec_draw_failed_text(m: Seq<char>) -> Seq<char> {
    "Bing Copilot Draw Image Failed; Error Message: "@ + m
}

/// What one finished generation job contributes to the event stream: its
/// images, or an apology carrying the failure's description.  Either way
/// the job resolves to exactly one terminal event.
pub fn job_event(outcome: Result<Vec<Image>, String>) -> (r: BotResp)
    ensures
        match outcome {
            Ok(images) => r@ == EventModel::Image(images.deep_view()),
            Err(m) => r@ == EventModel::Apology(spec_draw_failed_text(m@)),
        },
        r@ is Image || r@ is Apology,
{
    match outcome {
        Ok(images) => BotResp::Image(images),
        Err(m) => {
            let mut text = String::from_str("Bing Copilot Draw Image Failed; Error Message: ");
            text.append(m.as_str());
            BotResp::Apology(text)
        }
    }
}

} // verus!
