//! FrameCodec: splits one raw text frame into record-separator-delimited
//! JSON records, and builds outbound records with the terminator appended.
//! The codec has no state; decode and encode are a pure function pair.

use vstd::prelude::*;
use crate::trusted::{is_valid_json, parse_json};

verus! {

/// The single byte that terminates every record inside a text frame.
pub const RECORD_SEPARATOR: char = '\x1e';

/// Splits the rest of a frame into segments: `cur` is the segment read so
/// far, `acc` the segments already complete.
pub open spec fn split_records(s: Seq<char>, cur: Seq<char>, acc: Seq<Seq<char>>) -> Seq<Seq<char>>
    decreases s.len(),
{
    if s.len() == 0 {
        acc.push(cur)
    } else if s[0] == RECORD_SEPARATOR {
        split_records(s.drop_first(), Seq::empty(), acc.push(cur))
    } else {
        split_records(s.drop_first(), cur.push(s[0]), acc)
    }
}

/// All separator-delimited segments of a frame, in order.
pub open spec fn frame_segments(s: Seq<char>) -> Seq<Seq<char>> {
    split_records(s, Seq::empty(), Seq::empty())
}

/// The predicate decode keeps segments by.
pub open spec fn json_segment() -> spec_fn(Seq<char>) -> bool {
    |seg: Seq<char>| is_valid_json(seg)
}

/// What decode returns: exactly the segments that parse as JSON, in their
/// original order.  The empty segment after a trailing separator is never
/// valid JSON, so it is discarded with the rest.
pub open spec fn decoded_records(s: Seq<char>) -> Seq<Seq<char>> {
    frame_segments(s).filter(json_segment())
}

pub struct FrameCodec {}

impl FrameCodec {
    /// Splits `text` on the record separator and keeps, in order, exactly
    /// the segments that parse as valid JSON.
    pub fn decode(text: &str) -> (r: Vec<String>)
        ensures
            r.deep_view() == decoded_records(text@),
    {
        let segs = split_frame(text);
        let mut out: Vec<String> = Vec::new();
        let mut i: usize = 0;
        while i < segs.len()
            invariant
                0 <= i <= segs@.len(),
                segs.deep_view() == frame_segments(text@),
                out.deep_view() == segs.deep_view().take(i as int).filter(json_segment()),
            decreases segs@.len() - i,
        {
            let ghost pre = out.deep_view();
            let keep = parse_json(segs[i].as_str()).is_some();
            if keep {
                out.push(segs[i].clone());
            }
            proof {
                reveal(Seq::filter);
                let t1 = segs.deep_view().take(i + 1);
                assert(t1.drop_last() =~= segs.deep_view().take(i as int));
                assert(t1.last() == segs@[i as int]@);
                if keep {
                    assert(out.deep_view() =~= pre.push(segs@[i as int]@));
                } else {
                    assert(out.deep_view() =~= pre);
                }
            }
            i = i + 1;
        }
        proof {
            assert(segs.deep_view().take(segs.deep_view().len() as int) =~= segs.deep_view());
        }
        out
    }

    /// Serializes one outbound record: the payload with exactly one record
    /// separator appended.
    pub fn encode(payload: &str) -> (r: String)
        ensures
            r@ == payload@.push(RECORD_SEPARATOR),
    {
        let mut s = String::from_str(payload);
        s.append("\x1e");
        proof {
            reveal_strlit("\x1e");
            assert(payload@ + "\x1e"@ =~= payload@.push(RECORD_SEPARATOR));
        }
        s
    }
}

/// All separator-delimited segments of `text`, empty ones included.
fn split_frame(text: &str) -> (r: Vec<String>)
    ensures
        r.deep_view() == frame_segments(text@),
{
    let len = text.unicode_len();
    let mut segs: Vec<String> = Vec::new();
    let mut start: usize = 0;
    let mut i: usize = 0;
    proof {
        assert(text@.subrange(0, len as int) =~= text@);
        assert(text@.subrange(0, 0) =~= Seq::<char>::empty());
        assert(segs.deep_view() =~= Seq::<Seq<char>>::empty());
    }
    while i < len
        invariant
            len == text@.len(),
            0 <= start <= i <= len,
            frame_segments(text@) == split_records(
                text@.subrange(i as int, len as int),
                text@.subrange(start as int, i as int),
                segs.deep_view(),
            ),
        decreases len - i,
    {
        let ghost rest = text@.subrange(i as int, len as int);
        let ghost cur = text@.subrange(start as int, i as int);
        let ghost pre = segs.deep_view();
        let c = text.get_char(i);
        proof {
            assert(rest[0] == text@[i as int]);
            assert(rest.drop_first() =~= text@.subrange(i + 1, len as int));
        }
        if c == RECORD_SEPARATOR {
            let seg = String::from_str(text.substring_char(start, i));
            segs.push(seg);
            proof {
                assert(segs.deep_view() =~= pre.push(cur));
                assert(text@.subrange(i + 1, i + 1) =~= Seq::<char>::empty());
            }
            start = i + 1;
        } else {
            proof {
                assert(cur.push(text@[i as int]) =~= text@.subrange(start as int, i + 1));
            }
        }
        i = i + 1;
    }
    let last_seg = String::from_str(text.substring_char(start, len));
    segs.push(last_seg);
    proof {
        assert(text@.subrange(len as int, len as int) =~= Seq::<char>::empty());
        assert(segs.deep_view() =~= frame_segments(text@));
    }
    segs
}

} // verus!
