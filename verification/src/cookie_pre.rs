//! Cookie preparation: turns a JSON cookie export into one `Cookie:`
//! header string, and guarantees the locale marker every request needs.
//! Reading cookie files is the transport layer's job.

use vstd::prelude::*;
use crate::error::ClientError;
use crate::strings::{contains_str, contains_sub};
use crate::trusted::{is_valid_json, json_as_array, json_as_str, json_get, parse_json};

verus! {

/// `name=value` pairs joined with `;`.
pub open spec fn spec_cookie_join(pairs: Seq<(Seq<char>, Seq<char>)>) -> Seq<char>
    decreases pairs.len(),
{
    if pairs.len() == 0 {
        Seq::empty()
    } else if pairs.len() == 1 {
        pairs[0].0 + "="@ + pairs[0].1
    } else {
        pairs[0].0 + "="@ + pairs[0].1 + ";"@ + spec_cookie_join(pairs.drop_first())
    }
}

/// Joins cookie pairs into one header string.
pub fn join_cookie_pairs(pairs: &Vec<(String, String)>) -> (r: String)
    ensures
        r@ == spec_cookie_join(pairs.deep_view()),
{
    let ghost full = pairs.deep_view();
    let mut s = String::new();
    let mut i: usize = 0;
    proof {
        assert(full.skip(0) =~= full);
        if full.len() == 0 {
            assert(s@ =~= spec_cookie_join(full));
        }
    }
    while i < pairs.len()
        invariant
            0 <= i <= full.len(),
            full == pairs.deep_view(),
            i < full.len() ==> s@ + spec_cookie_join(full.skip(i as int)) == spec_cookie_join(
                full,
            ),
            i == full.len() ==> s@ == spec_cookie_join(full),
        decreases full.len() - i,
    {
        let ghost pre = s@;
        proof {
            assert(full.skip(i as int)[0] == full[i as int]);
            assert(full.skip(i as int).drop_first() =~= full.skip(i + 1));
        }
        s.append(pairs[i].0.as_str());
        s.append("=");
        s.append(pairs[i].1.as_str());
        if i + 1 < pairs.len() {
            s.append(";");
            proof {
                assert(s@ + spec_cookie_join(full.skip(i + 1)) =~= pre + spec_cookie_join(
                    full.skip(i as int),
                ));
            }
        } else {
            proof {
                assert(full.skip(i as int).len() == 1);
                assert(s@ =~= pre + spec_cookie_join(full.skip(i as int)));
            }
        }
        i = i + 1;
    }
    s
}

/// The locale marker appended when a cookie string lacks one: preceded by
/// a separator unless the string already ends with one.
pub open spec fn spec_with_edge_cd(s: Seq<char>) -> Seq<char> {
    if contains_sub(s, "_EDGE_CD"@) {
        s
    } else if s.len() > 0 && s.last() == ';' {
        s + "_EDGE_CD=m=en-us&u=en-us"@
    } else {
        s + ";"@ + "_EDGE_CD=m=en-us&u=en-us"@
    }
}

/// Guarantees the locale marker at the end of a cookie string.
pub fn ensure_edge_cd(s: String) -> (r: String)
    ensures
        r@ == spec_with_edge_cd(s@),
{
    if contains_str(s.as_str(), "_EDGE_CD") {
        return s;
    }
    let len = s.as_str().unicode_len();
    let ends_sep = if len > 0 {
        s.as_str().get_char(len - 1) == ';'
    } else {
        false
    };
    let mut out = s;
    if !ends_sep {
        out.append(";");
    }
    out.append("_EDGE_CD=m=en-us&u=en-us");
    out
}

/// Turns the text of a JSON cookie export into one header string: each
/// entry's name and value joined as `name=value`, the entries joined with
/// `;`.  Text that is not a JSON array of objects with string `name` and
/// `value` fields is rejected, as a typed parse of it would fail.  What
/// the pairs are is decided by the opaque parsed value; how they join is
/// exactly `spec_cookie_join`.
pub fn cookie2str(json_cookie: &str) -> (r: Result<String, ClientError>)
    ensures
        !is_valid_json(json_cookie@) ==> r is Err,
        match r {
            Ok(s) => is_valid_json(json_cookie@) && exists|pairs: Seq<(Seq<char>, Seq<char>)>|
                s@ == spec_cookie_join(pairs),
            Err(e) => e is InvalidCookie,
        },
{
    match parse_json(json_cookie) {
        None => Err(ClientError::InvalidCookie(String::from_str("not valid JSON"))),
        Some(v) => {
            match json_as_array(&v) {
                None => Err(ClientError::InvalidCookie(String::from_str("not a JSON array"))),
                Some(entries) => {
                    let mut pairs: Vec<(String, String)> = Vec::new();
                    let mut i: usize = 0;
                    while i < entries.len()
                        decreases entries.len() - i,
                    {
                        let name = match json_get(&entries[i], "name") {
                            Some(f) => json_as_str(f),
                            None => None,
                        };
                        let value = match json_get(&entries[i], "value") {
                            Some(f) => json_as_str(f),
                            None => None,
                        };
                        match (name, value) {
                            (Some(n), Some(val)) => {
                                pairs.push((String::from_str(n), String::from_str(val)));
                            }
                            _ => {
                                return Err(ClientError::InvalidCookie(String::from_str(
                                    "an entry lacks a string name or value",
                                )));
                            }
                        }
                        i = i + 1;
                    }
                    let joined = join_cookie_pairs(&pairs);
                    proof {
                        let ghost ps = pairs.deep_view();
                        assert(joined@ == spec_cookie_join(ps));
                    }
                    Ok(joined)
                }
            }
        }
    }
}

} // verus!
