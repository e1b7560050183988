//! Knowledge-base search requests: the endpoint a client keeps, the URL of
//! an index's search operation, and the category filter of a KB query.

use vstd::prelude::*;
use crate::text::{chars_of, string_of, trim_chars, trim_seq, trim_trailing_slashes, without_trailing_slashes};

verus! {

/// The search endpoint as the client keeps it: without trailing slashes.
pub fn search_endpoint(endpoint: &str) -> (r: String)
    ensures
        r@ == without_trailing_slashes(endpoint@),
{
    trim_trailing_slashes(endpoint)
}

/// The search operation of an index, at the service's 2023-11-01 API.
pub fn search_url(endpoint: &str, index: &str) -> (r: String)
    ensures
        r@ == endpoint@ + "/indexes/"@ + index@ + "/docs/search?api-version=2023-11-01"@,
{
    let mut s = String::from_str(endpoint);
    s.append("/indexes/");
    s.append(index);
    s.append("/docs/search?api-version=2023-11-01");
    s
}

/// `s` with every single quote doubled, as an OData string literal needs.
pub open spec fn doubled_quotes(s: Seq<char>) -> Seq<char>
    decreases s.len(),
{
    if s.len() == 0 {
        seq![]
    } else {
        doubled_quotes(s.drop_last()) + (if s.last() == '\'' {
            seq!['\'', '\'']
        } else {
            seq![s.last()]
        })
    }
}

/// The filter of a KB query: none for an absent or blank category, else
/// `category eq '<category>'` with its quotes doubled.
pub open spec fn category_filter_text(category: Option<Seq<char>>) -> Option<Seq<char>> {
    match category {
        Some(c) => if trim_seq(c).len() == 0 {
            None
        } else {
            Some("category eq '"@ + doubled_quotes(c) + "'"@)
        },
        None => None,
    }
}

/// The text of an optional string slice.
pub open spec fn opt_str_text(o: Option<&str>) -> Option<Seq<char>> {
    match o {
        Some(c) => Some(c@),
        None => None,
    }
}

pub fn category_filter(category: Option<&str>) -> (r: Option<String>)
    ensures
        (match r {
            Some(f) => category_filter_text(opt_str_text(category)) == Some(f@),
            None => category_filter_text(opt_str_text(category)) is None,
        }),
{
    match category {
        None => None,
        Some(c) => {
            let v = chars_of(c);
            if trim_chars(&v).len() == 0 {
                return None;
            }
            let mut prefix = String::from_str("category eq '");
            let mut i: usize = 0;
            let mut body: Vec<char> = Vec::new();
            while i < v.len()
                invariant
                    i <= v.len(),
                    body@ == doubled_quotes(v@.subrange(0, i as int)),
                decreases v.len() - i,
            {
                let ghost sub = v@.subrange(0, i + 1);
                assert(sub.drop_last() =~= v@.subrange(0, i as int));
                if v[i] == '\'' {
                    body.push('\'');
                    body.push('\'');
                } else {
                    body.push(v[i]);
                }
                i = i + 1;
                assert(body@ =~= doubled_quotes(v@.subrange(0, i as int)));
            }
            assert(v@.subrange(0, v@.len() as int) =~= v@);
            prefix.append(string_of(&body).as_str());
            prefix.append("'");
            Some(prefix)
        },
    }
}

} // verus!
