use vstd::prelude::*;
use crate::model::HeaderView;

verus! {

/// A character allowed in an HTTP header name (an RFC 7230 token character).
pub open spec fn is_token_char(c: char) -> bool {
    ('a' <= c && c <= 'z') || ('A' <= c && c <= 'Z') || ('0' <= c && c <= '9') || c == '!'
        || c == '#' || c == '$' || c == '%' || c == '&' || c == '\'' || c == '*' || c == '+'
        || c == '-' || c == '.' || c == '^' || c == '_' || c == '`' || c == '|' || c == '~'
}

/// A key that is accepted as a header name: 1 to 65535 token characters.
pub open spec fn valid_header_name(k: Seq<char>) -> bool {
    1 <= k.len() <= 65535 && forall|i: int| 0 <= i < k.len() ==> is_token_char(#[trigger] k[i])
}

/// A character allowed in a header value: visible, or a space or a tab, or non-ASCII.
pub open spec fn is_value_char(c: char) -> bool {
    (c as u32 >= 32 && c as u32 != 127) || c == '\t'
}

pub open spec fn valid_header_value(v: Seq<char>) -> bool {
    forall|i: int| 0 <= i < v.len() ==> is_value_char(#[trigger] v[i])
}

/// `d` is `c` with an upper-case ASCII letter turned into lower case.
pub open spec fn lower_of_char(c: char, d: char) -> bool {
    if 'A' <= c && c <= 'Z' {
        d as u32 == c as u32 + 32
    } else {
        d == c
    }
}

/// `n` is `k` in ASCII lower case.
pub open spec fn is_lowercase_of(k: Seq<char>, n: Seq<char>) -> bool {
    &&& n.len() == k.len()
    &&& forall|i: int| 0 <= i < k.len() ==> lower_of_char(#[trigger] k[i], n[i])
}

/// A user header takes part in the outgoing request: key and value are non-empty and
/// both can be encoded.
#[verifier::opaque]
pub open spec fn header_kept(p: HeaderView) -> bool {
    p.0.len() > 0 && p.1.len() > 0 && valid_header_name(p.0) && valid_header_value(p.1)
}

/// Relies on http's `HeaderName::from_bytes` (re-exported by reqwest): it accepts exactly
/// the names of `valid_header_name` and stores them in ASCII lower case.
#[verifier::external_body]
fn normalize_header_name(key: &String) -> (r: Option<String>)
    ensures
        r is Some <==> valid_header_name(key@),
        r is Some ==> is_lowercase_of(key@, r->0@),
{
    reqwest::header::HeaderName::from_bytes(key.as_bytes()).ok().map(|n| n.as_str().to_string())
}

/// Relies on http's `HeaderValue::from_str` (re-exported by reqwest): it accepts a text
/// whose bytes are all visible, a space, a tab, or 128 and above.
#[verifier::external_body]
fn is_encodable_value(value: &String) -> (r: bool)
    ensures
        r == valid_header_value(value@),
{
    reqwest::header::HeaderValue::from_str(value.as_str()).is_ok()
}

/// The sent header `q` stands for the user header `p`.
#[verifier::opaque]
pub open spec fn sent_as(p: HeaderView, q: HeaderView) -> bool {
    is_lowercase_of(p.0, q.0) && q.1 == p.1
}

/// `out` holds, in order, the kept headers of `h`, each as it is sent.
pub open spec fn filtered_headers(h: Seq<HeaderView>, out: Seq<HeaderView>) -> bool
    decreases h.len(),
{
    if h.len() == 0 {
        out.len() == 0
    } else if header_kept(h.last()) {
        out.len() > 0 && sent_as(h.last(), out.last()) && filtered_headers(
            h.drop_last(),
            out.drop_last(),
        )
    } else {
        filtered_headers(h.drop_last(), out)
    }
}

/// The header every request carries before the user's own.
pub open spec fn default_header() -> HeaderView {
    ("content-type"@, "application/json"@)
}

/// The headers of an outgoing request, in the order they are applied: the default
/// content type first, then each user header that has a non-empty key and value and can
/// be encoded, with its key in lower case.
pub fn outgoing_headers(user: &Vec<(String, String)>) -> (r: Vec<(String, String)>)
    ensures
        r@.len() >= 1,
        crate::model::headers_view(r@)[0] == default_header(),
        filtered_headers(
            crate::model::headers_view(user@),
            crate::model::headers_view(r@).drop_first(),
        ),
{
    let mut r: Vec<(String, String)> = Vec::new();
    r.push((String::from_str("content-type"), String::from_str("application/json")));
    let ghost hv = crate::model::headers_view(user@);
    let mut i: usize = 0;
    while i < user.len()
        invariant
            i <= user@.len(),
            hv == crate::model::headers_view(user@),
            r@.len() >= 1,
            crate::model::headers_view(r@)[0] == default_header(),
            filtered_headers(hv.subrange(0, i as int), crate::model::headers_view(r@).drop_first()),
        decreases user@.len() - i,
    {
        proof {
            reveal(header_kept);
            reveal(sent_as);
        }
        let key = &user[i].0;
        let value = &user[i].1;
        let ghost before = crate::model::headers_view(r@);
        proof {
            assert(hv.subrange(0, i + 1).drop_last() =~= hv.subrange(0, i as int));
            assert(hv.subrange(0, i + 1).last() == (key@, value@));
        }
        if !key.as_str().is_empty() && !value.as_str().is_empty() {
            match normalize_header_name(key) {
                Some(name) => {
                    if is_encodable_value(value) {
                        r.push((name, value.clone()));
                        proof {
                            let after = crate::model::headers_view(r@);
                            assert(after.drop_first().drop_last() =~= before.drop_first());
                            assert(after[0] == before[0]);
                        }
                    }
                },
                None => {},
            }
        }
        i = i + 1;
    }
    proof {
        assert(hv.subrange(0, user@.len() as int) =~= hv);
    }
    r
}


/// The number of user headers that are sent.
pub open spec fn kept_count(h: Seq<HeaderView>) -> nat
    decreases h.len(),
{
    if h.len() == 0 {
        0
    } else if header_kept(h.last()) {
        kept_count(h.drop_last()) + 1
    } else {
        kept_count(h.drop_last())
    }
}

/// Filtering keeps exactly the usable headers and nothing else: as many headers are sent
/// as there are user headers with a non-empty key and value that can be encoded, whatever
/// the others hold, and no sent header has an empty key or an empty value.
pub proof fn lemma_filtered_headers_exact(h: Seq<HeaderView>, out: Seq<HeaderView>)
    requires
        filtered_headers(h, out),
    ensures
        out.len() == kept_count(h),
        forall|k: int| 0 <= k < out.len() ==> (#[trigger] out[k]).0.len() > 0 && out[k].1.len() > 0,
    decreases h.len(),
{
    if h.len() > 0 {
        let hp = h.drop_last();
        if header_kept(h.last()) {
            let op = out.drop_last();
            lemma_filtered_headers_exact(hp, op);
            reveal(header_kept);
            reveal(sent_as);
            assert forall|k: int| 0 <= k < out.len() implies (#[trigger] out[k]).0.len() > 0 && out[k].1.len() > 0 by {
                if k < op.len() {
                    assert(op[k] == out[k]);
                }
            }
        } else {
            lemma_filtered_headers_exact(hp, out);
        }
    }
}

} // verus!
