//! Request-level decisions of the HTTP API: who is authorized, which browser
//! origins are allowed, and which asset and snapshot a request may address.
use crate::output_guard::texts;
use crate::explanation_service::opt_text;
use crate::text::{
    chars_of, find_from, find_from_pos, lemma_find_from_some, occurs_at, occurs_at_pos,
    slice_chars, str_eq, string_from_chars, to_string, trim, trim_bounds, trim_str,
};
use vstd::prelude::*;

verus! {

/// Query parameters of the snapshot endpoint.
#[derive(Debug, Clone)]
pub struct SnapshotQuery {
    pub asset_id: Option<String>,
    pub as_of: Option<String>,
}

/// The browser origins allowed to call the API.
#[derive(Debug, Clone)]
pub enum CorsOrigins {
    Any,
    List(Vec<String>),
}

/// An `Authorization` header value that carries `expected` as a bearer token.
pub open spec fn bearer_matches(header: Option<Seq<char>>, expected: Seq<char>) -> bool {
    header matches Some(v) && occurs_at(v, "Bearer "@, 0) && v.skip(7) == expected
}

/// Whether a request is authorized: always when no token is configured,
/// otherwise when it carries the token as a bearer token or in the agent
/// token header.
pub open spec fn is_authorized(
    authorization: Option<Seq<char>>,
    agent_token: Option<Seq<char>>,
    expected: Option<Seq<char>>,
) -> bool {
    match expected {
        None => true,
        Some(t) => bearer_matches(authorization, t) || agent_token == Some(t),
    }
}

/// A trimmed origin, kept when it is not empty.
pub open spec fn kept_origin(piece: Seq<char>) -> Seq<Seq<char>> {
    if trim(piece).len() > 0 {
        seq![trim(piece)]
    } else {
        Seq::empty()
    }
}

/// The comma-separated origins of `s`, trimmed, without empty entries.
pub open spec fn origin_list(s: Seq<char>) -> Seq<Seq<char>>
    decreases s.len(),
{
    match find_from(s, ","@, 0) {
        Some(i) => if i < s.len() {
            kept_origin(s.take(i as int)) + origin_list(s.skip((i + 1) as int))
        } else {
            kept_origin(s)
        },
        None => kept_origin(s),
    }
}

/// The message for a request about an asset this service does not serve.
pub open spec fn unsupported_asset_text(requested: Seq<char>, served: Seq<char>) -> Seq<char> {
    "unsupported asset_id "@ + requested + "; this MVP is scoped to "@ + served
}

/// Whether a request is authorized.
pub fn token_authorized(
    authorization: Option<&str>,
    agent_token: Option<&str>,
    expected: Option<&str>,
) -> (r: bool)
    ensures
        r == is_authorized(
            match authorization {
                Some(a) => Some(a@),
                None => None,
            },
            match agent_token {
                Some(a) => Some(a@),
                None => None,
            },
            match expected {
                Some(e) => Some(e@),
                None => None,
            },
        ),
{
    let expected = match expected {
        Some(e) => e,
        None => {
            return true;
        },
    };
    let bearer = match authorization {
        Some(value) => {
            let v = chars_of(value);
            let prefix = chars_of("Bearer ");
            proof {
                reveal_strlit("Bearer ");
            }
            if occurs_at_pos(&v, &prefix, 0) {
                let token = slice_chars(&v, 7, v.len());
                proof {
                    assert(token@ =~= value@.skip(7));
                }
                str_eq(string_from_chars(&token).as_str(), expected)
            } else {
                false
            }
        },
        None => false,
    };
    let header = match agent_token {
        Some(value) => str_eq(value, expected),
        None => false,
    };
    bearer || header
}

/// Whether binding must be refused: a public address with no token, unless
/// unauthenticated public access was explicitly allowed.
pub fn bind_refused(is_public: bool, has_token: bool, allow_unauthenticated_public: bool) -> (r:
    bool)
    ensures
        r == (is_public && !has_token && !allow_unauthenticated_public),
{
    is_public && !has_token && !allow_unauthenticated_public
}

/// The allowed origins: any origin for `*`, otherwise the comma-separated
/// list, each entry trimmed and empty entries dropped.
pub fn cors_origins(value: &str) -> (r: CorsOrigins)
    ensures
        trim(value@) == "*"@ ==> r is Any,
        trim(value@) != "*"@ ==> (r matches CorsOrigins::List(l) && texts(l@) == origin_list(
            value@,
        )),
{
    if str_eq(trim_str(value), "*") {
        return CorsOrigins::Any;
    }
    let comma = chars_of(",");
    proof {
        reveal_strlit(",");
    }
    let mut rest = chars_of(value);
    let mut out: Vec<String> = Vec::new();
    proof {
        assert(texts(out@) + origin_list(rest@) =~= origin_list(value@));
    }
    loop
        invariant
            comma@ == ","@,
            comma@.len() == 1,
            trim(value@) != "*"@,
            texts(out@) + origin_list(rest@) == origin_list(value@),
        decreases rest.len(),
    {
        match find_from_pos(&rest, &comma, 0) {
            Some(i) => {
                proof {
                    lemma_find_from_some(rest@, comma@, 0);
                }
                let piece = slice_chars(&rest, 0, i);
                let tail = slice_chars(&rest, i + 1, rest.len());
                let ghost old_out = texts(out@);
                let ghost old_rest = rest@;
                push_origin(&mut out, &piece);
                proof {
                    assert(piece@ =~= old_rest.take(i as int));
                    assert(tail@ =~= old_rest.skip(i + 1));
                    assert(texts(out@) + origin_list(tail@) =~= old_out + (kept_origin(piece@)
                        + origin_list(tail@)));
                }
                rest = tail;
            },
            None => {
                let ghost old_out = texts(out@);
                push_origin(&mut out, &rest);
                return CorsOrigins::List(out);
            },
        }
    }
}

/// Appends the trimmed `piece` when it is not empty.
fn push_origin(out: &mut Vec<String>, piece: &Vec<char>)
    ensures
        texts(final(out)@) == texts(old(out)@) + kept_origin(piece@),
{
    let (a, b) = trim_bounds(piece);
    let ghost before = out@;
    if a < b {
        let t = slice_chars(piece, a, b);
        out.push(string_from_chars(&t));
    }
    proof {
        assert(texts(out@) =~= texts(before) + kept_origin(piece@));
    }
}

/// The message for a request about an asset this service does not serve.
pub fn unsupported_asset_message(requested: &str, served: &str) -> (m: String)
    ensures
        m@ == unsupported_asset_text(requested@, served@),
{
    to_string("unsupported asset_id ").concat(requested).concat("; this MVP is scoped to ").concat(
        served,
    )
}

/// Accepts a request only for the asset this service serves.
pub fn check_asset_scope(asset_id: &str, served_asset_id: &str) -> (r: Result<(), String>)
    ensures
        asset_id@ == served_asset_id@ ==> r is Ok,
        asset_id@ != served_asset_id@ ==> (r matches Err(m) && m@ == unsupported_asset_text(
            asset_id@,
            served_asset_id@,
        )),
{
    if str_eq(asset_id, served_asset_id) {
        Ok(())
    } else {
        Err(unsupported_asset_message(asset_id, served_asset_id))
    }
}

/// The snapshot selector of a snapshot query: the requested as-of selector or
/// `trace:last`, provided the query names the served asset or no asset.
pub fn resolve_snapshot_query(query: &SnapshotQuery, served_asset_id: &str) -> (r: Result<
    String,
    String,
>)
    ensures
        ({
            let requested = match opt_text(query.asset_id) {
                Some(a) => a,
                None => served_asset_id@,
            };
            if requested == served_asset_id@ {
                r matches Ok(sel) && sel@ == match opt_text(query.as_of) {
                    Some(s) => s,
                    None => "trace:last"@,
                }
            } else {
                r matches Err(m) && m@ == unsupported_asset_text(requested, served_asset_id@)
            }
        }),
{
    let requested = match &query.asset_id {
        Some(a) => a.as_str(),
        None => served_asset_id,
    };
    if !str_eq(requested, served_asset_id) {
        return Err(unsupported_asset_message(requested, served_asset_id));
    }
    match &query.as_of {
        Some(s) => Ok(s.clone()),
        None => Ok(to_string("trace:last")),
    }
}

/// Where an explanation request takes its snapshot from.
#[derive(Debug, Clone)]
pub enum ExplainSource {
    /// The snapshot in the request, recorded under the given case when one is named.
    Snapshot { case_id: Option<String> },
    /// The observations stored with the named case.
    StoredCase { case_id: String },
}

/// Where an explanation request takes its snapshot from: the snapshot it
/// carries, else the stored case it names; a request with neither is refused.
pub fn explain_source(has_snapshot: bool, case_id: Option<String>) -> (r: Result<
    ExplainSource,
    String,
>)
    ensures
        has_snapshot ==> (r matches Ok(ExplainSource::Snapshot { case_id: c }) && opt_text(c)
            == opt_text(case_id)),
        !has_snapshot && case_id is Some ==> (r matches Ok(ExplainSource::StoredCase { case_id: c })
            && Some(c@) == opt_text(case_id)),
        !has_snapshot && case_id is None ==> (r matches Err(m) && m@
            == "request must include snapshot or case_id"@),
{
    if has_snapshot {
        Ok(ExplainSource::Snapshot { case_id })
    } else {
        match case_id {
            Some(id) => Ok(ExplainSource::StoredCase { case_id: id }),
            None => Err(to_string("request must include snapshot or case_id")),
        }
    }
}

/// Without a configured token every request is authorized; with one, a
/// request that carries neither header is refused.
pub proof fn lemma_token_required(expected: Seq<char>)
    ensures
        is_authorized(None, None, None),
        !is_authorized(None, None, Some(expected)),
{
}

/// With a token configured, a request is authorized exactly when it carries
/// `Bearer <token>` as its authorization or the token itself in the agent
/// token header; any other request is refused.
pub proof fn lemma_token_must_match(
    authorization: Option<Seq<char>>,
    agent_token: Option<Seq<char>>,
    expected: Seq<char>,
)
    ensures
        is_authorized(authorization, agent_token, Some(expected)) <==> (authorization == Some(
            "Bearer "@ + expected,
        ) || agent_token == Some(expected)),
{
    reveal_strlit("Bearer ");
    if let Some(v) = authorization {
        if occurs_at(v, "Bearer "@, 0) && v.skip(7) == expected {
            assert(v =~= "Bearer "@ + expected) by {
                assert(v.subrange(0, 7) == "Bearer "@);
            }
        }
        if v == "Bearer "@ + expected {
            assert(v.subrange(0, 7) =~= "Bearer "@);
            assert(v.skip(7) =~= expected);
        }
    }
}

} // verus!
