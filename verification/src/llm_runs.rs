//! Identifiers of stored analysis cases and language-model runs.
use crate::text::{
    ascii_lower, ascii_lower_char, chars_of, is_ascii_alphanumeric, is_ascii_alphanumeric_char,
    occurs_at, occurs_at_pos, push_char, signed_decimal, signed_decimal_string, slice_to_string,
    to_string,
};
use vstd::prelude::*;

verus! {

/// Every ASCII letter or digit lower-cased, every other character replaced by `_`.
pub open spec fn sanitized(s: Seq<char>) -> Seq<char> {
    Seq::new(
        s.len(),
        |i: int|
            if is_ascii_alphanumeric(s[i]) {
                ascii_lower(s[i])
            } else {
                '_'
            },
    )
}

/// The first sixteen characters of a prompt hash, without its `sha256:` prefix.
pub open spec fn hash_fragment(prompt_hash: Seq<char>) -> Seq<char> {
    let h = if occurs_at(prompt_hash, "sha256:"@, 0) {
        prompt_hash.skip(7)
    } else {
        prompt_hash
    };
    if h.len() <= 16 {
        h
    } else {
        h.take(16)
    }
}

/// The identifier of a language-model run.
pub open spec fn llm_run_id_of(case_id: Option<Seq<char>>, prompt_hash: Seq<char>, sequence: int) -> Seq<
    char,
> {
    let case_part = match case_id {
        Some(c) => c,
        None => "no_case"@,
    };
    sanitized(
        "llm_"@ + case_part + "_"@ + hash_fragment(prompt_hash) + "_"@ + signed_decimal(sequence),
    )
}

/// Lower-cases ASCII letters and digits and replaces every other character by `_`.
pub fn sanitize(input: &str) -> (out: String)
    ensures
        out@ == sanitized(input@),
{
    let cs = chars_of(input);
    let mut out = String::new();
    let mut i: usize = 0;
    while i < cs.len()
        invariant
            i <= cs.len(),
            out@.len() == i,
            forall|k: int|
                0 <= k < i ==> out@[k] == (if is_ascii_alphanumeric(cs@[k]) {
                    ascii_lower(cs@[k])
                } else {
                    '_'
                }),
        decreases cs.len() - i,
    {
        let c = cs[i];
        if is_ascii_alphanumeric_char(c) {
            push_char(&mut out, ascii_lower_char(c));
        } else {
            push_char(&mut out, '_');
        }
        i = i + 1;
    }
    proof {
        assert(out@ =~= sanitized(input@));
    }
    out
}

/// The identifier of a language-model run: `llm_<case>_<hash>_<sequence>`,
/// sanitized, where `<hash>` is the first sixteen characters of the prompt hash
/// after its `sha256:` prefix and `<case>` is `no_case` when there is no case.
pub fn llm_run_id(case_id: Option<&str>, prompt_hash: &str, sequence: i64) -> (id: String)
    ensures
        id@ == llm_run_id_of(
            match case_id {
                Some(c) => Some(c@),
                None => None,
            },
            prompt_hash@,
            sequence as int,
        ),
{
    let h = chars_of(prompt_hash);
    let prefix = chars_of("sha256:");
    proof {
        reveal_strlit("sha256:");
    }
    let start: usize = if occurs_at_pos(&h, &prefix, 0) {
        7
    } else {
        0
    };
    let end: usize = if h.len() - start <= 16 {
        h.len()
    } else {
        start + 16
    };
    let fragment = slice_to_string(&h, start, end);
    proof {
        let g = if occurs_at(h@, "sha256:"@, 0) {
            h@.skip(7)
        } else {
            h@
        };
        assert(g =~= h@.subrange(start as int, h@.len() as int));
        if g.len() > 16 {
            assert(g.take(16) =~= h@.subrange(start as int, end as int));
        } else {
            assert(g =~= h@.subrange(start as int, end as int));
        }
    }
    let case_part = match case_id {
        Some(c) => c,
        None => "no_case",
    };
    let seq_text = signed_decimal_string(sequence);
    let raw = to_string("llm_").concat(case_part).concat("_").concat(fragment.as_str()).concat(
        "_",
    ).concat(seq_text.as_str());
    sanitize(raw.as_str())
}

/// The identifier of the stored case for a snapshot: `<asset>_<as-of time>`, sanitized.
pub fn case_id_for_snapshot(asset_id: &str, as_of_timestamp: &str) -> (id: String)
    ensures
        id@ == sanitized(asset_id@ + "_"@ + as_of_timestamp@),
{
    let raw = to_string(asset_id).concat("_").concat(as_of_timestamp);
    sanitize(raw.as_str())
}

/// A sanitized identifier holds only lower-case ASCII letters, digits and `_`,
/// and has as many characters as the text it came from.
pub proof fn lemma_sanitized_is_identifier(s: Seq<char>)
    ensures
        sanitized(s).len() == s.len(),
        forall|i: int|
            0 <= i < s.len() ==> {
                let c = #[trigger] sanitized(s)[i];
                ('a' <= c && c <= 'z') || ('0' <= c && c <= '9') || c == '_'
            },
{
}

} // verus!
