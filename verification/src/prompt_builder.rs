//! The prompt handed to the language-model runner, and its stable hash.
use crate::schemas::{risk_label, risk_word, RiskLevel};
use crate::text::{push_char, to_string};
use sha2::Digest;
use vstd::prelude::*;
use vstd::utf8::encode_utf8;

verus! {

/// What the prompt is built from: the deterministic results of one analysis.
#[derive(Debug, Clone)]
pub struct PromptInput {
    pub asset_id: String,
    pub risk_level: RiskLevel,
    pub recommended_action: String,
    pub lowest_cost_action: String,
}

/// The prompt text together with its hash.
#[derive(Debug, Clone)]
pub struct PromptPackage {
    pub prompt_hash: String,
    pub prompt_text: String,
}

/// The SHA-256 digest of a byte sequence.
pub uninterp spec fn sha256(data: Seq<u8>) -> Seq<u8>;

/// The lower-case hexadecimal digit for `d < 16`.
pub open spec fn hex_digit(d: nat) -> char {
    if d < 10 {
        ((48 + d) as u8) as char
    } else {
        ((87 + d) as u8) as char
    }
}

/// Two lower-case hexadecimal digits per byte, high nibble first.
pub open spec fn hex_lower(bytes: Seq<u8>) -> Seq<char>
    decreases bytes.len(),
{
    if bytes.len() == 0 {
        Seq::empty()
    } else {
        let b = bytes.last();
        hex_lower(bytes.drop_last()).push(hex_digit((b / 16) as nat)).push(
            hex_digit((b % 16) as nat),
        )
    }
}

/// The prompt text for a given analysis.
pub open spec fn prompt_text_of(
    asset_id: Seq<char>,
    level: RiskLevel,
    recommended_action: Seq<char>,
    lowest_cost_action: Seq<char>,
) -> Seq<char> {
    "Output exactly: "@ + asset_id + " has "@ + risk_word(level)
        + " suspected low-NPSH cavitation risk; "@ + recommended_action + " is recommended; "@
        + lowest_cost_action
        + " is lowest-cost; Human inspection must verify sensor and pump curve limitations; no autonomous plant commands."@
}

/// The hash recorded for a prompt whose UTF-8 bytes have the given digest.
pub open spec fn prompt_hash_of(digest: Seq<u8>) -> Seq<char> {
    "sha256:"@ + hex_lower(digest)
}

/// A lower-case hexadecimal digit.
pub open spec fn is_lower_hex(c: char) -> bool {
    ('0' <= c && c <= '9') || ('a' <= c && c <= 'f')
}

/// The hexadecimal text of `bytes` has two lower-case hexadecimal digits per byte.
pub proof fn lemma_hex_lower_shape(bytes: Seq<u8>)
    ensures
        hex_lower(bytes).len() == 2 * bytes.len(),
        forall|i: int| 0 <= i < hex_lower(bytes).len() ==> is_lower_hex(#[trigger] hex_lower(bytes)[i]),
    decreases bytes.len(),
{
    if bytes.len() > 0 {
        let b = bytes.last();
        lemma_hex_lower_shape(bytes.drop_last());
        lemma_hex_digit((b / 16) as nat);
        lemma_hex_digit((b % 16) as nat);
        let h = hex_lower(bytes);
        let h0 = hex_lower(bytes.drop_last());
        assert forall|i: int| 0 <= i < h.len() implies is_lower_hex(#[trigger] h[i]) by {
            if i < h0.len() {
                assert(h[i] == h0[i]);
            }
        }
    }
}

proof fn lemma_hex_digit(d: nat)
    requires
        d < 16,
    ensures
        is_lower_hex(hex_digit(d)),
{
    if d < 10 {
        assert(((48 + d) as u8) as int == 48 + d);
    } else {
        assert(((87 + d) as u8) as int == 87 + d);
    }
}

/// The SHA-256 digest of `data`.
///
/// Trusted: `sha2::Sha256::digest` computes the SHA-256 hash of its input, a
/// function of the input bytes alone; its output is 32 bytes long.
#[verifier::external_body]
fn sha256_digest(data: &[u8]) -> (digest: Vec<u8>)
    ensures
        digest@ == sha256(data@),
        digest@.len() == 32,
{
    sha2::Sha256::digest(data).to_vec()
}

/// The lower-case hexadecimal digit for a value below 16.
fn hex_digit_char(d: u8) -> (c: char)
    requires
        d < 16,
    ensures
        c == hex_digit(d as nat),
{
    if d < 10 {
        (d + 48) as char
    } else {
        (d + 87) as char
    }
}

/// Two lower-case hexadecimal digits per byte, high nibble first.
pub fn hex_lower_string(bytes: &[u8]) -> (out: String)
    ensures
        out@ == hex_lower(bytes@),
{
    let mut out = String::new();
    let mut i: usize = 0;
    while i < bytes.len()
        invariant
            i <= bytes.len(),
            out@ == hex_lower(bytes@.take(i as int)),
        decreases bytes.len() - i,
    {
        let b = bytes[i];
        push_char(&mut out, hex_digit_char(b / 16));
        push_char(&mut out, hex_digit_char(b % 16));
        proof {
            let t = bytes@.take(i + 1);
            assert(t.drop_last() =~= bytes@.take(i as int));
            assert(t.last() == b);
        }
        i = i + 1;
    }
    proof {
        assert(bytes@.take(bytes.len() as int) =~= bytes@);
    }
    out
}

/// The recorded hash for a prompt, given the SHA-256 digest of its bytes.
pub fn format_prompt_hash(digest: &[u8]) -> (out: String)
    ensures
        out@ == prompt_hash_of(digest@),
{
    let hex = hex_lower_string(digest);
    to_string("sha256:").concat(hex.as_str())
}

/// The lower-case hexadecimal SHA-256 digest of `bytes`.
pub fn sha256_hex(bytes: &[u8]) -> (out: String)
    ensures
        out@ == hex_lower(sha256(bytes@)),
{
    let digest = sha256_digest(bytes);
    hex_lower_string(digest.as_slice())
}

/// The prompt text for an analysis.
pub fn prompt_text(input: &PromptInput) -> (out: String)
    ensures
        out@ == prompt_text_of(
            input.asset_id@,
            input.risk_level,
            input.recommended_action@,
            input.lowest_cost_action@,
        ),
{
    let out = to_string("Output exactly: ").concat(input.asset_id.as_str()).concat(" has ").concat(
        risk_label(&input.risk_level),
    ).concat(" suspected low-NPSH cavitation risk; ").concat(
        input.recommended_action.as_str(),
    ).concat(" is recommended; ").concat(input.lowest_cost_action.as_str()).concat(
        " is lowest-cost; Human inspection must verify sensor and pump curve limitations; no autonomous plant commands.",
    );
    out
}

/// The prompt for an analysis, with the hash `sha256:` followed by the
/// lower-case hexadecimal SHA-256 digest of the prompt's UTF-8 bytes.
pub fn build_prompt(input: &PromptInput) -> (package: PromptPackage)
    ensures
        package.prompt_text@ == prompt_text_of(
            input.asset_id@,
            input.risk_level,
            input.recommended_action@,
            input.lowest_cost_action@,
        ),
        package.prompt_hash@ == prompt_hash_of(sha256(encode_utf8(package.prompt_text@))),
        package.prompt_hash@.len() == 71,
        forall|i: int| 7 <= i < 71 ==> is_lower_hex(#[trigger] package.prompt_hash@[i]),
{
    let text = prompt_text(input);
    let digest = sha256_digest(text.as_str().as_bytes());
    let hash = format_prompt_hash(digest.as_slice());
    proof {
        reveal_strlit("sha256:");
        lemma_hex_lower_shape(digest@);
        assert forall|i: int| 7 <= i < 71 implies is_lower_hex(#[trigger] hash@[i]) by {
            assert(hash@[i] == hex_lower(digest@)[i - 7]);
        }
    }
    PromptPackage { prompt_hash: hash, prompt_text: text }
}

} // verus!
