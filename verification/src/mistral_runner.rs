//! The decisions around the optional local language-model runner: whether it is
//! available, how its command line is formed, and how its printed output is
//! reduced to the generated text.
use crate::output_guard::texts;
use crate::text::{
    after_last, after_last_chars, before_first, before_first_chars, chars_of, contains,
    is_whitespace, lemma_after_last_absent, lemma_after_last_free, lemma_before_first_absent,
    lemma_before_first_free, lemma_contains_subrange, lemma_trim_shape,
    is_whitespace_char, replace_all, replace_chars, slice_chars, str_eq, string_from_chars,
    to_string, trim, trim_str,
};
use vstd::prelude::*;

verus! {

/// Whether the runner can be used, and why not when it cannot.
#[derive(Debug, Clone)]
pub struct RunnerAvailability {
    pub available: bool,
    pub reason: String,
}

/// The line the runner prints before the generated text.
pub open spec fn preamble_marker() -> Seq<char> {
    "Model loaded, running one-shot mode...\n"@
}

/// The line that starts the statistics the runner prints after the generated text.
pub open spec fn stats_marker() -> Seq<char> {
    "\nStats:"@
}

/// The generated text inside the runner's standard output: what follows the
/// last preamble line, up to the statistics block, without surrounding white space.
pub open spec fn cleaned_stdout(stdout: Seq<char>) -> Seq<char> {
    trim(before_first(after_last(stdout, preamble_marker()), stats_marker()))
}

/// The reason reported for each combination of runner conditions.
pub open spec fn availability_reason(
    enabled: bool,
    model_path_exists: bool,
    binary_found: bool,
) -> Seq<char> {
    if !enabled {
        "disabled"@
    } else if !model_path_exists {
        "model_path_missing"@
    } else if !binary_found {
        "binary_missing"@
    } else {
        "available"@
    }
}

/// One runner argument with its placeholders filled in: `{model_path}`,
/// `{model_dir}`, `{model_file}` and `{prompt}`, in that order, so that text
/// inserted by an earlier placeholder is searched by the later ones.
pub open spec fn expanded_arg(
    arg: Seq<char>,
    model_path: Seq<char>,
    model_dir: Seq<char>,
    model_file: Seq<char>,
    prompt: Seq<char>,
) -> Seq<char> {
    replace_all(
        replace_all(
            replace_all(replace_all(arg, "{model_path}"@, model_path), "{model_dir}"@, model_dir),
            "{model_file}"@,
            model_file,
        ),
        "{prompt}"@,
        prompt,
    )
}

/// The runner's arguments when none are configured.
pub open spec fn default_args() -> Seq<Seq<char>> {
    seq![
        "run"@,
        "-m"@,
        "{model_dir}"@,
        "--format"@,
        "gguf"@,
        "-f"@,
        "{model_file}"@,
        "--cpu"@,
        "-i"@,
        "{prompt}"@,
    ]
}

/// Whether the runner may be used: it must be enabled, its model file must
/// exist, and its binary must be found; the first condition that fails names
/// the reason.
pub fn runner_availability(
    enabled: bool,
    model_path_exists: bool,
    binary_found: bool,
) -> (r: RunnerAvailability)
    ensures
        r.available == (enabled && model_path_exists && binary_found),
        r.reason@ == availability_reason(enabled, model_path_exists, binary_found),
{
    if !enabled {
        RunnerAvailability { available: false, reason: to_string("disabled") }
    } else if !model_path_exists {
        RunnerAvailability { available: false, reason: to_string("model_path_missing") }
    } else if !binary_found {
        RunnerAvailability { available: false, reason: to_string("binary_missing") }
    } else {
        RunnerAvailability { available: true, reason: to_string("available") }
    }
}

/// The generated text inside the runner's standard output.
pub fn clean_stdout(stdout: &str) -> (out: String)
    ensures
        out@ == cleaned_stdout(stdout@),
{
    let s = chars_of(stdout);
    let preamble = chars_of("Model loaded, running one-shot mode...\n");
    let stats = chars_of("\nStats:");
    proof {
        reveal_strlit("Model loaded, running one-shot mode...\n");
    }
    let generated = after_last_chars(&s, &preamble);
    let head = before_first_chars(&generated, &stats);
    let head_string = string_from_chars(&head);
    to_string(trim_str(head_string.as_str()))
}

/// The cleaned output is settled: it holds neither the preamble line nor the
/// statistics marker, has no surrounding white space, and cleaning it again
/// changes nothing.
pub proof fn lemma_cleaned_stdout_settled(stdout: Seq<char>)
    ensures
        !contains(cleaned_stdout(stdout), preamble_marker()),
        !contains(cleaned_stdout(stdout), stats_marker()),
        trim(cleaned_stdout(stdout)) == cleaned_stdout(stdout),
        cleaned_stdout(cleaned_stdout(stdout)) == cleaned_stdout(stdout),
{
    reveal_strlit("Model loaded, running one-shot mode...\n");
    reveal_strlit("\nStats:");
    let p = preamble_marker();
    let q = stats_marker();
    let x = after_last(stdout, p);
    let y = before_first(x, q);
    let r = trim(y);
    lemma_after_last_free(stdout, p);
    lemma_before_first_free(x, q);
    if contains(y, p) {
        lemma_contains_subrange(x, 0, y.len() as int, p);
    }
    let (a, b) = lemma_trim_shape(y);
    if contains(r, p) {
        lemma_contains_subrange(y, a, b, p);
    }
    if contains(r, q) {
        lemma_contains_subrange(y, a, b, q);
    }
    lemma_after_last_absent(r, p);
    lemma_before_first_absent(r, q);
}

/// Fills in the placeholders of one runner argument.
pub fn expand_runner_arg(
    arg: &str,
    model_path: &str,
    model_dir: &str,
    model_file: &str,
    prompt: &str,
) -> (out: String)
    ensures
        out@ == expanded_arg(arg@, model_path@, model_dir@, model_file@, prompt@),
{
    let p1 = chars_of("{model_path}");
    let p2 = chars_of("{model_dir}");
    let p3 = chars_of("{model_file}");
    let p4 = chars_of("{prompt}");
    proof {
        reveal_strlit("{model_path}");
        reveal_strlit("{model_dir}");
        reveal_strlit("{model_file}");
        reveal_strlit("{prompt}");
    }
    let a0 = chars_of(arg);
    let a1 = replace_chars(&a0, &p1, &chars_of(model_path));
    let a2 = replace_chars(&a1, &p2, &chars_of(model_dir));
    let a3 = replace_chars(&a2, &p3, &chars_of(model_file));
    let a4 = replace_chars(&a3, &p4, &chars_of(prompt));
    string_from_chars(&a4)
}

/// Fills in the placeholders of every runner argument, keeping their order.
pub fn expand_runner_args(
    args: &Vec<String>,
    model_path: &str,
    model_dir: &str,
    model_file: &str,
    prompt: &str,
) -> (out: Vec<String>)
    ensures
        out@.len() == args@.len(),
        forall|i: int|
            0 <= i < args@.len() ==> #[trigger] out@[i]@ == expanded_arg(
                args@[i]@,
                model_path@,
                model_dir@,
                model_file@,
                prompt@,
            ),
{
    let mut out: Vec<String> = Vec::new();
    let mut i: usize = 0;
    while i < args.len()
        invariant
            i <= args.len(),
            out@.len() == i,
            forall|k: int|
                0 <= k < i ==> #[trigger] out@[k]@ == expanded_arg(
                    args@[k]@,
                    model_path@,
                    model_dir@,
                    model_file@,
                    prompt@,
                ),
        decreases args.len() - i,
    {
        out.push(expand_runner_arg(args[i].as_str(), model_path, model_dir, model_file, prompt));
        i = i + 1;
    }
    out
}

/// The runner's arguments when none are configured.
pub fn default_runner_args() -> (out: Vec<String>)
    ensures
        texts(out@) == default_args(),
{
    let out = vec![
        to_string("run"),
        to_string("-m"),
        to_string("{model_dir}"),
        to_string("--format"),
        to_string("gguf"),
        to_string("-f"),
        to_string("{model_file}"),
        to_string("--cpu"),
        to_string("-i"),
        to_string("{prompt}"),
    ];
    proof {
        assert(texts(out@) =~= default_args());
    }
    out
}

/// The values of an environment switch that turn it on.
pub open spec fn is_enabling_value(v: Seq<char>) -> bool {
    v == "1"@ || v == "true"@ || v == "TRUE"@ || v == "yes"@ || v == "YES"@
}

/// Whether an environment switch is on: it is set to `1`, `true`, `TRUE`,
/// `yes` or `YES`.
pub fn env_flag_enabled(value: Option<&str>) -> (r: bool)
    ensures
        r == (value matches Some(v) && is_enabling_value(v@)),
{
    match value {
        Some(v) => str_eq(v, "1") || str_eq(v, "true") || str_eq(v, "TRUE") || str_eq(v, "yes")
            || str_eq(v, "YES"),
        None => false,
    }
}

/// The first white-space position of `s` at or after `i`.
pub open spec fn first_whitespace_from(s: Seq<char>, i: nat) -> Option<nat>
    decreases s.len() - i,
{
    if i >= s.len() {
        None
    } else if is_whitespace(s[i as int]) {
        Some(i)
    } else {
        first_whitespace_from(s, i + 1)
    }
}

/// A piece kept when it is not empty.
pub open spec fn kept_word(piece: Seq<char>) -> Seq<Seq<char>> {
    if piece.len() > 0 {
        seq![piece]
    } else {
        Seq::empty()
    }
}

/// The pieces of `s` between white-space characters, without empty pieces.
pub open spec fn whitespace_words(s: Seq<char>) -> Seq<Seq<char>>
    decreases s.len(),
{
    match first_whitespace_from(s, 0) {
        Some(i) => if i < s.len() {
            kept_word(s.take(i as int)) + whitespace_words(s.skip((i + 1) as int))
        } else {
            kept_word(s)
        },
        None => kept_word(s),
    }
}

/// The white-space separated words of `value`.
pub fn split_whitespace_words(value: &str) -> (out: Vec<String>)
    ensures
        texts(out@) == whitespace_words(value@),
{
    let mut rest = chars_of(value);
    let mut out: Vec<String> = Vec::new();
    proof {
        assert(texts(out@) + whitespace_words(rest@) =~= whitespace_words(value@));
    }
    loop
        invariant
            texts(out@) + whitespace_words(rest@) == whitespace_words(value@),
        decreases rest.len(),
    {
        let mut i: usize = 0;
        while i < rest.len() && !is_whitespace_char(rest[i])
            invariant
                i <= rest.len(),
                first_whitespace_from(rest@, 0) == first_whitespace_from(rest@, i as nat),
            decreases rest.len() - i,
        {
            i = i + 1;
        }
        let ghost old_out = texts(out@);
        let ghost old_rest = rest@;
        if i < rest.len() {
            let piece = slice_chars(&rest, 0, i);
            let tail = slice_chars(&rest, i + 1, rest.len());
            if piece.len() > 0 {
                out.push(string_from_chars(&piece));
            }
            proof {
                assert(piece@ =~= old_rest.take(i as int));
                assert(tail@ =~= old_rest.skip(i + 1));
                assert(texts(out@) =~= old_out + kept_word(piece@));
                assert(texts(out@) + whitespace_words(tail@) =~= old_out + (kept_word(piece@)
                    + whitespace_words(tail@)));
            }
            rest = tail;
        } else {
            if rest.len() > 0 {
                out.push(string_from_chars(&rest));
            }
            proof {
                assert(texts(out@) =~= old_out + kept_word(old_rest));
            }
            return out;
        }
    }
}

/// The runner's arguments: the white-space separated words of the configured
/// argument line when there is one, the default arguments otherwise.
pub fn runner_args(configured: Option<&str>) -> (out: Vec<String>)
    ensures
        match configured {
            Some(v) => texts(out@) == whitespace_words(v@),
            None => texts(out@) == default_args(),
        },
{
    match configured {
        Some(v) => split_whitespace_words(v),
        None => default_runner_args(),
    }
}

/// The runner is available only when it is enabled, its model file exists and
/// its binary is found; otherwise the reason names the first missing condition:
/// `disabled`, `model_path_missing`, then `binary_missing`.
pub proof fn lemma_availability_reasons(enabled: bool, model_path_exists: bool, binary_found: bool)
    ensures
        !enabled ==> availability_reason(enabled, model_path_exists, binary_found) == "disabled"@,
        enabled && !model_path_exists ==> availability_reason(
            enabled,
            model_path_exists,
            binary_found,
        ) == "model_path_missing"@,
        enabled && model_path_exists && !binary_found ==> availability_reason(
            enabled,
            model_path_exists,
            binary_found,
        ) == "binary_missing"@,
        enabled && model_path_exists && binary_found ==> availability_reason(
            enabled,
            model_path_exists,
            binary_found,
        ) == "available"@,
{
}

/// An environment switch is on exactly for `1`, `true`, `TRUE`, `yes` and `YES`.
pub proof fn lemma_enabling_values(v: Seq<char>)
    ensures
        is_enabling_value(v) <==> (v == "1"@ || v == "true"@ || v == "TRUE"@ || v == "yes"@ || v
            == "YES"@),
{
}

} // verus!
