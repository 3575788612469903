use vstd::prelude::*;
use crate::text::{concat, join, join_strings, spec_trim, trim, text_eq, push_char};

verus! {

#[verifier::external_type_specification]
#[verifier::external_body]
pub struct ExPathBuf(std::path::PathBuf);

/// How a transcript is written out.
#[derive(Clone, Copy, Debug, PartialEq, Eq, Structural)]
pub enum OutputFormat {
    Pretty,
    Text,
    Json,
}

/// The speech-to-text services that a batch transcription can use.
#[derive(Clone, Copy, Debug, PartialEq, Eq, Structural)]
pub enum Provider {
    Argmax,
    Deepgram,
    Soniox,
    Assemblyai,
    Fireworks,
    Openai,
    Gladia,
    Elevenlabs,
    Dashscope,
    Mistral,
    Am,
    Cactus,
}

/// The arguments of a batch transcription.
pub struct Args {
    pub input: std::path::PathBuf,
    pub provider: Provider,
    pub base_url: Option<String>,
    pub api_key: String,
    pub model: Option<String>,
    pub language: String,
    pub keywords: Vec<String>,
    pub output: Option<std::path::PathBuf>,
    pub format: OutputFormat,
    pub quiet: bool,
}

/// Why a command of the command-line tool failed.
#[derive(Debug)]
pub enum CliError {
    RequiredArgument { name: String },
    InvalidArgument { name: String, value: String, reason: String },
    NotFound { what: String, hint: Option<String> },
    OperationFailed { operation: String, message: String },
    ExternalActionFailed { action: String, message: String },
}

pub type CliResult<T> = Result<T, CliError>;

/// The name under which a missing base URL is reported.
pub open spec fn base_url_argument() -> Seq<char> {
    "--base-url (or CHAR_BASE_URL)"@
}

impl CliError {
    pub fn required_argument(name: &str) -> (e: CliError)
        ensures
            e matches CliError::RequiredArgument { name: n } && n@ == name@,
    {
        CliError::RequiredArgument { name: String::from_str(name) }
    }

    pub fn invalid_argument(name: &str, value: String, reason: &str) -> (e: CliError)
        ensures
            e matches CliError::InvalidArgument { name: n, value: v, reason: r }
                && n@ == name@ && v@ == value@ && r@ == reason@,
    {
        CliError::InvalidArgument {
            name: String::from_str(name),
            value,
            reason: String::from_str(reason),
        }
    }

    pub fn not_found(what: String, hint: Option<String>) -> (e: CliError)
        ensures
            e == (CliError::NotFound { what, hint }),
    {
        CliError::NotFound { what, hint }
    }

    pub fn operation_failed(operation: &str, message: String) -> (e: CliError)
        ensures
            e matches CliError::OperationFailed { operation: o, message: m }
                && o@ == operation@ && m@ == message@,
    {
        CliError::OperationFailed { operation: String::from_str(operation), message }
    }

    pub fn external_action_failed(action: &str, message: String) -> (e: CliError)
        ensures
            e matches CliError::ExternalActionFailed { action: a, message: m }
                && a@ == action@ && m@ == message@,
    {
        CliError::ExternalActionFailed { action: String::from_str(action), message }
    }
}

/// The base URL, which the command needs.
pub fn required_base_url(base_url: Option<String>) -> (r: CliResult<String>)
    ensures
        base_url is Some <==> r is Ok,
        r matches Ok(u) ==> base_url == Some(u),
        r matches Err(e) ==> (e matches CliError::RequiredArgument { name } && name@
            == base_url_argument()),
{
    match base_url {
        Some(u) => Ok(u),
        None => Err(CliError::required_argument("--base-url (or CHAR_BASE_URL)")),
    }
}

/// The base URL that a batch run uses: the local transcription server needs none,
/// every other provider needs one.
pub fn batch_base_url(provider: Provider, base_url: Option<String>) -> (r: CliResult<
    Option<String>,
>)
    ensures
        provider == Provider::Cactus ==> r == Ok::<Option<String>, CliError>(base_url),
        provider != Provider::Cactus ==> (r is Ok <==> base_url is Some) && (r matches Ok(u)
            ==> u == base_url) && (r matches Err(e) ==> (e matches CliError::RequiredArgument {
            name,
        } && name@ == base_url_argument())),
{
    if provider == Provider::Cactus {
        Ok(base_url)
    } else {
        match required_base_url(base_url) {
            Ok(u) => Ok(Some(u)),
            Err(e) => Err(e),
        }
    }
}

/// The model a batch run asks for: none when the option was left empty.
pub fn batch_model(model: String) -> (r: Option<String>)
    ensures
        model@.len() == 0 ==> r is None,
        model@.len() > 0 ==> r == Some(model),
{
    if model.as_str().is_empty() {
        None
    } else {
        Some(model)
    }
}

/// The output format of a batch run: `--json` overrides `--format`.
pub fn batch_format(json: bool, format: OutputFormat) -> (r: OutputFormat)
    ensures
        r == if json { OutputFormat::Json } else { format },
{
    if json {
        OutputFormat::Json
    } else {
        format
    }
}

/// What checking a base URL gives, from the outcome of parsing it as a URL: its scheme,
/// or the parser's error message.
pub open spec fn base_url_verdict(value: Seq<char>, parsed: Result<Seq<char>, Seq<char>>) -> Result<
    Seq<char>,
    Seq<char>,
> {
    match parsed {
        Err(e) => Err("invalid --base-url '"@ + value + "': "@ + e),
        Ok(scheme) => if scheme == "http"@ || scheme == "https"@ {
            Ok(value)
        } else {
            Err("invalid --base-url '"@ + value + "': scheme must be http or https"@)
        },
    }
}

/// A base URL is accepted exactly when it parses with the scheme `http` or `https`, and
/// then unchanged; any other scheme, or a parse error, rejects it with a message that
/// names it.
pub proof fn law_base_url_needs_http_scheme(value: Seq<char>, parsed: Result<Seq<char>, Seq<char>>)
    ensures
        base_url_verdict(value, parsed) is Ok <==> (parsed == Ok::<Seq<char>, Seq<char>>("http"@) || parsed
            == Ok::<Seq<char>, Seq<char>>("https"@)),
        base_url_verdict(value, parsed) is Ok ==> base_url_verdict(value, parsed) == Ok::<Seq<char>, Seq<char>>(
            value,
        ),
        base_url_verdict(value, parsed) is Err ==> ("invalid --base-url '"@ + value + "'"@).is_prefix_of(
            base_url_verdict(value, parsed)->Err_0,
        ),
{
    reveal_strlit("': ");
    reveal_strlit("'");
    reveal_strlit("': scheme must be http or https");
    let head = "invalid --base-url '"@ + value + "'"@;
    match parsed {
        Err(e) => {
            let m = "invalid --base-url '"@ + value + "': "@ + e;
            assert(m.subrange(0, head.len() as int) =~= head);
        },
        Ok(scheme) => {
            if !(scheme == "http"@ || scheme == "https"@) {
                let m = "invalid --base-url '"@ + value + "': scheme must be http or https"@;
                assert(m.subrange(0, head.len() as int) =~= head);
            }
        },
    }
}

pub open spec fn view_result(r: Result<String, String>) -> Result<Seq<char>, Seq<char>> {
    match r {
        Ok(s) => Ok(s@),
        Err(e) => Err(e@),
    }
}

/// What `url::Url::parse` makes of `input`: the scheme of the URL, or the message of the
/// parse error.
pub uninterp spec fn url_parse_outcome(input: Seq<char>) -> Result<Seq<char>, Seq<char>>;

/// Calls `url::Url::parse` on `input`, keeping the scheme of the URL (`Url::scheme`) or
/// the message of the error (its `Display`).
#[verifier::external_body]
fn url_parse_scheme(input: &str) -> (r: Result<String, String>)
    ensures
        view_result(r) == url_parse_outcome(input@),
{
    match url::Url::parse(input) {
        Ok(u) => Ok(u.scheme().to_string()),
        Err(e) => Err(e.to_string()),
    }
}

/// Accepts `value` as a base URL when its parsed scheme is `http` or `https`.
pub fn check_base_url(value: &str, parsed: Result<String, String>) -> (r: Result<String, String>)
    ensures
        view_result(r) == base_url_verdict(value@, view_result(parsed)),
{
    match parsed {
        Err(e) => {
            let mut m = concat("invalid --base-url '", value);
            m.append("': ");
            m.append(e.as_str());
            Err(m)
        },
        Ok(scheme) => {
            if text_eq(scheme.as_str(), "http") || text_eq(scheme.as_str(), "https") {
                Ok(String::from_str(value))
            } else {
                let mut m = concat("invalid --base-url '", value);
                m.append("': scheme must be http or https");
                Err(m)
            }
        },
    }
}

/// Parses the `--base-url` option: it must be a URL with the `http` or `https` scheme.
pub fn parse_base_url(value: &str) -> (r: Result<String, String>)
    ensures
        view_result(r) == base_url_verdict(value@, url_parse_outcome(value@)),
{
    let parsed = url_parse_scheme(value);
    check_base_url(value, parsed)
}

/// Checks the input path from what the file system says of it.
pub fn validate_input_path(display: &str, exists: bool, is_file: bool) -> (r: CliResult<()>)
    ensures
        r is Ok <==> exists && is_file,
        !exists ==> (r matches Err(CliError::NotFound { what, hint }) && hint is None && what@
            == "input file '"@ + display@ + "'"@),
        exists && !is_file ==> (r matches Err(CliError::InvalidArgument { name, value, reason })
            && name@ == "--input"@ && value@ == display@ && reason@ == "expected a file path"@),
{
    if !exists {
        let mut what = concat("input file '", display);
        what.append("'");
        return Err(CliError::not_found(what, None));
    }
    if !is_file {
        return Err(CliError::invalid_argument("--input", String::from_str(display), "expected a file path"));
    }
    Ok(())
}

/// The trimmed texts that are not empty, with their positions.
pub open spec fn kept_texts(texts: Seq<Option<Seq<char>>>) -> Seq<(int, Seq<char>)>
    decreases texts.len(),
{
    if texts.len() == 0 {
        Seq::empty()
    } else {
        let rest = kept_texts(texts.drop_last());
        match texts.last() {
            Some(t) => if spec_trim(t).len() > 0 {
                rest.push((texts.len() - 1, spec_trim(t)))
            } else {
                rest
            },
            None => rest,
        }
    }
}

pub open spec fn view_texts(texts: Seq<Option<String>>) -> Seq<Option<Seq<char>>> {
    texts.map_values(|t: Option<String>| match t {
        Some(s) => Some(s@),
        None => None,
    })
}

/// The texts of kept entries.
pub open spec fn kept_text_views(kept: Seq<(int, Seq<char>)>) -> Seq<Seq<char>> {
    kept.map_values(|p: (int, Seq<char>)| p.1)
}

/// The positions of kept entries.
pub open spec fn kept_positions(kept: Seq<(int, Seq<char>)>) -> Seq<int> {
    kept.map_values(|p: (int, Seq<char>)| p.0)
}

/// The kept texts, trimmed, and the positions they came from.
fn keep_trimmed_nonempty(texts: &Vec<Option<String>>) -> (r: (Vec<String>, Vec<usize>))
    ensures
        r.0@.map_values(|p: String| p@) == kept_text_views(kept_texts(view_texts(texts@))),
        r.1@.map_values(|p: usize| p as int) == kept_positions(kept_texts(view_texts(texts@))),
{
    let ghost v = view_texts(texts@);
    let mut parts: Vec<String> = Vec::new();
    let mut positions: Vec<usize> = Vec::new();
    let mut i: usize = 0;
    proof {
        assert(v.take(0) =~= Seq::<Option<Seq<char>>>::empty());
        assert(parts@.map_values(|p: String| p@) =~= kept_text_views(kept_texts(v.take(0))));
        assert(positions@.map_values(|p: usize| p as int) =~= kept_positions(kept_texts(v.take(0))));
    }
    while i < texts.len()
        invariant
            i <= texts@.len(),
            v == view_texts(texts@),
            parts@.map_values(|p: String| p@) == kept_text_views(kept_texts(v.take(i as int))),
            positions@.map_values(|p: usize| p as int) == kept_positions(kept_texts(v.take(i as int))),
        decreases texts@.len() - i,
    {
        proof {
            assert(v.take(i + 1).drop_last() =~= v.take(i as int));
            assert(v.take(i + 1).last() == v[i as int]);
        }
        let ghost before = kept_texts(v.take(i as int));
        let ghost old_parts = parts@;
        let ghost old_positions = positions@;
        match &texts[i] {
            Some(t) => {
                let trimmed = trim(t.as_str());
                assert(v[i as int] == Some(t@));
                if !trimmed.as_str().is_empty() {
                    parts.push(trimmed);
                    positions.push(i);
                    proof {
                        let after = before.push((i as int, spec_trim(t@)));
                        assert(kept_texts(v.take(i + 1)) == after);
                        assert(parts@.map_values(|p: String| p@) =~= old_parts.map_values(|p: String| p@).push(spec_trim(t@)));
                        assert(kept_text_views(after) =~= kept_text_views(before).push(spec_trim(t@)));
                        assert(positions@.map_values(|p: usize| p as int) =~= old_positions.map_values(|p: usize| p as int).push(i as int));
                        assert(kept_positions(after) =~= kept_positions(before).push(i as int));
                    }
                } else {
                    assert(kept_texts(v.take(i + 1)) == before);
                }
            },
            None => {
                assert(v[i as int] == None::<Seq<char>>);
                assert(kept_texts(v.take(i + 1)) == before);
            },
        }
        i = i + 1;
    }
    proof {
        assert(v.take(texts@.len() as int) =~= v);
    }
    (parts, positions)
}

/// The transcript of a batch response: the trimmed transcript of each channel's first
/// alternative (`None` where a channel has none), the empty ones left out, one per line.
pub fn extract_transcript(first_alternatives: &Vec<Option<String>>) -> (r: String)
    ensures
        r@ == join(kept_text_views(kept_texts(view_texts(first_alternatives@))), "\n"@),
{
    let (parts, _positions) = keep_trimmed_nonempty(first_alternatives);
    join_strings(&parts, "\n")
}

/// The transcript gathered from streamed segments, and which segments it took.
pub struct StreamTranscript {
    pub transcript: String,
    pub segments: Vec<usize>,
}

/// Gathers the transcript of streamed segments: the trimmed transcript of each segment's
/// first alternative (`None` where a segment carries none), the empty ones left out,
/// joined by spaces. `None` when no segment has any text.
pub fn stream_transcript(first_alternatives: &Vec<Option<String>>) -> (r: Option<StreamTranscript>)
    ensures
        ({
            let kept = kept_texts(view_texts(first_alternatives@));
            &&& (r is None <==> kept.len() == 0)
            &&& r matches Some(st) ==> {
                &&& st.transcript@ == join(kept_text_views(kept), " "@)
                &&& st.segments@.map_values(|p: usize| p as int) == kept_positions(kept)
            }
        }),
{
    let (parts, positions) = keep_trimmed_nonempty(first_alternatives);
    proof {
        let kept = kept_texts(view_texts(first_alternatives@));
        assert(parts@.map_values(|p: String| p@).len() == parts@.len());
        assert(kept_text_views(kept).len() == kept.len());
    }
    if parts.len() == 0 {
        return None;
    }
    let transcript = join_strings(&parts, " ");
    Some(StreamTranscript { transcript, segments: positions })
}

/// The message of a failed batch run: the failure that the run reported (its code and
/// message), else the error the run ended with.
pub fn batch_failure_message(failure: Option<(String, String)>, error: String) -> (r: String)
    ensures
        r@ == match failure {
            Some((code, message)) => code@ + ": "@ + message@,
            None => error@,
        },
{
    match failure {
        Some((code, message)) => {
            let mut r = concat(code.as_str(), ": ");
            r.append(message.as_str());
            r
        },
        None => error,
    }
}

/// The response of a batch run: the final response when one came, else the one gathered
/// from streamed segments; an error when there is neither.
pub fn batch_final_response<R>(response: Option<R>, from_streams: Option<R>) -> (r: CliResult<R>)
    ensures
        response is Some ==> r == Ok::<R, CliError>(response.unwrap()),
        response is None && from_streams is Some ==> r == Ok::<R, CliError>(from_streams.unwrap()),
        response is None && from_streams is None ==> (r matches Err(CliError::OperationFailed {
            operation,
            message,
        }) && operation@ == "batch transcription"@ && message@
            == "completed without a final response"@),
{
    match response {
        Some(r) => Ok(r),
        None => match from_streams {
            Some(r) => Ok(r),
            None => Err(CliError::operation_failed(
                "batch transcription",
                String::from_str("completed without a final response"),
            )),
        },
    }
}

/// Where the segments of a pretty transcript begin and end, as ranges `[start, end)` of
/// word positions: the first word opens a segment, and so does every word flagged in
/// `starts_segment` (one that follows a pause).
pub open spec fn segments_of(starts_segment: Seq<bool>) -> Seq<(int, int)>
    decreases starts_segment.len(),
{
    let n = starts_segment.len() as int;
    if n == 0 {
        Seq::empty()
    } else {
        let prev = segments_of(starts_segment.drop_last());
        if n == 1 || starts_segment[n - 1] {
            prev.push((n - 1, n))
        } else {
            prev.update(prev.len() - 1, (prev.last().0, n))
        }
    }
}

/// The segments cover the words: with any word there is a segment, the last one ends at the
/// last word, and every segment is a nonempty range of word positions.
pub proof fn lemma_segments_shape(f: Seq<bool>)
    ensures
        f.len() > 0 ==> segments_of(f).len() > 0 && segments_of(f).last().1 == f.len(),
        forall|k: int| 0 <= k < segments_of(f).len() ==> 0 <= #[trigger] segments_of(f)[k].0 < segments_of(f)[k].1 <= f.len(),
    decreases f.len(),
{
    if f.len() > 0 {
        let n = f.len() as int;
        let prev = segments_of(f.drop_last());
        lemma_segments_shape(f.drop_last());
        if n == 1 || f[n - 1] {
            assert forall|k: int| 0 <= k < segments_of(f).len() implies 0 <= #[trigger] segments_of(f)[k].0
                < segments_of(f)[k].1 <= f.len() by {
                if k < prev.len() {
                    assert(segments_of(f)[k] == prev[k]);
                }
            }
        } else {
            assert forall|k: int| 0 <= k < segments_of(f).len() implies 0 <= #[trigger] segments_of(f)[k].0
                < segments_of(f)[k].1 <= f.len() by {
                if k < prev.len() - 1 {
                    assert(segments_of(f)[k] == prev[k]);
                }
            }
        }
    }
}

/// Segments break exactly at the flagged words: the first segment starts at the first word,
/// each other segment starts where the one before it ends and at a flagged word, and every
/// flagged word after the first starts a segment of its own.
pub proof fn law_segments_break_at_flagged_words(f: Seq<bool>)
    requires
        f.len() > 0,
    ensures
        segments_of(f)[0].0 == 0,
        forall|k: int| 0 < k < segments_of(f).len() ==> #[trigger] segments_of(f)[k].0 == segments_of(f)[k - 1].1,
        forall|k: int| 0 < k < segments_of(f).len() ==> f[#[trigger] segments_of(f)[k].0],
        forall|i: int|
            0 < i < f.len() && #[trigger] f[i] ==> exists|k: int| 0 <= k < segments_of(f).len() && segments_of(f)[k].0 == i,
    decreases f.len(),
{
    let n = f.len() as int;
    let segs = segments_of(f);
    lemma_segments_shape(f);
    if n == 1 {
        assert(segs.len() == 1);
    } else {
        let g = f.drop_last();
        let prev = segments_of(g);
        law_segments_break_at_flagged_words(g);
        lemma_segments_shape(g);
        if f[n - 1] {
            assert(segs == prev.push((n - 1, n)));
            assert forall|k: int| 0 < k < segs.len() implies #[trigger] segs[k].0 == segs[k - 1].1 by {
                if k < prev.len() {
                    assert(segs[k] == prev[k] && segs[k - 1] == prev[k - 1]);
                } else {
                    assert(segs[k - 1] == prev.last());
                }
            }
            assert forall|k: int| 0 < k < segs.len() implies f[#[trigger] segs[k].0] by {
                if k < prev.len() {
                    assert(segs[k] == prev[k]);
                    assert(g[prev[k].0] == f[prev[k].0]);
                }
            }
            assert forall|i: int| 0 < i < n && #[trigger] f[i] implies exists|k: int|
                0 <= k < segs.len() && segs[k].0 == i by {
                if i < n - 1 {
                    assert(g[i] == f[i]);
                    let k = choose|k: int| 0 <= k < prev.len() && prev[k].0 == i;
                    assert(segs[k] == prev[k]);
                } else {
                    assert(segs[prev.len() as int].0 == i);
                }
            }
        } else {
            let last = prev.len() - 1;
            assert(segs == prev.update(last, (prev.last().0, n)));
            assert forall|k: int| 0 <= k < segs.len() implies #[trigger] segs[k].0 == prev[k].0 by {}
            assert forall|k: int| 0 < k < segs.len() implies #[trigger] segs[k].0 == segs[k - 1].1 by {
                assert(segs[k - 1] == prev[k - 1]);
            }
            assert forall|k: int| 0 < k < segs.len() implies f[#[trigger] segs[k].0] by {
                assert(segs[k].0 == prev[k].0);
                assert(g[prev[k].0] == f[prev[k].0]);
            }
            assert forall|i: int| 0 < i < n && #[trigger] f[i] implies exists|k: int|
                0 <= k < segs.len() && segs[k].0 == i by {
                assert(i < n - 1);
                assert(g[i] == f[i]);
                let k = choose|k: int| 0 <= k < prev.len() && prev[k].0 == i;
                assert(segs[k].0 == prev[k].0);
            }
            assert(segs[0].0 == prev[0].0);
        }
    }
}

pub open spec fn range_views(r: Seq<(usize, usize)>) -> Seq<(int, int)> {
    r.map_values(|p: (usize, usize)| (p.0 as int, p.1 as int))
}

/// Groups words into the segments of a pretty transcript (see `segments_of`).
pub fn group_segments(starts_segment: &Vec<bool>) -> (r: Vec<(usize, usize)>)
    ensures
        range_views(r@) == segments_of(starts_segment@),
        forall|k: int| 0 <= k < r@.len() ==> #[trigger] r@[k].0 < r@[k].1 <= starts_segment@.len(),
        starts_segment@.len() > 0 ==> r@.len() > 0 && r@.last().1 == starts_segment@.len(),
{
    let mut out: Vec<(usize, usize)> = Vec::new();
    let mut i: usize = 0;
    while i < starts_segment.len()
        invariant
            i <= starts_segment@.len(),
            range_views(out@) == segments_of(starts_segment@.take(i as int)),
        decreases starts_segment@.len() - i,
    {
        proof {
            assert(starts_segment@.take(i + 1).drop_last() =~= starts_segment@.take(i as int));
            lemma_segments_shape(starts_segment@.take(i as int));
        }
        let ghost before = out@;
        if i == 0 || starts_segment[i] {
            out.push((i, i + 1));
            proof {
                assert(range_views(out@) =~= range_views(before).push((i as int, i + 1)));
            }
        } else {
            let last: usize = out.len() - 1;
            let start: usize = out[last].0;
            out.set(last, (start, i + 1));
            proof {
                assert(range_views(out@) =~= range_views(before).update(last as int, (start as int, i + 1)));
            }
        }
        i = i + 1;
    }
    proof {
        assert(starts_segment@.take(starts_segment@.len() as int) =~= starts_segment@);
        lemma_segments_shape(starts_segment@);
        assert forall|k: int| 0 <= k < out@.len() implies #[trigger] out@[k].0 < out@[k].1
            <= starts_segment@.len() by {
            assert(range_views(out@)[k] == segments_of(starts_segment@)[k]);
        }
        if starts_segment@.len() > 0 {
            assert(range_views(out@)[out@.len() - 1] == segments_of(starts_segment@).last());
        }
    }
    out
}

/// How wide, on screen, the time-stamp prefix of a pretty segment is.
pub const PREFIX_VISIBLE_LEN: usize = 22;

/// What `textwrap::fill` makes of `text` wrapped to `width` columns, its first line led by
/// `initial_indent` and the others by `subsequent_indent`.
pub uninterp spec fn spec_fill(text: Seq<char>, width: usize, initial_indent: Seq<char>, subsequent_indent: Seq<char>) -> Seq<char>;

/// Calls `textwrap::fill` with `Options::new(width)`, the given initial and subsequent
/// indents, and the other options at their defaults.
#[verifier::external_body]
fn textwrap_fill(text: &str, width: usize, initial_indent: &str, subsequent_indent: &str) -> (r: String)
    ensures
        r@ == spec_fill(text@, width, initial_indent@, subsequent_indent@),
{
    textwrap::fill(text, textwrap::Options::new(width).initial_indent(initial_indent).subsequent_indent(subsequent_indent))
}

/// The dimmed time-stamp prefix of a pretty segment: `[start → end]` and two spaces.
pub open spec fn segment_prefix(start: Seq<char>, end: Seq<char>) -> Seq<char> {
    "\x1b[2m["@ + start + " \u{2192} "@ + end + "]\x1b[0m  "@
}

/// The layout of a pretty transcript: each segment's words, joined by spaces, wrapped to
/// `width` behind its time-stamp prefix and indented under it, segments apart by a blank line.
pub open spec fn spec_pretty(words: Seq<Seq<char>>, segments: Seq<(int, int)>, stamps: Seq<(Seq<char>, Seq<char>)>, width: usize) -> Seq<char> {
    join(
        Seq::new(
            segments.len(),
            |k: int|
                spec_fill(
                    join(words.subrange(segments[k].0, segments[k].1), " "@),
                    width,
                    segment_prefix(stamps[k].0, stamps[k].1),
                    Seq::new(PREFIX_VISIBLE_LEN as nat, |i: int| ' '),
                ),
        ),
        "\n\n"@,
    )
}

pub open spec fn stamp_views(s: Seq<(String, String)>) -> Seq<(Seq<char>, Seq<char>)> {
    s.map_values(|p: (String, String)| (p.0@, p.1@))
}

/// Lays out a pretty transcript: `words` grouped by `segments` (word ranges), each led by
/// its time stamps `stamps[k]` (start, end), wrapped to `width` columns.
pub fn format_segments(
    words: &Vec<String>,
    segments: &Vec<(usize, usize)>,
    stamps: &Vec<(String, String)>,
    width: usize,
) -> (r: String)
    requires
        segments@.len() == stamps@.len(),
        forall|k: int| 0 <= k < segments@.len() ==> #[trigger] segments@[k].0 <= segments@[k].1 <= words@.len(),
    ensures
        r@ == spec_pretty(
            words@.map_values(|w: String| w@),
            range_views(segments@),
            stamp_views(stamps@),
            width,
        ),
{
    let ghost wv = words@.map_values(|w: String| w@);
    let mut indent = String::new();
    let mut j: usize = 0;
    while j < PREFIX_VISIBLE_LEN
        invariant
            j <= PREFIX_VISIBLE_LEN,
            indent@ =~= Seq::new(j as nat, |i: int| ' '),
        decreases PREFIX_VISIBLE_LEN - j,
    {
        push_char(&mut indent, ' ');
        j = j + 1;
    }
    let ghost parts_spec = Seq::new(
        segments@.len(),
        |k: int|
            spec_fill(
                join(wv.subrange(range_views(segments@)[k].0, range_views(segments@)[k].1), " "@),
                width,
                segment_prefix(stamp_views(stamps@)[k].0, stamp_views(stamps@)[k].1),
                Seq::new(PREFIX_VISIBLE_LEN as nat, |i: int| ' '),
            ),
    );
    let mut parts: Vec<String> = Vec::new();
    let mut k: usize = 0;
    while k < segments.len()
        invariant
            k <= segments@.len(),
            segments@.len() == stamps@.len(),
            forall|m: int| 0 <= m < segments@.len() ==> #[trigger] segments@[m].0 <= segments@[m].1 <= words@.len(),
            wv == words@.map_values(|w: String| w@),
            indent@ =~= Seq::new(PREFIX_VISIBLE_LEN as nat, |i: int| ' '),
            parts@.len() == k,
            parts_spec == Seq::new(
                segments@.len(),
                |k: int|
                    spec_fill(
                        join(wv.subrange(range_views(segments@)[k].0, range_views(segments@)[k].1), " "@),
                        width,
                        segment_prefix(stamp_views(stamps@)[k].0, stamp_views(stamps@)[k].1),
                        Seq::new(PREFIX_VISIBLE_LEN as nat, |i: int| ' '),
                    ),
            ),
            forall|m: int| 0 <= m < k ==> (#[trigger] parts@[m])@ == parts_spec[m],
        decreases segments@.len() - k,
    {
        let (start, end) = segments[k];
        let mut seg_words: Vec<String> = Vec::new();
        let mut w: usize = start;
        while w < end
            invariant
                start <= w <= end <= words@.len(),
                wv == words@.map_values(|w: String| w@),
                seg_words@.map_values(|x: String| x@) =~= wv.subrange(start as int, w as int),
            decreases end - w,
        {
            let ghost old_seg = seg_words@;
            seg_words.push(words[w].clone());
            proof {
                assert(wv[w as int] == words@[w as int]@);
                assert(seg_words@.map_values(|x: String| x@) =~= old_seg.map_values(|x: String| x@).push(wv[w as int]));
                assert(wv.subrange(start as int, w + 1) =~= wv.subrange(start as int, w as int).push(wv[w as int]));
            }
            w = w + 1;
        }
        let text = join_strings(&seg_words, " ");
        let mut prefix = String::from_str("\x1b[2m[");
        prefix.append(stamps[k].0.as_str());
        prefix.append(" \u{2192} ");
        prefix.append(stamps[k].1.as_str());
        prefix.append("]\x1b[0m  ");
        let filled = textwrap_fill(text.as_str(), width, prefix.as_str(), indent.as_str());
        let ghost old_parts = parts@;
        parts.push(filled);
        proof {
            assert(range_views(segments@)[k as int] == (start as int, end as int));
            assert(stamp_views(stamps@)[k as int] == (stamps@[k as int].0@, stamps@[k as int].1@));
            assert(text@ == join(wv.subrange(start as int, end as int), " "@));
            assert(prefix@ == segment_prefix(stamps@[k as int].0@, stamps@[k as int].1@));
            assert(parts@[k as int]@ == parts_spec[k as int]);
            assert forall|m: int| 0 <= m < k + 1 implies (#[trigger] parts@[m])@ == parts_spec[m] by {
                if m < k {
                    assert(parts@[m] == old_parts[m]);
                }
            }
        }
        k = k + 1;
    }
    proof {
        assert(parts@.map_values(|p: String| p@) =~= parts_spec);
    }
    join_strings(&parts, "\n\n")
}

}
