//! How a `cursor-agent` invocation is spelled (argument list, PowerShell
//! script, dry-run preview) and how its `stream-json` output is folded
//! into one answer. Spawning the process and reading its pipes is the
//! program's part.
use vstd::prelude::*;
use crate::{A2aError, ErrView, other_err};
use crate::fallback::byte_len;
use crate::runner::meta::opt_view;
use crate::json::{as_str, get_member, get_str, json_seq_view, json_view, lemma_seq_view, member, parse_json_line, json_of_line, Json, JsonView};
use crate::text::{
    chars_of, decimal, push_char, push_decimal, push_string, strings_view, trim_at, trim_seq,
};

verus! {

/// One `cursor-agent` call.
#[derive(Debug, Clone)]
pub struct CursorAgentSpec {
    /// Cursor CLI's `--model <name>` value.
    pub cursor_model: String,
    /// `agent` (default, allows writes) or `plan` (read-only).
    pub mode: String,
    /// Working directory passed via `--workspace`.
    pub workspace: String,
    /// Prompt body passed as the positional argument.
    pub prompt_text: String,
    /// API key for the `CURSOR_API_KEY` environment variable.
    pub api_key: String,
    /// `--sandbox <enabled|disabled>` passthrough; `None` passes no flag.
    pub sandbox: Option<String>,
    /// `--resume <session_id>`: only for a transient retry on the same
    /// profile.
    pub resume_session_id: Option<String>,
}

pub struct CursorAgentSpecView {
    pub cursor_model: Seq<char>,
    pub mode: Seq<char>,
    pub workspace: Seq<char>,
    pub prompt_text: Seq<char>,
    pub api_key: Seq<char>,
    pub sandbox: Option<Seq<char>>,
    pub resume_session_id: Option<Seq<char>>,
}

impl View for CursorAgentSpec {
    type V = CursorAgentSpecView;

    open spec fn view(&self) -> CursorAgentSpecView {
        CursorAgentSpecView {
            cursor_model: self.cursor_model@,
            mode: self.mode@,
            workspace: self.workspace@,
            prompt_text: self.prompt_text@,
            api_key: self.api_key@,
            sandbox: opt_view(self.sandbox),
            resume_session_id: opt_view(self.resume_session_id),
        }
    }
}

/// What one `cursor-agent` call produced.
#[derive(Debug, Clone)]
pub struct CursorAgentResult {
    pub stdout: String,
    pub stderr: String,
    pub exit_code: Option<i32>,
    /// The `result` event reported `is_error: true` (the process may
    /// still exit 0).
    pub stream_is_error: bool,
    /// `subtype` of the failing `result` event.
    pub stream_subtype: Option<String>,
    /// The chat's `session_id`, from the first event that carried one.
    pub session_id: Option<String>,
}

// ---------------------------------------------------------------------
// The argument list
// ---------------------------------------------------------------------

/// `agent` is cursor-agent's implicit default and `--mode agent` is
/// rejected, so the flag is only passed for another, non-empty mode.
pub open spec fn passes_mode(mode: Seq<char>) -> bool {
    mode != "agent"@ && mode.len() != 0
}

pub fn mode_flag_needed(mode: &str) -> (b: bool)
    ensures
        b == passes_mode(mode@),
{
    let agent = "agent";
    proof {
        reveal_strlit("agent");
    }
    let v = chars_of(mode);
    let a = chars_of(agent);
    let same = crate::text::eq_range(&v, 0, v.len(), &a);
    assert(v@.subrange(0, v@.len() as int) =~= v@);
    !same && v.len() != 0
}

/// The arguments after the binary, in order. `--` ends option parsing,
/// since a prompt may begin with `---`.
pub open spec fn agent_args(s: CursorAgentSpecView) -> Seq<Seq<char>> {
    seq![
        "-p"@,
        "--output-format"@,
        "stream-json"@,
        "--stream-partial-output"@,
        "--model"@,
        s.cursor_model,
    ] + (if passes_mode(s.mode) {
        seq!["--mode"@, s.mode]
    } else {
        seq![]
    }) + seq!["--workspace"@, s.workspace, "--trust"@] + (match s.sandbox {
        Some(sb) => seq!["--sandbox"@, sb],
        None => seq![],
    }) + (match s.resume_session_id {
        Some(sid) => seq!["--resume"@, sid],
        None => seq![],
    }) + seq!["--"@, s.prompt_text]
}

/// The argument list of a direct spawn of `cursor-agent`.
pub fn build_args(spec: &CursorAgentSpec) -> (r: Vec<String>)
    ensures
        strings_view(r@) == agent_args(spec@),
{
    let mut r: Vec<String> = Vec::new();
    push_string(&mut r, "-p");
    push_string(&mut r, "--output-format");
    push_string(&mut r, "stream-json");
    push_string(&mut r, "--stream-partial-output");
    push_string(&mut r, "--model");
    push_string(&mut r, spec.cursor_model.as_str());
    let ghost a1 = strings_view(r@);
    if mode_flag_needed(spec.mode.as_str()) {
        push_string(&mut r, "--mode");
        push_string(&mut r, spec.mode.as_str());
    }
    let ghost a2 = strings_view(r@);
    push_string(&mut r, "--workspace");
    push_string(&mut r, spec.workspace.as_str());
    push_string(&mut r, "--trust");
    let ghost a3 = strings_view(r@);
    match &spec.sandbox {
        Some(sb) => {
            push_string(&mut r, "--sandbox");
            push_string(&mut r, sb.as_str());
        },
        None => {},
    }
    let ghost a4 = strings_view(r@);
    match &spec.resume_session_id {
        Some(sid) => {
            push_string(&mut r, "--resume");
            push_string(&mut r, sid.as_str());
        },
        None => {},
    }
    let ghost a5 = strings_view(r@);
    push_string(&mut r, "--");
    push_string(&mut r, spec.prompt_text.as_str());
    proof {
        let s = spec@;
        let p1 = seq![
            "-p"@,
            "--output-format"@,
            "stream-json"@,
            "--stream-partial-output"@,
            "--model"@,
            s.cursor_model,
        ];
        let p2: Seq<Seq<char>> = if passes_mode(s.mode) {
            seq!["--mode"@, s.mode]
        } else {
            seq![]
        };
        let p3 = seq!["--workspace"@, s.workspace, "--trust"@];
        let p4: Seq<Seq<char>> = match s.sandbox {
            Some(sb) => seq!["--sandbox"@, sb],
            None => seq![],
        };
        let p5: Seq<Seq<char>> = match s.resume_session_id {
            Some(sid) => seq!["--resume"@, sid],
            None => seq![],
        };
        let p6 = seq!["--"@, s.prompt_text];
        assert(a1 =~= p1);
        assert(a2 =~= p1 + p2);
        assert(a3 =~= p1 + p2 + p3);
        assert(a4 =~= p1 + p2 + p3 + p4);
        assert(a5 =~= p1 + p2 + p3 + p4 + p5);
        assert(strings_view(r@) =~= p1 + p2 + p3 + p4 + p5 + p6);
    }
    r
}

// ---------------------------------------------------------------------
// PowerShell quoting
// ---------------------------------------------------------------------

/// Inside a PowerShell single-quoted literal every character stands for
/// itself except `'`, which is written `''`.
pub open spec fn ps1_escape(s: Seq<char>) -> Seq<char>
    decreases s.len(),
{
    if s.len() == 0 {
        seq![]
    } else if s.last() == '\'' {
        ps1_escape(s.drop_last()) + seq!['\'', '\'']
    } else {
        ps1_escape(s.drop_last()).push(s.last())
    }
}

/// Reading a single-quoted literal's body back.
pub open spec fn ps1_unescape(s: Seq<char>) -> Seq<char>
    decreases s.len(),
{
    if s.len() == 0 {
        seq![]
    } else if s.len() >= 2 && s.last() == '\'' && s[s.len() - 2] == '\'' {
        ps1_unescape(s.subrange(0, s.len() - 2)).push('\'')
    } else {
        ps1_unescape(s.drop_last()).push(s.last())
    }
}

/// A quoted argument reads back as exactly the text it quotes: prompt
/// newlines and quotes survive the trip through PowerShell.
pub proof fn law_ps1_quote_round_trip(s: Seq<char>)
    ensures
        ps1_unescape(ps1_escape(s)) == s,
    decreases s.len(),
{
    if s.len() > 0 {
        law_ps1_quote_round_trip(s.drop_last());
        let e = ps1_escape(s.drop_last());
        if s.last() == '\'' {
            let t = e + seq!['\'', '\''];
            assert(t.subrange(0, t.len() - 2) =~= e);
        } else {
            let t = e.push(s.last());
            assert(t.drop_last() =~= e);
        }
        assert(s.drop_last().push(s.last()) =~= s);
    }
}

/// Appends `ps1_escape(s)` to `out`.
pub fn push_ps1_escaped(out: &mut String, s: &str)
    ensures
        final(out)@ == old(out)@ + ps1_escape(s@),
{
    let v = chars_of(s);
    let mut i: usize = 0;
    while i < v.len()
        invariant
            i <= v@.len(),
            v@ == s@,
            out@ == old(out)@ + ps1_escape(v@.take(i as int)),
        decreases v@.len() - i,
    {
        let c = v[i];
        assert(v@.take(i + 1).drop_last() =~= v@.take(i as int));
        assert(v@.take(i + 1).last() == c);
        if c == '\'' {
            push_char(out, '\'');
            push_char(out, '\'');
            assert(old(out)@ + ps1_escape(v@.take(i + 1)) =~= old(out)@ + ps1_escape(
                v@.take(i as int),
            ) + seq!['\'', '\'']);
        } else {
            push_char(out, c);
            assert(old(out)@ + ps1_escape(v@.take(i + 1)) =~= (old(out)@ + ps1_escape(
                v@.take(i as int),
            )).push(c));
        }
        i += 1;
    }
    assert(v@.take(v@.len() as int) =~= v@);
}

/// ` '<escaped arg>'` for each argument, in order.
pub open spec fn quoted_args(args: Seq<Seq<char>>) -> Seq<char>
    decreases args.len(),
{
    if args.len() == 0 {
        seq![]
    } else {
        quoted_args(args.drop_last()) + " '"@ + ps1_escape(args.last()) + "'"@
    }
}

/// The PowerShell `-Command` script for a `.ps1` install: the call
/// operator on the quoted script path, the same arguments as a direct
/// spawn each single-quoted, then the exit code handed back.
pub open spec fn ps1_script(bin: Seq<char>, s: CursorAgentSpecView) -> Seq<char> {
    "& '"@ + ps1_escape(bin) + "'"@ + quoted_args(agent_args(s)) + "; exit $LASTEXITCODE"@
}

/// Build [`ps1_script`] for `bin` and `spec`.
pub fn build_ps1_script(bin: &str, spec: &CursorAgentSpec) -> (r: String)
    ensures
        r@ == ps1_script(bin@, spec@),
{
    let args = build_args(spec);
    let mut out = String::from_str("& '");
    push_ps1_escaped(&mut out, bin);
    out.append("'");
    let ghost head = out@;
    let mut i: usize = 0;
    while i < args.len()
        invariant
            i <= args@.len(),
            out@ == head + quoted_args(strings_view(args@).take(i as int)),
        decreases args@.len() - i,
    {
        proof {
            reveal_strlit(" '");
            reveal_strlit("'");
        }
        out.append(" '");
        push_ps1_escaped(&mut out, args[i].as_str());
        out.append("'");
        proof {
            let t = strings_view(args@).take(i + 1);
            assert(t.drop_last() =~= strings_view(args@).take(i as int));
            assert(t.last() == args@[i as int]@);
            assert(out@ =~= head + quoted_args(t));
        }
        i += 1;
    }
    assert(strings_view(args@).take(args@.len() as int) =~= strings_view(args@));
    out.append("; exit $LASTEXITCODE");
    out
}

// ---------------------------------------------------------------------
// Dry run
// ---------------------------------------------------------------------

/// The command `ask --dry-run` prints in place of each call.
pub open spec fn dry_run_spec(s: CursorAgentSpecView) -> Seq<char> {
    "CURSOR_API_KEY=$KEY cursor-agent -p --output-format stream-json --stream-partial-output --model "@
        + s.cursor_model + (if passes_mode(s.mode) {
        " --mode "@ + s.mode
    } else {
        seq![]
    }) + " --workspace "@ + s.workspace + " --trust"@ + (match s.sandbox {
        Some(v) => " --sandbox "@ + v,
        None => seq![],
    }) + " -- <prompt>"@
}

pub fn dry_run_command_string(spec: &CursorAgentSpec) -> (r: String)
    ensures
        r@ == dry_run_spec(spec@),
{
    let mut out = String::from_str(
        "CURSOR_API_KEY=$KEY cursor-agent -p --output-format stream-json --stream-partial-output --model ",
    );
    out.append(spec.cursor_model.as_str());
    if mode_flag_needed(spec.mode.as_str()) {
        out.append(" --mode ");
        out.append(spec.mode.as_str());
    }
    out.append(" --workspace ");
    out.append(spec.workspace.as_str());
    out.append(" --trust");
    match &spec.sandbox {
        Some(v) => {
            out.append(" --sandbox ");
            out.append(v.as_str());
        },
        None => {},
    }
    out.append(" -- <prompt>");
    proof {
        let s = spec@;
        let mid: Seq<char> = if passes_mode(s.mode) {
            " --mode "@ + s.mode
        } else {
            seq![]
        };
        let sb: Seq<char> = match s.sandbox {
            Some(v) => " --sandbox "@ + v,
            None => seq![],
        };
        assert(out@ =~= dry_run_spec(s));
    }
    out
}

// ---------------------------------------------------------------------
// Binary lookup and the Windows command-line cap
// ---------------------------------------------------------------------

/// The names probed on `PATH`, in order. On Windows the PowerShell
/// script comes first: the `.cmd` shim would push the prompt through
/// cmd.exe's quoting, which mangles newlines and double quotes.
pub open spec fn binary_names_spec(windows: bool) -> Seq<Seq<char>> {
    if windows {
        seq![
            "cursor-agent.ps1"@,
            "agent.ps1"@,
            "cursor-agent.exe"@,
            "cursor-agent.cmd"@,
            "agent.exe"@,
            "agent.cmd"@,
        ]
    } else {
        seq!["cursor-agent"@, "agent"@]
    }
}

pub fn binary_names(windows: bool) -> (r: Vec<String>)
    ensures
        strings_view(r@) == binary_names_spec(windows),
{
    let mut r: Vec<String> = Vec::new();
    if windows {
        push_string(&mut r, "cursor-agent.ps1");
        push_string(&mut r, "agent.ps1");
        push_string(&mut r, "cursor-agent.exe");
        push_string(&mut r, "cursor-agent.cmd");
        push_string(&mut r, "agent.exe");
        push_string(&mut r, "agent.cmd");
    } else {
        push_string(&mut r, "cursor-agent");
        push_string(&mut r, "agent");
    }
    assert(strings_view(r@) =~= binary_names_spec(windows));
    r
}

/// Largest prompt, in bytes, that is put on a Windows command line.
pub const WIN_PROMPT_SOFT_CAP: u64 = 28000;

pub open spec fn win_cap_msg(len: nat) -> Seq<char> {
    "prompt is "@ + decimal(len)
        + " bytes; Windows command-line cap prevents safely spawning cursor-agent above 28000 bytes. a2a normally auto-switches to indirect-prompt mode for large prompts \u{2014} your `[defaults] inline_prompt_max_bytes` is set too high. Lower it (default 24000) or leave it unset."@
}

/// On Windows a prompt above the cap is refused before spawning.
pub fn check_windows_prompt_len(prompt: &str) -> (r: Result<(), A2aError>)
    ensures
        byte_len(prompt@) <= WIN_PROMPT_SOFT_CAP ==> r is Ok,
        byte_len(prompt@) > WIN_PROMPT_SOFT_CAP ==> (r matches Err(e) && e@ == ErrView::Other(
            win_cap_msg(byte_len(prompt@)),
        )),
{
    let len = prompt.len();
    if len as u64 > WIN_PROMPT_SOFT_CAP {
        let mut m = String::from_str("prompt is ");
        push_decimal(&mut m, len as u64);
        m.append(
            " bytes; Windows command-line cap prevents safely spawning cursor-agent above 28000 bytes. a2a normally auto-switches to indirect-prompt mode for large prompts \u{2014} your `[defaults] inline_prompt_max_bytes` is set too high. Lower it (default 24000) or leave it unset.",
        );
        Err(other_err(m))
    } else {
        Ok(())
    }
}

// ---------------------------------------------------------------------
// The `stream-json` output
// ---------------------------------------------------------------------

/// A call succeeded: it exited with code 0 and its stream reported no
/// error result (cursor-agent can exit 0 after a failed task).
pub fn call_succeeded(r: &CursorAgentResult) -> (b: bool)
    ensures
        b == (r.exit_code == Some(0i32) && !r.stream_is_error),
{
    match r.exit_code {
        Some(c) => c == 0 && !r.stream_is_error,
        None => false,
    }
}

/// The fields of one `stream-json` line that the aggregation reads.
pub struct StreamEvent {
    /// `session_id`, when it is a string.
    pub session_id: Option<String>,
    /// `type`, when it is a string.
    pub event_type: Option<String>,
    /// A `timestamp_ms` field is present.
    pub has_timestamp_ms: bool,
    /// A `model_call_id` field is present.
    pub has_model_call_id: bool,
    /// Each string `text` of `message.content[]`, in order.
    pub texts: Vec<String>,
    /// `result`, when it is a string.
    pub result: Option<String>,
    /// `is_error` is the boolean `true`.
    pub is_error: bool,
    /// `subtype`, when it is a string.
    pub subtype: Option<String>,
}

pub struct StreamEventView {
    pub session_id: Option<Seq<char>>,
    pub event_type: Option<Seq<char>>,
    pub has_timestamp_ms: bool,
    pub has_model_call_id: bool,
    pub texts: Seq<Seq<char>>,
    pub result: Option<Seq<char>>,
    pub is_error: bool,
    pub subtype: Option<Seq<char>>,
}

impl View for StreamEvent {
    type V = StreamEventView;

    open spec fn view(&self) -> StreamEventView {
        StreamEventView {
            session_id: opt_view(self.session_id),
            event_type: opt_view(self.event_type),
            has_timestamp_ms: self.has_timestamp_ms,
            has_model_call_id: self.has_model_call_id,
            texts: strings_view(self.texts@),
            result: opt_view(self.result),
            is_error: self.is_error,
            subtype: opt_view(self.subtype),
        }
    }
}

/// The `text` strings of the items of `message.content`, in order; items
/// without a string `text` add nothing.
pub open spec fn texts_of(items: Seq<JsonView>) -> Seq<Seq<char>>
    decreases items.len(),
{
    if items.len() == 0 {
        seq![]
    } else {
        texts_of(items.drop_last()) + match as_str(member(items.last(), "text"@)) {
            Some(t) => seq![t],
            None => seq![],
        }
    }
}

pub open spec fn content_texts(message: Option<JsonView>) -> Seq<Seq<char>> {
    match message {
        Some(m) => match member(m, "content"@) {
            Some(JsonView::Array(items)) => texts_of(items),
            _ => seq![],
        },
        None => seq![],
    }
}

/// What one parsed `stream-json` line says, field by field as
/// `serde_json::Value::get` reads it.
pub open spec fn stream_event_spec(j: JsonView) -> StreamEventView {
    StreamEventView {
        session_id: as_str(member(j, "session_id"@)),
        event_type: as_str(member(j, "type"@)),
        has_timestamp_ms: member(j, "timestamp_ms"@) is Some,
        has_model_call_id: member(j, "model_call_id"@) is Some,
        texts: content_texts(member(j, "message"@)),
        result: as_str(member(j, "result"@)),
        is_error: member(j, "is_error"@) == Some(JsonView::Bool(true)),
        subtype: as_str(member(j, "subtype"@)),
    }
}

fn opt_str_clone(o: Option<&String>) -> (r: Option<String>)
    ensures
        opt_view(r) == match o {
            Some(s) => Some(s@),
            None => None,
        },
{
    match o {
        Some(s) => Some(s.clone()),
        None => None,
    }
}

/// The fields of a parsed line that the aggregation reads.
pub fn stream_event_of(v: &Json) -> (e: StreamEvent)
    ensures
        e@ == stream_event_spec(json_view(*v)),
{
    let mut texts: Vec<String> = Vec::new();
    let ghost msg = member(json_view(*v), "message"@);
    match get_member(v, "message") {
        Some(m) => match get_member(m, "content") {
            Some(c) => match c {
            Json::Array(items) => {
                proof {
                    lemma_seq_view(items@);
                }
                let ghost iv = json_seq_view(items@);
                let mut i: usize = 0;
                while i < items.len()
                    invariant
                        i <= items@.len(),
                        iv == json_seq_view(items@),
                        iv.len() == items@.len(),
                        forall|k: int| 0 <= k < items@.len() ==> #[trigger] iv[k] == json_view(items@[k]),
                        strings_view(texts@) == texts_of(iv.take(i as int)),
                    decreases items@.len() - i,
                {
                    let ghost before = strings_view(texts@);
                    let t = get_str(&items[i], "text");
                    proof {
                        let tk = iv.take(i + 1);
                        assert(tk.drop_last() =~= iv.take(i as int));
                        assert(tk.last() == json_view(items@[i as int]));
                    }
                    match t {
                        Some(s) => {
                            texts.push(s.clone());
                            assert(strings_view(texts@) =~= before + seq![s@]);
                        },
                        None => {
                            assert(before + Seq::<Seq<char>>::empty() =~= before);
                        },
                    }
                    i += 1;
                }
                assert(iv.take(items@.len() as int) =~= iv);
                assert(json_view(*c) == JsonView::Array(iv));
            },
            _ => {
                assert(!(json_view(*c) is Array));
                assert(strings_view(texts@) =~= Seq::<Seq<char>>::empty());
            },
            },
            None => {
                assert(strings_view(texts@) =~= Seq::<Seq<char>>::empty());
            },
        },
        None => {
            assert(strings_view(texts@) =~= Seq::<Seq<char>>::empty());
        },
    }
    assert(strings_view(texts@) == content_texts(member(json_view(*v), "message"@)));
    let is_error = match get_member(v, "is_error") {
        Some(x) => match x {
            Json::Bool(b) => *b,
            _ => {
                assert(!(json_view(*x) is Bool));
                false
            },
        },
        None => false,
    };
    assert(is_error == (member(json_view(*v), "is_error"@) == Some(JsonView::Bool(true))));
    let e = StreamEvent {
        session_id: opt_str_clone(get_str(v, "session_id")),
        event_type: opt_str_clone(get_str(v, "type")),
        has_timestamp_ms: get_member(v, "timestamp_ms").is_some(),
        has_model_call_id: get_member(v, "model_call_id").is_some(),
        texts,
        result: opt_str_clone(get_str(v, "result")),
        is_error,
        subtype: opt_str_clone(get_str(v, "subtype")),
    };
    e
}

/// What has been read from stdout so far.
pub struct StreamState {
    /// Streaming-delta text, plus any non-JSON line.
    pub text: String,
    /// Buffered (non-delta) assistant text, a last-resort fallback.
    pub non_delta_text: String,
    /// The `result` of the last `result` event.
    pub last_result_text: Option<String>,
    pub stream_is_error: bool,
    pub stream_subtype: Option<String>,
    /// The first non-empty `session_id` seen.
    pub session_id: Option<String>,
    /// Characters of delta text seen.
    pub chars_seen: usize,
    /// The "received first response" line was printed.
    pub first_response_printed: bool,
}

pub struct StreamStateView {
    pub text: Seq<char>,
    pub non_delta_text: Seq<char>,
    pub last_result_text: Option<Seq<char>>,
    pub stream_is_error: bool,
    pub stream_subtype: Option<Seq<char>>,
    pub session_id: Option<Seq<char>>,
    pub chars_seen: nat,
    pub first_response_printed: bool,
}

impl View for StreamState {
    type V = StreamStateView;

    open spec fn view(&self) -> StreamStateView {
        StreamStateView {
            text: self.text@,
            non_delta_text: self.non_delta_text@,
            last_result_text: opt_view(self.last_result_text),
            stream_is_error: self.stream_is_error,
            stream_subtype: opt_view(self.stream_subtype),
            session_id: opt_view(self.session_id),
            chars_seen: self.chars_seen as nat,
            first_response_printed: self.first_response_printed,
        }
    }
}

pub open spec fn concat_all(ts: Seq<Seq<char>>) -> Seq<char>
    decreases ts.len(),
{
    if ts.len() == 0 {
        seq![]
    } else {
        concat_all(ts.drop_last()) + ts.last()
    }
}

pub open spec fn total_len(ts: Seq<Seq<char>>) -> nat
    decreases ts.len(),
{
    if ts.len() == 0 {
        0
    } else {
        total_len(ts.drop_last()) + ts.last().len()
    }
}

pub open spec fn sat_add(a: nat, b: nat) -> nat {
    if a + b > usize::MAX {
        usize::MAX as nat
    } else {
        a + b
    }
}

/// An `assistant` event whose text counts as streamed: it carries
/// `timestamp_ms` and no `model_call_id`. Buffered flushes repeat text
/// already streamed, so only deltas are counted.
pub open spec fn is_delta(e: StreamEventView) -> bool {
    e.has_timestamp_ms && !e.has_model_call_id
}

pub open spec fn is_type(e: StreamEventView, t: Seq<char>) -> bool {
    e.event_type == Some(t)
}

/// The state after one stdout line, `line` being the raw line and
/// `ev` what it parses to as JSON (after trimming), if it does.
pub open spec fn feed_spec(
    st: StreamStateView,
    line: Seq<char>,
    ev: Option<StreamEventView>,
) -> StreamStateView {
    let t = trim_seq(line);
    if t.len() == 0 {
        st
    } else {
        match ev {
            None => StreamStateView { text: st.text + t + seq!['\n'], ..st },
            Some(e) => {
                let sid = match (st.session_id, e.session_id) {
                    (None, Some(s)) => if s.len() != 0 {
                        Some(s)
                    } else {
                        None
                    },
                    _ => st.session_id,
                };
                let st1 = StreamStateView { session_id: sid, ..st };
                if is_type(e, "assistant"@) {
                    if is_delta(e) {
                        StreamStateView {
                            text: st1.text + concat_all(e.texts),
                            chars_seen: sat_add(st1.chars_seen, total_len(e.texts)),
                            first_response_printed: st1.first_response_printed || e.texts.len()
                                > 0,
                            ..st1
                        }
                    } else {
                        StreamStateView {
                            non_delta_text: st1.non_delta_text + concat_all(e.texts),
                            ..st1
                        }
                    }
                } else if is_type(e, "result"@) {
                    let st2 = match e.result {
                        Some(r) => StreamStateView { last_result_text: Some(r), ..st1 },
                        None => st1,
                    };
                    if e.is_error {
                        StreamStateView {
                            stream_is_error: true,
                            stream_subtype: e.subtype,
                            ..st2
                        }
                    } else {
                        st2
                    }
                } else {
                    st1
                }
            },
        }
    }
}

/// The answer: the canonical `result` text, else the streamed deltas,
/// else the buffered assistant text.
pub open spec fn final_body(st: StreamStateView) -> Seq<char> {
    match st.last_result_text {
        Some(r) => r,
        None => if st.text.len() != 0 {
            st.text
        } else {
            st.non_delta_text
        },
    }
}

fn opt_string_eq(o: &Option<String>, t: &str) -> (b: bool)
    ensures
        b == (opt_view(*o) == Some(t@)),
{
    match o {
        Some(s) => {
            let v = chars_of(s.as_str());
            let w = chars_of(t);
            let r = crate::text::eq_range(&v, 0, v.len(), &w);
            assert(v@.subrange(0, v@.len() as int) =~= v@);
            r
        },
        None => false,
    }
}

fn clone_opt(o: &Option<String>) -> (r: Option<String>)
    ensures
        opt_view(r) == opt_view(*o),
{
    match o {
        Some(s) => {
            let mut c = String::new();
            c.append(s.as_str());
            Some(c)
        },
        None => None,
    }
}

impl StreamState {
    pub fn new() -> (s: Self)
        ensures
            s@ == (StreamStateView {
                text: seq![],
                non_delta_text: seq![],
                last_result_text: None,
                stream_is_error: false,
                stream_subtype: None,
                session_id: None,
                chars_seen: 0,
                first_response_printed: false,
            }),
    {
        StreamState {
            text: String::new(),
            non_delta_text: String::new(),
            last_result_text: None,
            stream_is_error: false,
            stream_subtype: None,
            session_id: None,
            chars_seen: 0,
            first_response_printed: false,
        }
    }

    /// Fold one stdout line in. Returns `true` when this line brought the
    /// first streamed text, so the "received first response" line is due.
    pub fn feed(&mut self, line: &str, ev: Option<StreamEvent>) -> (first: bool)
        ensures
            final(self)@ == feed_spec(
                old(self)@,
                line@,
                match ev {
                    Some(e) => Some(e@),
                    None => None,
                },
            ),
            first == (!old(self)@.first_response_printed && final(self)@.first_response_printed),
    {
        let v = chars_of(line);
        let (a, b) = trim_at(&v, 0, v.len());
        assert(v@.subrange(0, v@.len() as int) =~= line@);
        if a == b {
            return false;
        }
        let e = match ev {
            None => {
                let ghost t0 = self.text@;
                crate::text::push_range(&mut self.text, &v, a, b);
                push_char(&mut self.text, '\n');
                assert(self.text@ =~= t0 + trim_seq(line@) + seq!['\n']);
                return false;
            },
            Some(e) => e,
        };
        if self.session_id.is_none() {
            match &e.session_id {
                Some(s) => {
                    if s.as_str().unicode_len() != 0 {
                        let mut c = String::new();
                        c.append(s.as_str());
                        self.session_id = Some(c);
                    }
                },
                None => {},
            }
        }
        proof {
            reveal_strlit("assistant");
            reveal_strlit("result");
        }
        if opt_string_eq(&e.event_type, "assistant") {
            let delta = e.has_timestamp_ms && !e.has_model_call_id;
            let before = self.first_response_printed;
            let mut i: usize = 0;
            let ghost st0 = self@;
            let ghost texts = strings_view(e.texts@);
            while i < e.texts.len()
                invariant
                    i <= e.texts@.len(),
                    texts == strings_view(e.texts@),
                    delta ==> self@ == (StreamStateView {
                        text: st0.text + concat_all(texts.take(i as int)),
                        chars_seen: sat_add(st0.chars_seen, total_len(texts.take(i as int))),
                        first_response_printed: st0.first_response_printed || i > 0,
                        ..st0
                    }),
                    !delta ==> self@ == (StreamStateView {
                        non_delta_text: st0.non_delta_text + concat_all(texts.take(i as int)),
                        ..st0
                    }),
                decreases e.texts@.len() - i,
            {
                let t = e.texts[i].as_str();
                proof {
                    let tk = texts.take(i + 1);
                    assert(tk.drop_last() =~= texts.take(i as int));
                    assert(tk.last() == t@);
                }
                if delta {
                    self.text.append(t);
                    let n = t.unicode_len();
                    self.chars_seen = self.chars_seen.saturating_add(n);
                    self.first_response_printed = true;
                    proof {
                        let tk = texts.take(i + 1);
                        assert(self.text@ =~= st0.text + concat_all(tk));
                        assert(total_len(tk) == total_len(texts.take(i as int)) + t@.len());
                    }
                } else {
                    self.non_delta_text.append(t);
                    proof {
                        let tk = texts.take(i + 1);
                        assert(self.non_delta_text@ =~= st0.non_delta_text + concat_all(tk));
                    }
                }
                i += 1;
            }
            proof {
                assert(texts.take(e.texts@.len() as int) =~= texts);
            }
            return !before && self.first_response_printed;
        } else if opt_string_eq(&e.event_type, "result") {
            match &e.result {
                Some(r) => {
                    let mut c = String::new();
                    c.append(r.as_str());
                    self.last_result_text = Some(c);
                },
                None => {},
            }
            if e.is_error {
                self.stream_is_error = true;
                self.stream_subtype = clone_opt(&e.subtype);
            }
        }
        false
    }

    /// Fold one raw stdout line in: the line is trimmed, parsed as JSON
    /// and read as an event; a line that does not parse is kept as text.
    pub fn feed_line(&mut self, line: &str) -> (first: bool)
        ensures
            final(self)@ == feed_spec(
                old(self)@,
                line@,
                match json_of_line(trim_seq(line@)) {
                    Some(j) => Some(stream_event_spec(j)),
                    None => None,
                },
            ),
            first == (!old(self)@.first_response_printed && final(self)@.first_response_printed),
    {
        let v = chars_of(line);
        let (a, b) = trim_at(&v, 0, v.len());
        assert(v@.subrange(0, v@.len() as int) =~= line@);
        let t = crate::text::string_of(&v, a, b);
        let ev = match parse_json_line(t.as_str()) {
            Some(j) => Some(stream_event_of(&j)),
            None => None,
        };
        self.feed(line, ev)
    }

    /// The final answer text, see [`final_body`].
    pub fn body(&self) -> (r: String)
        ensures
            r@ == final_body(self@),
    {
        let mut out = String::new();
        match &self.last_result_text {
            Some(r) => out.append(r.as_str()),
            None => if self.text.as_str().unicode_len() != 0 {
                out.append(self.text.as_str())
            } else {
                out.append(self.non_delta_text.as_str())
            },
        }
        out
    }

    /// The result of a call whose pipes reached end of file.
    pub fn finish(&self, stderr: String, exit_code: Option<i32>) -> (r: CursorAgentResult)
        ensures
            r.stdout@ == final_body(self@),
            r.stderr@ == stderr@,
            r.exit_code == exit_code,
            r.stream_is_error == self@.stream_is_error,
            opt_view(r.stream_subtype) == self@.stream_subtype,
            opt_view(r.session_id) == self@.session_id,
    {
        CursorAgentResult {
            stdout: self.body(),
            stderr,
            exit_code,
            stream_is_error: self.stream_is_error,
            stream_subtype: clone_opt(&self.stream_subtype),
            session_id: clone_opt(&self.session_id),
        }
    }
}

/// The line printed at the first streamed text.
pub open spec fn first_response_line_spec(alias: Option<Seq<char>>) -> Seq<char> {
    match alias {
        Some(a) => "["@ + a + "] received first response (streaming...)"@,
        None => "received first response (streaming...)"@,
    }
}

pub fn first_response_line(alias: Option<&str>) -> (r: String)
    ensures
        r@ == first_response_line_spec(
            match alias {
                Some(a) => Some(a@),
                None => None,
            },
        ),
{
    match alias {
        Some(a) => {
            let mut s = String::from_str("[");
            s.append(a);
            s.append("] received first response (streaming...)");
            s
        },
        None => String::from_str("received first response (streaming...)"),
    }
}

// ---------------------------------------------------------------------
// The ten-second progress ticker
// ---------------------------------------------------------------------

/// Seconds of silence before the "still alive" line.
pub const QUIET_THRESHOLD_SECS: u64 = 30;

/// What one tick of the progress ticker prints, given the character
/// count at the previous line (`last`), the count now, and the seconds
/// since the last visible progress: `None` prints nothing.
pub open spec fn tick_line_spec(alias: Option<Seq<char>>, last: nat, now: nat, quiet_secs: nat) -> Option<
    Seq<char>,
> {
    if now != last {
        let delta: nat = if now >= last {
            (now - last) as nat
        } else {
            0
        };
        Some(
            match alias {
                Some(a) => "["@ + a + "] still receiving... +"@ + decimal(delta) + " chars (total "@
                    + decimal(now) + " chars in last 10s)"@,
                None => "still receiving... +"@ + decimal(delta) + " chars (total "@ + decimal(now)
                    + " chars)"@,
            },
        )
    } else if quiet_secs >= QUIET_THRESHOLD_SECS {
        Some(
            match alias {
                Some(a) => "["@ + a + "] still alive (no new streamed text in "@ + decimal(
                    quiet_secs,
                ) + "s; cursor-agent likely thinking / tool-calling)"@,
                None => "still alive (no new streamed text in "@ + decimal(quiet_secs)
                    + "s; cursor-agent likely thinking / tool-calling)"@,
            },
        )
    } else {
        None
    }
}

/// One tick: the line to print, if any. After a printed line the
/// caller records `now` as the new `last` and restarts the quiet timer.
pub fn progress_tick(alias: Option<&str>, last: u64, now: u64, quiet_secs: u64) -> (r: Option<String>)
    ensures
        opt_view(r) == tick_line_spec(
            match alias {
                Some(a) => Some(a@),
                None => None,
            },
            last as nat,
            now as nat,
            quiet_secs as nat,
        ),
{
    if now != last {
        let delta = now.saturating_sub(last);
        let mut s = match alias {
            Some(a) => {
                let mut s = String::from_str("[");
                s.append(a);
                s.append("] still receiving... +");
                s
            },
            None => String::from_str("still receiving... +"),
        };
        push_decimal(&mut s, delta);
        s.append(" chars (total ");
        push_decimal(&mut s, now);
        match alias {
            Some(_) => s.append(" chars in last 10s)"),
            None => s.append(" chars)"),
        }
        Some(s)
    } else if quiet_secs >= QUIET_THRESHOLD_SECS {
        let mut s = match alias {
            Some(a) => {
                let mut s = String::from_str("[");
                s.append(a);
                s.append("] still alive (no new streamed text in ");
                s
            },
            None => String::from_str("still alive (no new streamed text in "),
        };
        push_decimal(&mut s, quiet_secs);
        s.append("s; cursor-agent likely thinking / tool-calling)");
        Some(s)
    } else {
        None
    }
}

// ---------------------------------------------------------------------
// The hard timeout
// ---------------------------------------------------------------------

/// Seconds a single call may take before it is killed.
pub const HARD_WAIT_CAP_SECS: u64 = 900;

pub open spec fn timeout_line() -> Seq<char> {
    "cursor-agent timeout: run exceeded 900 seconds; killed via kill_on_drop"@
}

/// The stderr of a timed-out call keeps what the process wrote before
/// the stall, so an `unauthorized` / `401` already there still routes
/// the failure as a dead key; the timeout line goes last.
pub open spec fn timeout_stderr_spec(captured: Seq<char>) -> Seq<char> {
    if trim_seq(captured).len() == 0 {
        timeout_line()
    } else {
        captured + seq!['\n'] + timeout_line()
    }
}

/// The soft failure reported when a call exceeds the hard cap: no
/// stdout, the stderr seen so far plus the timeout line, subtype
/// `timeout`, and the session id captured before the stall so a retry
/// can resume.
pub fn timeout_result(captured_stderr: &str, captured_sid: Option<String>) -> (r: CursorAgentResult)
    ensures
        r.stdout@.len() == 0,
        r.stderr@ == timeout_stderr_spec(captured_stderr@),
        r.exit_code is None,
        r.stream_is_error,
        opt_view(r.stream_subtype) == Some("timeout"@),
        opt_view(r.session_id) == opt_view(captured_sid),
{
    let v = chars_of(captured_stderr);
    let (a, b) = trim_at(&v, 0, v.len());
    assert(v@.subrange(0, v@.len() as int) =~= captured_stderr@);
    let synthetic = "cursor-agent timeout: run exceeded 900 seconds; killed via kill_on_drop";
    let stderr = if a == b {
        String::from_str(synthetic)
    } else {
        let mut s = String::new();
        s.append(captured_stderr);
        push_char(&mut s, '\n');
        s.append(synthetic);
        s
    };
    CursorAgentResult {
        stdout: String::new(),
        stderr,
        exit_code: None,
        stream_is_error: true,
        stream_subtype: Some(String::from_str("timeout")),
        session_id: captured_sid,
    }
}

} // verus!
