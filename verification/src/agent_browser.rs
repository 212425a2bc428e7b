//! The command lines handed to the `agent-browser` tool, how its replies
//! are judged, and where its screenshots are stored.

use vstd::prelude::*;
use crate::paths::{path_join_chars, spec_path_join};
use crate::text::{chars_of, push_all, string_of, trim, trim_exec};

verus! {

/// `c` with every `:` replaced by `-`.
pub open spec fn colons_to_dashes(s: Seq<char>) -> Seq<char> {
    s.map_values(|c: char| if c == ':' { '-' } else { c })
}

/// `<run_dir>/screenshots/<page>-<captured_at with ':' as '-'>.png`.
pub open spec fn spec_screenshot_path(run_dir: Seq<char>, page: Seq<char>, captured_at: Seq<char>) -> Seq<
    char,
> {
    spec_path_join(
        spec_path_join(run_dir, "screenshots"@),
        page + "-"@ + colons_to_dashes(captured_at) + ".png"@,
    )
}

/// Where the screenshot of `page` taken at `captured_at` is stored.
pub fn screenshot_path_for(run_dir: &str, page: &str, captured_at: &str) -> (r: String)
    ensures
        r@ == spec_screenshot_path(run_dir@, page@, captured_at@),
{
    let stamp = chars_of(captured_at);
    let mut normalized: Vec<char> = Vec::new();
    let n = stamp.len();
    for i in 0..n
        invariant
            n == stamp.len(),
            normalized@ == colons_to_dashes(stamp@.take(i as int)),
    {
        let c = stamp[i];
        normalized.push(if c == ':' { '-' } else { c });
        assert(colons_to_dashes(stamp@.take(i + 1)) =~= colons_to_dashes(stamp@.take(i as int)).push(
            if c == ':' { '-' } else { c },
        ));
    }
    assert(stamp@.take(n as int) =~= stamp@);
    let mut file: Vec<char> = chars_of(page);
    push_all(&mut file, &chars_of("-"));
    push_all(&mut file, &normalized);
    push_all(&mut file, &chars_of(".png"));
    let dir = path_join_chars(&chars_of(run_dir), &chars_of("screenshots"));
    string_of(&path_join_chars(&dir, &file))
}

/// The views of a list of string slices.
pub open spec fn str_texts(v: Seq<&str>) -> Seq<Seq<char>> {
    v.map_values(|s: &str| s@)
}

/// The views of a list of strings.
pub open spec fn string_texts(v: Seq<String>) -> Seq<Seq<char>> {
    v.map_values(|s: String| s@)
}

/// `agent-browser`, the session if there is one, `--json`, then `args`.
pub open spec fn spec_browser_command(session: Option<Seq<char>>, args: Seq<Seq<char>>) -> Seq<
    Seq<char>,
> {
    seq!["agent-browser"@] + match session {
        Some(s) => seq!["--session"@, s],
        None => Seq::empty(),
    } + seq!["--json"@] + args
}

/// The command line that runs `agent-browser` with `args`.
pub fn browser_command(session: Option<&str>, args: &Vec<&str>) -> (r: Vec<String>)
    ensures
        string_texts(r@) == spec_browser_command(
            match session {
                Some(s) => Some(s@),
                None => None,
            },
            str_texts(args@),
        ),
{
    let mut command: Vec<String> = Vec::new();
    command.push("agent-browser".to_owned());
    let ghost head = string_texts(command@);
    if let Some(s) = session {
        command.push("--session".to_owned());
        command.push(s.to_owned());
    }
    command.push("--json".to_owned());
    let ghost prefix = string_texts(command@);
    assert(prefix =~= seq!["agent-browser"@] + match session {
        Some(s) => seq!["--session"@, s@],
        None => Seq::empty(),
    } + seq!["--json"@]);
    let n = args.len();
    for i in 0..n
        invariant
            n == args.len(),
            string_texts(command@) == prefix + str_texts(args@.take(i as int)),
    {
        let ghost before = command@;
        let item = args[i].to_owned();
        command.push(item);
        assert(string_texts(command@) =~= string_texts(before).push(item@));
        assert(str_texts(args@.take(i + 1)) =~= str_texts(args@.take(i as int)).push(args@[i as int]@));
        assert(string_texts(command@) =~= prefix + str_texts(args@.take(i + 1)));
    }
    assert(args@.take(n as int) =~= args@);
    command
}


// ---------------------------------------------------------------------------
// Replies of the tool
// ---------------------------------------------------------------------------

/// What the tool's JSON reply says of the request: its `success` flag, if
/// that is a boolean, and its `error` text, if that is a string.
#[derive(Debug, Clone, PartialEq)]
pub struct BrowserReply {
    pub success: Option<bool>,
    pub error: Option<String>,
}

pub open spec fn reply_view(r: Option<BrowserReply>) -> Option<(Option<bool>, Option<Seq<char>>)> {
    match r {
        Some(b) => Some(
            (
                b.success,
                match b.error {
                    Some(e) => Some(e@),
                    None => None,
                },
            ),
        ),
        None => None,
    }
}

/// What `serde_json::from_slice` reads off the tool's output: nothing when
/// the bytes are no JSON text; otherwise the `success` member if it is a
/// boolean and the `error` member if it is a string.
pub uninterp spec fn json_reply(stdout: Seq<u8>) -> Option<(Option<bool>, Option<Seq<char>>)>;

/// Calls `serde_json::from_slice` into a `serde_json::Value` and picks its
/// `success` (as a boolean) and `error` (as a string) members. The contract
/// names the result `json_reply` of the bytes; JSON itself is not stated.
#[verifier::external_body]
fn decode_browser_reply(stdout: &[u8]) -> (r: Option<BrowserReply>)
    ensures
        reply_view(r) == json_reply(stdout@),
{
    match serde_json::from_slice::<serde_json::Value>(stdout) {
        Ok(value) => Some(BrowserReply {
            success: value.get("success").and_then(serde_json::Value::as_bool),
            error: value.get("error").and_then(serde_json::Value::as_str).map(str::to_string),
        }),
        Err(_) => None,
    }
}

/// What `String::from_utf8_lossy` makes of bytes.
pub uninterp spec fn utf8_lossy(bytes: Seq<u8>) -> Seq<char>;

/// Calls `String::from_utf8_lossy`, which reads the bytes as UTF-8 and puts
/// U+FFFD for each invalid sequence. The contract names the result
/// `utf8_lossy` of the bytes; the decoding itself is not stated.
#[verifier::external_body]
fn lossy_text(bytes: &[u8]) -> (r: String)
    ensures
        r@ == utf8_lossy(bytes@),
{
    String::from_utf8_lossy(bytes).into_owned()
}

/// The outcome of running the tool: a failed run fails with its trimmed
/// standard error; a reply that is no JSON fails as undecodable; a reply
/// succeeds only when its `success` member is `true`, and otherwise fails
/// with its `error` text or a general message.
pub open spec fn spec_reply_outcome(
    exit_ok: bool,
    stderr: Seq<char>,
    reply: Option<(Option<bool>, Option<Seq<char>>)>,
) -> Result<(), Seq<char>> {
    if !exit_ok {
        Err(trim(stderr))
    } else {
        match reply {
            None => Err("failed to decode agent-browser JSON response"@),
            Some((success, error)) => if success == Some(true) {
                Ok(())
            } else {
                match error {
                    Some(e) => Err(e),
                    None => Err("agent-browser request failed"@),
                }
            },
        }
    }
}

pub open spec fn outcome_view(r: Result<(), String>) -> Result<(), Seq<char>> {
    match r {
        Ok(()) => Ok(()),
        Err(m) => Err(m@),
    }
}

/// Judges a run of the tool from its exit status, its standard error and
/// its reply as read (see `spec_reply_outcome`).
pub fn browser_reply_outcome(exit_ok: bool, stderr: &str, reply: Option<BrowserReply>) -> (r: Result<
    (),
    String,
>)
    ensures
        outcome_view(r) == spec_reply_outcome(exit_ok, stderr@, reply_view(reply)),
{
    if !exit_ok {
        return Err(string_of(&trim_exec(&chars_of(stderr))));
    }
    match reply {
        None => Err("failed to decode agent-browser JSON response".to_owned()),
        Some(BrowserReply { success, error }) => {
            if success == Some(true) {
                Ok(())
            } else {
                match error {
                    Some(e) => Err(e),
                    None => Err("agent-browser request failed".to_owned()),
                }
            }
        },
    }
}

/// Judges a run of the tool from its exit status and the bytes it wrote to
/// standard error and standard output; the output is read only after a
/// successful run.
pub fn browser_outcome(exit_ok: bool, stderr: &[u8], stdout: &[u8]) -> (r: Result<(), String>)
    ensures
        outcome_view(r) == spec_reply_outcome(exit_ok, utf8_lossy(stderr@), json_reply(stdout@)),
{
    if !exit_ok {
        let text = lossy_text(stderr);
        return browser_reply_outcome(false, text.as_str(), None);
    }
    let reply = decode_browser_reply(stdout);
    browser_reply_outcome(true, "", reply)
}

/// A command line can be run only if it names a program.
pub fn check_browser_command(command: &Vec<String>) -> (r: Result<(), String>)
    ensures
        command@.len() == 0 ==> (r matches Err(m) && m@ == "agent-browser command is empty"@),
        command@.len() > 0 ==> r is Ok,
{
    if command.len() == 0 {
        Err("agent-browser command is empty".to_owned())
    } else {
        Ok(())
    }
}

} // verus!
