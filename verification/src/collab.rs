//! Decisions at the boundary to the external collaborators: which clipboard
//! tool to use, how the capture process is invoked, when the refine
//! affordance may run, and the degraded mode entered when no API key was
//! configured.  The shell probes tool availability and spawns processes; the
//! choices themselves are made and verified here.

use vstd::prelude::*;

use crate::state::RecState;
use crate::text::{first_line, spec_first_line, spec_starts_with, starts_with};

verus! {

/// Where the capture process writes the artifact, and where the worker
/// looks for it.
pub fn artifact_path() -> (r: &'static str)
    ensures
        r@ == "/tmp/whisper_record.wav"@,
{
    "/tmp/whisper_record.wav"
}

/// The program that records audio.
pub fn capture_program() -> (r: &'static str)
    ensures
        r@ == "arecord"@,
{
    "arecord"
}

/// Arguments for the capture process: CD-quality PCM, WAV container, quiet,
/// writing to the artifact path.
pub fn capture_args() -> (r: Vec<&'static str>)
    ensures
        r@.len() == 6,
        r@[0]@ == "-f"@,
        r@[1]@ == "cd"@,
        r@[2]@ == "-t"@,
        r@[3]@ == "wav"@,
        r@[4]@ == "-q"@,
        r@[5]@ == "/tmp/whisper_record.wav"@,
{
    let mut v: Vec<&'static str> = Vec::new();
    v.push("-f");
    v.push("cd");
    v.push("-t");
    v.push("wav");
    v.push("-q");
    v.push("/tmp/whisper_record.wav");
    v
}

/// The fixed transcription endpoint.
pub fn transcription_endpoint() -> (r: &'static str)
    ensures
        r@ == "https://api.openai.com/v1/audio/transcriptions"@,
{
    "https://api.openai.com/v1/audio/transcriptions"
}

/// The model identifier sent with every request.
pub fn transcription_model() -> (r: &'static str)
    ensures
        r@ == "gpt-4o-mini-transcribe"@,
{
    "gpt-4o-mini-transcribe"
}

/// The multipart field that carries the audio file.
pub fn multipart_file_field() -> (r: &'static str)
    ensures
        r@ == "file"@,
{
    "file"
}

/// The multipart field naming the desired response format.
pub fn multipart_format_field() -> (r: &'static str)
    ensures
        r@ == "response_format"@,
{
    "response_format"
}

/// The response format requested: plain transcript text.
pub fn multipart_format_value() -> (r: &'static str)
    ensures
        r@ == "text"@,
{
    "text"
}

/// The multipart field naming the model.
pub fn multipart_model_field() -> (r: &'static str)
    ensures
        r@ == "model"@,
{
    "model"
}

/// The authorization header value: the bearer scheme carrying the API key
/// verbatim.
pub fn bearer_header(api_key: &str) -> (r: String)
    ensures
        r@ == "Bearer "@ + api_key@,
{
    let mut h = "Bearer ".to_owned();
    h.append(api_key);
    h
}

/// The clipboard tools the sink knows how to drive.
#[derive(Clone, Copy, PartialEq, Eq, Structural, Debug)]
pub enum ClipboardTool {
    WlCopy,
    Xclip,
}

/// Pick the clipboard tool: the Wayland tool when present, else the X11
/// tool, else none — in which case publishing is skipped with a warning,
/// never treated as an error.
pub fn choose_clipboard_tool(wl_copy_available: bool, xclip_available: bool) -> (r: Option<
    ClipboardTool,
>)
    ensures
        wl_copy_available ==> r == Some(ClipboardTool::WlCopy),
        !wl_copy_available && xclip_available ==> r == Some(ClipboardTool::Xclip),
        !wl_copy_available && !xclip_available ==> r is None,
{
    if wl_copy_available {
        Some(ClipboardTool::WlCopy)
    } else if xclip_available {
        Some(ClipboardTool::Xclip)
    } else {
        None
    }
}

impl ClipboardTool {
    /// The program to spawn.
    pub fn program(&self) -> (r: &'static str)
        ensures
            *self == ClipboardTool::WlCopy ==> r@ == "wl-copy"@,
            *self == ClipboardTool::Xclip ==> r@ == "xclip"@,
    {
        match self {
            ClipboardTool::WlCopy => "wl-copy",
            ClipboardTool::Xclip => "xclip",
        }
    }

    /// Extra arguments the program needs to read the text from its input.
    pub fn args(&self) -> (r: Vec<&'static str>)
        ensures
            *self == ClipboardTool::WlCopy ==> r@.len() == 0,
            *self == ClipboardTool::Xclip ==> r@.len() == 3 && r@[0]@ == "-selection"@ && r@[1]@
                == "clipboard"@ && r@[2]@ == "-in"@,
    {
        let mut v: Vec<&'static str> = Vec::new();
        match self {
            ClipboardTool::WlCopy => {},
            ClipboardTool::Xclip => {
                v.push("-selection");
                v.push("clipboard");
                v.push("-in");
            },
        }
        v
    }
}

/// Whether a configured key allows recording at all: an empty value puts
/// the tool into degraded mode instead.
pub fn record_allowed(api_key: &String) -> (r: bool)
    ensures
        r == (api_key@.len() != 0),
{
    !api_key.as_str().is_empty()
}

/// The status line shown at startup: an explanation of degraded mode when
/// the key is missing, otherwise idle.
pub fn startup_status(api_key: &String) -> (r: String)
    ensures
        api_key@.len() == 0 ==> r@ == "Error: API key missing or invalid"@,
        api_key@.len() != 0 ==> r@ == "Idle"@,
{
    if api_key.as_str().is_empty() {
        "Error: API key missing or invalid".to_owned()
    } else {
        "Idle".to_owned()
    }
}

/// The status shown when a press arrives while in degraded mode.
pub fn missing_key_status() -> (r: String)
    ensures
        r@ == "Error: API key missing. Cannot record."@,
{
    "Error: API key missing. Cannot record.".to_owned()
}

/// The status shown while the capture process runs.
pub fn recording_status() -> (r: String)
    ensures
        r@ == "Recording..."@,
{
    "Recording...".to_owned()
}

/// The status shown while the worker transcribes.
pub fn processing_status() -> (r: String)
    ensures
        r@ == "Processing..."@,
{
    "Processing...".to_owned()
}

/// The status shown when the capture program is not installed at all.
pub fn capture_missing_status() -> (r: String)
    ensures
        r@ == "Error: arecord missing"@,
{
    "Error: arecord missing".to_owned()
}

/// The status shown when the capture process could not be spawned.
pub fn capture_spawn_failed_status(detail: &str) -> (r: String)
    ensures
        r@ == "Error starting record: "@ + detail@,
{
    let mut m = "Error starting record: ".to_owned();
    m.append(detail);
    m
}

/// The status shown for a refine press with nothing to refine.
pub fn nothing_to_refine_status() -> (r: String)
    ensures
        r@ == "Nothing to refine"@,
{
    "Nothing to refine".to_owned()
}

/// The acknowledgment for a press that arrives while an operation runs.
pub fn busy_status() -> (r: String)
    ensures
        r@ == "Wait for the current operation."@,
{
    "Wait for the current operation.".to_owned()
}

/// The status shown while the refinement tool runs.
pub fn refining_status() -> (r: String)
    ensures
        r@ == "Refining..."@,
{
    "Refining...".to_owned()
}

/// What a refine press leads to.
pub enum RefineDecision {
    /// A recording or transcription is under way; do nothing.
    Busy,
    /// No transcript, or the area shows an error message: nothing to refine.
    NothingToRefine,
    /// Run the refinement tool with this prompt.
    Run { prompt: String },
}

/// A transcript is refinable when it is non-empty and is not an error
/// message shown in the transcript area.
pub open spec fn spec_refinable(transcript: Seq<char>) -> bool {
    transcript.len() != 0 && !spec_starts_with(transcript, "Error:"@)
}

/// The prompt handed to the refinement tool for a transcript.
pub open spec fn spec_refine_prompt(transcript: Seq<char>) -> Seq<char> {
    "Refine the following transcript, keeping the original style. Remove redundancies and clean up: "@
        + transcript
}

/// Gate the refine affordance: only an idle tool with a real transcript may
/// refine, and the prompt carries the transcript verbatim.
pub fn refine_decision(state: RecState, transcript: &String) -> (r: RefineDecision)
    ensures
        state != RecState::Stopped ==> r is Busy,
        state == RecState::Stopped && !spec_refinable(transcript@) ==> r is NothingToRefine,
        state == RecState::Stopped && spec_refinable(transcript@) ==> (r matches RefineDecision::Run
            { prompt } && prompt@ == spec_refine_prompt(transcript@)),
{
    if state != RecState::Stopped {
        return RefineDecision::Busy;
    }
    if transcript.as_str().is_empty() || starts_with(transcript.as_str(), "Error:") {
        return RefineDecision::NothingToRefine;
    }
    let mut prompt =
        "Refine the following transcript, keeping the original style. Remove redundancies and clean up: ".to_owned();
    prompt.append(transcript.as_str());
    RefineDecision::Run { prompt }
}

/// What the shell observed of one refinement-tool invocation.
pub enum RefineOutcome {
    /// The tool exited successfully with this output.
    Refined { output: String },
    /// The tool ran but failed; `stderr` is what it printed.
    ToolFailed { stderr: String },
    /// The tool could not be started at all.
    LaunchFailed { detail: String },
}

/// The updates a finished refinement applies on the interactive thread.
pub struct RefineUpdate {
    /// New transcript text; `None` keeps the present transcript.
    pub transcript_text: Option<String>,
    /// New status line.
    pub status_text: String,
    /// On success, the exact refined text for the clipboard sink.
    pub clipboard_payload: Option<String>,
}

/// The status line for a failed refinement: its first line of diagnostics,
/// or a stock phrase when the tool printed nothing.
pub open spec fn spec_refine_failed_status(stderr: Seq<char>) -> Seq<char> {
    if stderr.len() == 0 {
        "Refine failed: "@ + "Unknown error"@
    } else {
        "Refine failed: "@ + spec_first_line(stderr)
    }
}

/// Turn a refinement outcome into the updates the interactive thread
/// applies: on success the refined text replaces the transcript and goes to
/// the clipboard unchanged; on failure the transcript is kept and a short
/// status is shown.
pub fn refine_update(outcome: RefineOutcome) -> (r: RefineUpdate)
    ensures
        outcome matches RefineOutcome::Refined { output } ==> (r.transcript_text matches Some(t)
            && t@ == output@) && (r.clipboard_payload matches Some(p) && p@ == output@)
            && r.status_text@ == "Idle"@,
        outcome matches RefineOutcome::ToolFailed { stderr } ==> r.transcript_text is None
            && r.clipboard_payload is None && r.status_text@ == spec_refine_failed_status(stderr@),
        outcome matches RefineOutcome::LaunchFailed { detail } ==> r.transcript_text is None
            && r.clipboard_payload is None && r.status_text@ == "Failed to run refine: "@ + detail@,
{
    match outcome {
        RefineOutcome::Refined { output } => {
            let payload = output.clone();
            RefineUpdate {
                transcript_text: Some(output),
                status_text: "Idle".to_owned(),
                clipboard_payload: Some(payload),
            }
        },
        RefineOutcome::ToolFailed { stderr } => {
            let mut status = "Refine failed: ".to_owned();
            if stderr.as_str().is_empty() {
                status.append("Unknown error");
            } else {
                let line = first_line(stderr.as_str());
                status.append(line.as_str());
            }
            RefineUpdate {
                transcript_text: None,
                status_text: status,
                clipboard_payload: None,
            }
        },
        RefineOutcome::LaunchFailed { detail } => {
            let mut status = "Failed to run refine: ".to_owned();
            status.append(detail.as_str());
            RefineUpdate {
                transcript_text: None,
                status_text: status,
                clipboard_payload: None,
            }
        },
    }
}

} // verus!
