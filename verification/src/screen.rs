use vstd::prelude::*;
use crate::text::concat;

verus! {

/// Why a screen capture failed.
#[derive(Debug)]
pub enum ScreenError {
    Io(String),
    Capture(String),
}

/// A file written by a capture: its full path and its name.
#[derive(Clone, Debug)]
pub struct CaptureResult {
    pub path: String,
    pub filename: String,
}

/// What is being recorded, as reported to the app.
#[derive(Clone, Debug)]
pub struct RecordingStatus {
    pub is_recording: bool,
    pub session_id: Option<String>,
    pub output_path: Option<String>,
}

/// The state of the screen recorder (the recording process itself is held beside it).
pub struct RecordingState {
    pub is_recording: bool,
    pub session_id: Option<String>,
    pub output_path: Option<String>,
    pub output_filename: Option<String>,
}

pub open spec fn opt_text(o: Option<String>) -> Option<Seq<char>> {
    match o {
        Some(s) => Some(s@),
        None => None,
    }
}

/// The screen plugin answers a ping.
pub fn ping() -> (r: Result<String, ScreenError>)
    ensures
        r matches Ok(s) && s@ == "pong"@,
{
    Ok(String::from_str("pong"))
}

/// Whether `c` is a lowercase hexadecimal digit.
pub open spec fn is_lower_hex(c: char) -> bool {
    ('0' <= c && c <= '9') || ('a' <= c && c <= 'f')
}

/// Whether `s` is a random (version 4) UUID in its hyphenated lowercase form:
/// 36 characters, hyphens at 8, 13, 18 and 23, hexadecimal digits elsewhere, the version
/// digit `4` at 14 and a variant digit from `8` to `b` at 19.
pub open spec fn is_v4_uuid_text(s: Seq<char>) -> bool {
    &&& s.len() == 36
    &&& forall|i: int|
        0 <= i < 36 ==> if i == 8 || i == 13 || i == 18 || i == 23 {
            s[i] == '-'
        } else {
            is_lower_hex(#[trigger] s[i])
        }
    &&& s[14] == '4'
    &&& (s[19] == '8' || s[19] == '9' || s[19] == 'a' || s[19] == 'b')
}

/// Calls `uuid::Uuid::new_v4` and writes it in its hyphenated form (`Display`): a random
/// version 4 UUID. The value is random, so only its form is stated.
#[verifier::external_body]
fn new_uuid() -> (r: String)
    ensures
        is_v4_uuid_text(r@),
{
    uuid::Uuid::new_v4().to_string()
}

/// `prefix`, then `id`, then `suffix`.
pub fn tagged_filename(prefix: &str, id: &str, suffix: &str) -> (r: String)
    ensures
        r@ == prefix@ + id@ + suffix@,
{
    let mut r = concat(prefix, id);
    r.append(suffix);
    r
}

/// What `Path::join` makes of a directory and a file name, as text.
pub uninterp spec fn spec_path_join(dir: Seq<char>, name: Seq<char>) -> Seq<char>;

/// Calls `std::path::Path::join`: the path of `name` inside `dir`, as text.
#[verifier::external_body]
fn path_join(dir: &str, name: &str) -> (r: String)
    ensures
        r@ == spec_path_join(dir@, name@),
{
    std::path::Path::new(dir).join(name).to_string_lossy().to_string()
}

/// Where a new capture goes: a fresh file name (`prefix`, a random UUID, `suffix`) inside
/// `output_dir`.
fn new_capture_target(output_dir: &str, prefix: &str, suffix: &str) -> (r: CaptureResult)
    ensures
        exists|id: Seq<char>| is_v4_uuid_text(id) && r.filename@ == prefix@ + id + suffix@,
        r.path@ == spec_path_join(output_dir@, r.filename@),
{
    let id = new_uuid();
    let filename = tagged_filename(prefix, id.as_str(), suffix);
    let path = path_join(output_dir, filename.as_str());
    CaptureResult { path, filename }
}

/// Where a new screenshot goes: `screenshot_<uuid>.png` inside `output_dir`.
pub fn screenshot_target(output_dir: &str) -> (r: CaptureResult)
    ensures
        exists|id: Seq<char>| is_v4_uuid_text(id) && r.filename@ == "screenshot_"@ + id + ".png"@,
        r.path@ == spec_path_join(output_dir@, r.filename@),
{
    new_capture_target(output_dir, "screenshot_", ".png")
}

/// Where a new recording goes: `recording_<uuid>.mp4` inside `output_dir`.
pub fn recording_target(output_dir: &str) -> (r: CaptureResult)
    ensures
        exists|id: Seq<char>| is_v4_uuid_text(id) && r.filename@ == "recording_"@ + id + ".mp4"@,
        r.path@ == spec_path_join(output_dir@, r.filename@),
{
    new_capture_target(output_dir, "recording_", ".mp4")
}

/// The tools tried in turn for a screenshot on Linux.
#[derive(Clone, Copy, Debug, PartialEq, Eq, Structural)]
pub enum ScreenshotTool {
    Grim,
    Scrot,
    Import,
}

/// How running a capture tool went.
#[derive(Debug)]
pub enum ToolOutcome {
    Succeeded,
    Failed,
    CouldNotRun(String),
}

/// What to do after a capture tool ran.
#[derive(Debug)]
pub enum CaptureStep {
    Run(ScreenshotTool),
    Done,
    Fail(ScreenError),
}

/// On Linux, `grim` is tried first.
pub fn first_linux_tool() -> (t: ScreenshotTool)
    ensures
        t == ScreenshotTool::Grim,
{
    ScreenshotTool::Grim
}

/// After `tool` ran on Linux: done when it succeeded; otherwise the next tool, and
/// after `import`, the last, an error.
pub fn linux_capture_step(tool: ScreenshotTool, outcome: ToolOutcome) -> (s: CaptureStep)
    ensures
        outcome is Succeeded ==> s is Done,
        !(outcome is Succeeded) && tool == ScreenshotTool::Grim ==> s
            == CaptureStep::Run(ScreenshotTool::Scrot),
        !(outcome is Succeeded) && tool == ScreenshotTool::Scrot ==> s
            == CaptureStep::Run(ScreenshotTool::Import),
        tool == ScreenshotTool::Import ==> match outcome {
            ToolOutcome::Succeeded => s is Done,
            ToolOutcome::CouldNotRun(e) => s == CaptureStep::Fail(ScreenError::Io(e)),
            ToolOutcome::Failed => s matches CaptureStep::Fail(ScreenError::Capture(m)) && m@
                == "No screenshot tool available (tried grim, scrot, import)"@,
        },
{
    match outcome {
        ToolOutcome::Succeeded => CaptureStep::Done,
        ToolOutcome::Failed => match tool {
            ScreenshotTool::Grim => CaptureStep::Run(ScreenshotTool::Scrot),
            ScreenshotTool::Scrot => CaptureStep::Run(ScreenshotTool::Import),
            ScreenshotTool::Import => CaptureStep::Fail(
                ScreenError::Capture(
                    String::from_str("No screenshot tool available (tried grim, scrot, import)"),
                ),
            ),
        },
        ToolOutcome::CouldNotRun(e) => match tool {
            ScreenshotTool::Grim => CaptureStep::Run(ScreenshotTool::Scrot),
            ScreenshotTool::Scrot => CaptureStep::Run(ScreenshotTool::Import),
            ScreenshotTool::Import => CaptureStep::Fail(ScreenError::Io(e)),
        },
    }
}

/// After `screencapture` ran on macOS.
pub fn macos_capture_step(outcome: ToolOutcome) -> (r: Result<(), ScreenError>)
    ensures
        match outcome {
            ToolOutcome::Succeeded => r is Ok,
            ToolOutcome::CouldNotRun(e) => r == Err::<(), ScreenError>(ScreenError::Io(e)),
            ToolOutcome::Failed => r matches Err(ScreenError::Capture(m)) && m@
                == "screencapture command failed"@,
        },
{
    match outcome {
        ToolOutcome::Succeeded => Ok(()),
        ToolOutcome::CouldNotRun(e) => Err(ScreenError::Io(e)),
        ToolOutcome::Failed => Err(ScreenError::Capture(String::from_str("screencapture command failed"))),
    }
}

/// Screenshots are not taken on Windows.
pub fn windows_capture_error() -> (e: ScreenError)
    ensures
        e matches ScreenError::Capture(m) && m@ == "Windows screenshot not yet supported"@,
{
    ScreenError::Capture(String::from_str("Windows screenshot not yet supported"))
}

/// The recorder as plain values: whether it records, for which session, into which file.
pub struct RecorderView {
    pub is_recording: bool,
    pub session_id: Option<Seq<char>>,
    pub output_path: Option<Seq<char>>,
    pub output_filename: Option<Seq<char>>,
}

impl View for RecordingState {
    type V = RecorderView;

    open spec fn view(&self) -> RecorderView {
        RecorderView {
            is_recording: self.is_recording,
            session_id: opt_text(self.session_id),
            output_path: opt_text(self.output_path),
            output_filename: opt_text(self.output_filename),
        }
    }
}

/// The idle recorder.
pub open spec fn idle_recorder() -> RecorderView {
    RecorderView { is_recording: false, session_id: None, output_path: None, output_filename: None }
}

/// The recorder once the recording of `session` into `path` (named `name`) has started.
pub open spec fn started_recorder(session: Seq<char>, path: Seq<char>, name: Seq<char>) -> RecorderView {
    RecorderView {
        is_recording: true,
        session_id: Some(session),
        output_path: Some(path),
        output_filename: Some(name),
    }
}

/// What stopping the recorder `v` leaves, and the path and name of the file it gives.
pub open spec fn stopped_recorder(v: RecorderView) -> (RecorderView, Option<(Seq<char>, Seq<char>)>) {
    if !v.is_recording {
        (v, None)
    } else {
        (
            idle_recorder(),
            match v.output_path {
                None => None,
                Some(p) => Some(
                    (
                        p,
                        match v.output_filename {
                            Some(f) => f,
                            None => Seq::empty(),
                        },
                    ),
                ),
            },
        )
    }
}

/// The status reported for the recorder `v`.
pub open spec fn recorder_status(v: RecorderView) -> (bool, Option<Seq<char>>, Option<Seq<char>>) {
    (v.is_recording, v.session_id, v.output_path)
}

pub open spec fn capture_view(c: Option<CaptureResult>) -> Option<(Seq<char>, Seq<char>)> {
    match c {
        Some(r) => Some((r.path@, r.filename@)),
        None => None,
    }
}

impl Default for RecordingState {
    /// The recorder before any recording.
    fn default() -> (s: Self)
        ensures
            s@ == idle_recorder(),
    {
        RecordingState::new()
    }
}

impl RecordingState {
    /// The recorder before any recording.
    pub fn new() -> (s: Self)
        ensures
            s@ == idle_recorder(),
    {
        RecordingState { is_recording: false, session_id: None, output_path: None, output_filename: None }
    }

    /// A recording may start only when none is running.
    pub fn ensure_idle(&self) -> (r: Result<(), ScreenError>)
        ensures
            r is Ok <==> !self@.is_recording,
            r matches Err(e) ==> (e matches ScreenError::Capture(m) && m@ == "Already recording"@),
    {
        if self.is_recording {
            Err(ScreenError::Capture(String::from_str("Already recording")))
        } else {
            Ok(())
        }
    }

    /// Records that the recording of `session_id` into `output_path` (named `filename`)
    /// has started.
    pub fn record_started(&mut self, session_id: &str, output_path: String, filename: String) -> (r:
        CaptureResult)
        requires
            !old(self)@.is_recording,
        ensures
            final(self)@ == started_recorder(session_id@, output_path@, filename@),
            r.path@ == output_path@,
            r.filename@ == filename@,
    {
        let result = CaptureResult { path: output_path.clone(), filename: filename.clone() };
        self.is_recording = true;
        self.session_id = Some(String::from_str(session_id));
        self.output_path = Some(output_path);
        self.output_filename = Some(filename);
        result
    }

    /// Ends the recording: gives the file it wrote, and leaves the recorder idle.
    /// Without a running recording, nothing changes.
    pub fn stop(&mut self) -> (r: Option<CaptureResult>)
        ensures
            final(self)@ == stopped_recorder(old(self)@).0,
            capture_view(r) == stopped_recorder(old(self)@).1,
    {
        if !self.is_recording {
            return None;
        }
        let path = self.output_path.take();
        let name = self.output_filename.take();
        let result = match path {
            Some(p) => Some(CaptureResult {
                path: p,
                filename: match name {
                    Some(f) => f,
                    None => String::new(),
                },
            }),
            None => None,
        };
        self.is_recording = false;
        self.session_id = None;
        result
    }

    /// What the recorder is doing.
    pub fn status(&self) -> (s: RecordingStatus)
        ensures
            (s.is_recording, opt_text(s.session_id), opt_text(s.output_path)) == recorder_status(
                self@,
            ),
    {
        RecordingStatus {
            is_recording: self.is_recording,
            session_id: self.session_id.clone(),
            output_path: self.output_path.clone(),
        }
    }
}

/// A recording that starts from an idle recorder is reported while it runs, and stopping
/// it gives back the file it was started with and leaves the recorder idle, so that a
/// second stop gives nothing.
pub proof fn law_start_then_stop(v: RecorderView, session: Seq<char>, path: Seq<char>, name: Seq<char>)
    requires
        !v.is_recording,
    ensures
        recorder_status(started_recorder(session, path, name)) == (true, Some(session), Some(path)),
        stopped_recorder(started_recorder(session, path, name)) == (idle_recorder(), Some((path, name))),
        stopped_recorder(stopped_recorder(started_recorder(session, path, name)).0).1 is None,
        recorder_status(stopped_recorder(started_recorder(session, path, name)).0) == (false, None::<Seq<char>>, None::<Seq<char>>),
{
}

/// Stopping an idle recorder changes nothing and gives nothing.
pub proof fn law_stop_when_idle(v: RecorderView)
    requires
        !v.is_recording,
    ensures
        stopped_recorder(v) == (v, None::<(Seq<char>, Seq<char>)>),
{
}

}
