//! What the launcher tells its user: the notices of a launch, the pieces of
//! text each is made of, and how they come out once styled.

use crate::error::LaunchError;
use crate::paint::{appears, show, Look, Tone};
use crate::stage::Stage;
use crate::text::{concatenation, join, texts, trim, trimmed};
use crate::version::Version;
use vstd::prelude::*;
use vstd::string::StringExecFns;

verus! {

/// A piece of text and the look it is to have.
#[derive(Debug)]
pub struct Segment {
    pub text: String,
    pub look: Look,
}

/// A segment as plain text.
pub struct SegmentView {
    pub text: Seq<char>,
    pub look: Look,
}

impl View for Segment {
    type V = SegmentView;

    open spec fn view(&self) -> SegmentView {
        SegmentView { text: self.text@, look: self.look }
    }
}

/// The views of a list of segments.
pub open spec fn segment_views(segments: Seq<Segment>) -> Seq<SegmentView> {
    Seq::new(segments.len(), |i: int| segments[i]@)
}

/// Something to tell the user in the course of a launch.
#[derive(Debug)]
pub enum Notice {
    /// A candidate announced a version.
    RuntimeFound { executable: String, version: Version },
    /// The version that was found meets the minimum.
    VersionAccepted,
    /// A stage is about to run.
    StageStarted(Stage),
    /// A stage has ended with success.
    StageSucceeded(Stage),
    /// The launch is given up. `detail` says why a process could not be
    /// started; it is shown for that error and for no other.
    Failed { error: LaunchError, detail: String },
}

/// A notice as plain text.
pub enum NoticeView {
    RuntimeFound { executable: Seq<char>, version: Version },
    VersionAccepted,
    StageStarted(Stage),
    StageSucceeded(Stage),
    Failed { error: LaunchError, detail: Seq<char> },
}

impl View for Notice {
    type V = NoticeView;

    open spec fn view(&self) -> NoticeView {
        match self {
            Notice::RuntimeFound { executable, version } => NoticeView::RuntimeFound {
                executable: executable@,
                version: *version,
            },
            Notice::VersionAccepted => NoticeView::VersionAccepted,
            Notice::StageStarted(stage) => NoticeView::StageStarted(*stage),
            Notice::StageSucceeded(stage) => NoticeView::StageSucceeded(*stage),
            Notice::Failed { error, detail } => NoticeView::Failed {
                error: *error,
                detail: detail@,
            },
        }
    }
}

/// The views of a list of notices.
pub open spec fn notice_views(notices: Seq<Notice>) -> Seq<NoticeView> {
    Seq::new(notices.len(), |i: int| notices[i]@)
}

/// Where the installation instructions are.
pub open spec fn instructions_url() -> Seq<char> {
    "https://github.com/DigitalHolography/DopplerManager"@
}

/// A terminal hyperlink: `shown` is what the user sees, `url` is where it
/// leads.
pub open spec fn link_text(url: Seq<char>, shown: Seq<char>) -> Seq<char> {
    "\x1B]8;;"@ + url + "\x07"@ + shown + "\x1B]8;;\x07"@
}

/// The line that says a stage is about to run.
pub open spec fn stage_started_text(stage: Stage) -> Seq<char> {
    match stage {
        Stage::EnvironmentCreation => "Creating virtual environment..."@,
        Stage::DependencyInstallation => "Installing dependencies from requirements.txt..."@,
        Stage::ApplicationLaunch => "Running the Streamlit application... (Press Ctrl+C to stop)"@,
    }
}

/// The line that says a stage has succeeded.
pub open spec fn stage_succeeded_text(stage: Stage) -> Seq<char> {
    match stage {
        Stage::EnvironmentCreation => "Virtual environment created successfully.\n"@,
        Stage::DependencyInstallation => "Dependencies installed successfully.\n"@,
        Stage::ApplicationLaunch => "Streamlit application finished."@,
    }
}

/// The message for a stage whose process reported failure.
pub open spec fn stage_exit_failure_text(stage: Stage) -> Seq<char> {
    match stage {
        Stage::EnvironmentCreation => "\nFailed to create virtual environment."@,
        Stage::DependencyInstallation => "\nFailed to install dependencies."@,
        Stage::ApplicationLaunch => "\nStreamlit application exited with an error."@,
    }
}

/// The message for a stage whose process could not be started, up to the
/// place where the reason is given.
pub open spec fn stage_launch_failure_text(stage: Stage) -> Seq<char> {
    match stage {
        Stage::EnvironmentCreation => "\nError executing python to create virtual environment: "@,
        Stage::DependencyInstallation => "\nFailed to run pip. Is 'requirements.txt' present?\nError: "@,
        Stage::ApplicationLaunch => "\nFailed to run streamlit. Is 'app.py' present?\nError: "@,
    }
}

/// A segment without styling.
pub open spec fn plain_segment(text: Seq<char>) -> SegmentView {
    SegmentView { text, look: Look::Plain }
}

/// A segment in a colour.
pub open spec fn tinted_segment(text: Seq<char>, tone: Tone) -> SegmentView {
    SegmentView { text, look: Look::Tinted(tone) }
}

/// The segments of the message for an error. Every message starts on a new
/// line. The message for an incompatible runtime names both versions and
/// ends with a link to the installation instructions.
pub open spec fn failure_segments(error: LaunchError, detail: Seq<char>) -> Seq<SegmentView> {
    match error {
        LaunchError::RuntimeNotFound => seq![
            plain_segment("\nCould not find a valid Python installation."@),
        ],
        LaunchError::RuntimeIncompatible { required, found } => seq![
            plain_segment("\nIncompatible Python version. Required: "@),
            tinted_segment(required.written(), Tone::Green),
            plain_segment(", Found: "@),
            tinted_segment(found.written(), Tone::Red),
            plain_segment(
                "\nPlease check the installation instruction on the README.md or on "@,
            ),
            tinted_segment(link_text(instructions_url(), instructions_url()), Tone::BrightBlue),
        ],
        LaunchError::StageLaunchFailure { stage } => seq![
            plain_segment(stage_launch_failure_text(stage) + detail),
        ],
        LaunchError::StageExitFailure { stage } => seq![
            plain_segment(stage_exit_failure_text(stage)),
        ],
    }
}

/// The segments a notice is made of.
pub open spec fn notice_segments(notice: NoticeView) -> Seq<SegmentView> {
    match notice {
        NoticeView::RuntimeFound { executable, version } => seq![
            plain_segment(
                "Found Python "@ + version.written() + " using executable '"@ + executable + "'"@,
            ),
        ],
        NoticeView::VersionAccepted => seq![
            tinted_segment("Python version check passed."@, Tone::Green),
            plain_segment("\n"@),
        ],
        NoticeView::StageStarted(stage) => seq![
            tinted_segment(stage_started_text(stage), Tone::Yellow),
        ],
        NoticeView::StageSucceeded(stage) => seq![
            tinted_segment(stage_succeeded_text(stage), Tone::Green),
        ],
        NoticeView::Failed { error, detail } => failure_segments(error, detail),
    }
}

/// The segments of the line that shows the application's own version, as
/// read from its version marker: the marker's text without the whitespace
/// around it, or a note that there is no marker.
pub open spec fn app_version_segments(marker: Option<Seq<char>>) -> Seq<SegmentView> {
    match marker {
        Some(text) => seq![
            plain_segment("Version: "@),
            tinted_segment(trimmed(text), Tone::BrightMagenta),
            plain_segment("\n"@),
        ],
        None => seq![
            SegmentView { text: "Version: [NOT FOUND]"@, look: Look::Dimmed },
            plain_segment("\n"@),
        ],
    }
}

/// `parts` are the segments as they may come out of styling: one part for
/// each segment, each of them a way for its segment to appear.
pub open spec fn pieces_of(parts: Seq<Seq<char>>, segments: Seq<SegmentView>) -> bool {
    &&& parts.len() == segments.len()
    &&& forall|i: int|
        0 <= i < parts.len() ==> appears(#[trigger] parts[i], segments[i].text, segments[i].look)
}

/// `out` is the segments one after another, each of them as it came out of
/// styling.
pub open spec fn renders(out: Seq<char>, segments: Seq<SegmentView>) -> bool {
    exists|parts: Seq<Seq<char>>| #[trigger]
        pieces_of(parts, segments) && out == concatenation(parts)
}

/// The texts of the segments.
pub open spec fn segment_texts(segments: Seq<SegmentView>) -> Seq<Seq<char>> {
    Seq::new(segments.len(), |i: int| segments[i].text)
}

/// The segments one after another, none of them styled, is one of the ways
/// in which they can come out: it is what is written where the process has
/// colours switched off.
pub proof fn lemma_unstyled_is_a_rendering(segments: Seq<SegmentView>)
    ensures
        renders(concatenation(segment_texts(segments)), segments),
{
    assert(pieces_of(segment_texts(segments), segments));
}

/// Each segment as it comes out of styling.
pub fn paint_each(segments: &Vec<Segment>) -> (parts: Vec<String>)
    ensures
        pieces_of(texts(parts@), segment_views(segments@)),
{
    let mut parts: Vec<String> = Vec::new();
    let n: usize = segments.len();
    for i in 0..n
        invariant
            n == segments@.len(),
            parts@.len() == i,
            forall|j: int|
                0 <= j < i ==> appears(
                    #[trigger] parts@[j]@,
                    segments@[j].text@,
                    segments@[j].look,
                ),
    {
        let segment = &segments[i];
        parts.push(show(segment.text.as_str(), segment.look));
    }
    parts
}

/// Styles each segment and joins the results.
pub fn paint_all(segments: &Vec<Segment>) -> (out: String)
    ensures
        renders(out@, segment_views(segments@)),
{
    let parts = paint_each(segments);
    join(&parts)
}

/// A terminal hyperlink to `url` that shows `text`, or the address itself
/// where no text is given.
pub fn make_a_link(url: &str, text: Option<&str>) -> (r: String)
    ensures
        r@ == link_text(
            url@,
            match text {
                Some(shown) => shown@,
                None => url@,
            },
        ),
{
    let shown = match text {
        Some(shown) => shown,
        None => url,
    };
    let mut r = "\x1B]8;;".to_owned();
    r.append(url);
    r.append("\x07");
    r.append(shown);
    r.append("\x1B]8;;\x07");
    r
}

fn instructions() -> (r: &'static str)
    ensures
        r@ == instructions_url(),
{
    "https://github.com/DigitalHolography/DopplerManager"
}

fn stage_started(stage: Stage) -> (r: &'static str)
    ensures
        r@ == stage_started_text(stage),
{
    match stage {
        Stage::EnvironmentCreation => "Creating virtual environment...",
        Stage::DependencyInstallation => "Installing dependencies from requirements.txt...",
        Stage::ApplicationLaunch => "Running the Streamlit application... (Press Ctrl+C to stop)",
    }
}

fn stage_succeeded(stage: Stage) -> (r: &'static str)
    ensures
        r@ == stage_succeeded_text(stage),
{
    match stage {
        Stage::EnvironmentCreation => "Virtual environment created successfully.\n",
        Stage::DependencyInstallation => "Dependencies installed successfully.\n",
        Stage::ApplicationLaunch => "Streamlit application finished.",
    }
}

fn stage_exit_failure(stage: Stage) -> (r: &'static str)
    ensures
        r@ == stage_exit_failure_text(stage),
{
    match stage {
        Stage::EnvironmentCreation => "\nFailed to create virtual environment.",
        Stage::DependencyInstallation => "\nFailed to install dependencies.",
        Stage::ApplicationLaunch => "\nStreamlit application exited with an error.",
    }
}

fn stage_launch_failure(stage: Stage) -> (r: &'static str)
    ensures
        r@ == stage_launch_failure_text(stage),
{
    match stage {
        Stage::EnvironmentCreation => "\nError executing python to create virtual environment: ",
        Stage::DependencyInstallation => "\nFailed to run pip. Is 'requirements.txt' present?\nError: ",
        Stage::ApplicationLaunch => "\nFailed to run streamlit. Is 'app.py' present?\nError: ",
    }
}

fn plain(text: String) -> (r: Segment)
    ensures
        r@ == plain_segment(text@),
{
    Segment { text, look: Look::Plain }
}

fn tinted(text: String, tone: Tone) -> (r: Segment)
    ensures
        r@ == tinted_segment(text@, tone),
{
    Segment { text, look: Look::Tinted(tone) }
}

/// The segments of the message for an error; `detail` is the reason why a
/// process could not be started.
pub fn failure_message(error: LaunchError, detail: &str) -> (r: Vec<Segment>)
    ensures
        segment_views(r@) == failure_segments(error, detail@),
{
    let mut r: Vec<Segment> = Vec::new();
    match error {
        LaunchError::RuntimeNotFound => {
            r.push(plain("\nCould not find a valid Python installation.".to_owned()));
        },
        LaunchError::RuntimeIncompatible { required, found } => {
            r.push(plain("\nIncompatible Python version. Required: ".to_owned()));
            r.push(tinted(required.to_str(), Tone::Green));
            r.push(plain(", Found: ".to_owned()));
            r.push(tinted(found.to_str(), Tone::Red));
            r.push(
                plain(
                    "\nPlease check the installation instruction on the README.md or on ".to_owned(),
                ),
            );
            r.push(tinted(make_a_link(instructions(), None), Tone::BrightBlue));
        },
        LaunchError::StageLaunchFailure { stage } => {
            let mut text = stage_launch_failure(stage).to_owned();
            text.append(detail);
            r.push(plain(text));
        },
        LaunchError::StageExitFailure { stage } => {
            r.push(plain(stage_exit_failure(stage).to_owned()));
        },
    }
    r
}

impl Notice {
    /// The segments this notice is made of.
    pub fn segments(&self) -> (r: Vec<Segment>)
        ensures
            segment_views(r@) == notice_segments(self@),
    {
        let mut r: Vec<Segment> = Vec::new();
        match self {
            Notice::RuntimeFound { executable, version } => {
                let mut text = "Found Python ".to_owned();
                text.append(version.to_str().as_str());
                text.append(" using executable '");
                text.append(executable.as_str());
                text.append("'");
                r.push(plain(text));
            },
            Notice::VersionAccepted => {
                r.push(tinted("Python version check passed.".to_owned(), Tone::Green));
                r.push(plain("\n".to_owned()));
            },
            Notice::StageStarted(stage) => {
                r.push(tinted(stage_started(*stage).to_owned(), Tone::Yellow));
            },
            Notice::StageSucceeded(stage) => {
                r.push(tinted(stage_succeeded(*stage).to_owned(), Tone::Green));
            },
            Notice::Failed { error, detail } => {
                return failure_message(*error, detail.as_str());
            },
        }
        r
    }

    /// The notice as it is to be written, styled where the process has
    /// colours switched on.
    pub fn render(&self) -> (r: String)
        ensures
            renders(r@, notice_segments(self@)),
    {
        paint_all(&self.segments())
    }
}

/// The text of a version marker, if there is one.
pub open spec fn marker_text(marker: Option<&str>) -> Option<Seq<char>> {
    match marker {
        Some(text) => Some(text@),
        None => None,
    }
}

/// The segments of the line that shows the application's own version.
/// `marker` is what the version marker holds, or nothing where there is no
/// marker.
pub fn app_version_message(marker: Option<&str>) -> (segments: Vec<Segment>)
    ensures
        segment_views(segments@) == app_version_segments(marker_text(marker)),
{
    let mut segments: Vec<Segment> = Vec::new();
    match marker {
        Some(text) => {
            segments.push(plain("Version: ".to_owned()));
            segments.push(tinted(trim(text).to_owned(), Tone::BrightMagenta));
            segments.push(plain("\n".to_owned()));
        },
        None => {
            segments.push(Segment { text: "Version: [NOT FOUND]".to_owned(), look: Look::Dimmed });
            segments.push(plain("\n".to_owned()));
        },
    }
    segments
}

/// The line that shows the application's own version, styled where the
/// process has colours switched on.
pub fn get_app_version(marker: Option<&str>) -> (r: String)
    ensures
        renders(r@, app_version_segments(marker_text(marker))),
{
    paint_all(&app_version_message(marker))
}

} // verus!
