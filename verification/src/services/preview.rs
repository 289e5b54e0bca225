//! Assembling a page and rendering its previews.
//!
//! Both jobs are done by external programs. This module decides how each
//! program is invoked and what its outcome means; starting the program and
//! touching the file system is left to the caller.

use vstd::prelude::*;
use vstd::string::*;
use vstd::utf8::{decode_utf8, valid_utf8};
use crate::paths::{join, joined, texts};
use crate::services::cleanup::{schedule_delete, Deletion};

verus! {

/// How long the scratch directory of a render is kept, in seconds.
pub const RENDER_CLEANUP_DELAY_SECS: u64 = 120;

/// The two images of one render: the mobile and the desktop screenshot.
#[derive(Debug)]
pub struct Preview {
    pub mobile: String,
    pub desktop: String,
}

/// What a preview pair means: the texts of its two paths.
pub struct PreviewView {
    pub mobile: Seq<char>,
    pub desktop: Seq<char>,
}

impl View for Preview {
    type V = PreviewView;

    open spec fn view(&self) -> PreviewView {
        PreviewView { mobile: self.mobile@, desktop: self.desktop@ }
    }
}

impl Default for Preview {
    /// The pair of two empty paths.
    fn default() -> (preview: Self)
        ensures
            preview@ == (PreviewView { mobile: Seq::empty(), desktop: Seq::empty() }),
    {
        Preview { mobile: String::new(), desktop: String::new() }
    }
}

impl Preview {
    /// A copy of the pair.
    pub fn duplicate(&self) -> (copy: Self)
        ensures
            copy@ == self@,
    {
        Preview { mobile: self.mobile.clone(), desktop: self.desktop.clone() }
    }
}

/// A command line: the program to start and its arguments in order.
pub struct Invocation {
    pub program: String,
    pub args: Vec<String>,
}

/// What a command line means: the texts of the program and its arguments.
pub struct InvocationView {
    pub program: Seq<char>,
    pub args: Seq<Seq<char>>,
}

impl View for Invocation {
    type V = InvocationView;

    open spec fn view(&self) -> InvocationView {
        InvocationView { program: self.program@, args: texts(self.args@) }
    }
}

/// How an external program ended.
pub enum ProcessResult {
    /// The program ran to its end.
    Exited { success: bool, stdout: Vec<u8>, stderr: Vec<u8> },
    /// The program could not be started, for the reason given.
    NotStarted { reason: String },
}

/// Why a page could not be assembled.
pub enum AssemblyError {
    /// The build program failed; the text is what it wrote to its error
    /// stream, or why it could not be started.
    ProcessFailed(String),
    /// The build program's output is not valid text.
    EncodingError,
}

/// Why a preview could not be rendered.
#[derive(PartialEq, Eq, Structural, Clone, Copy, Debug)]
pub enum RenderError {
    /// The scratch directory or the page file could not be written.
    IoFailure,
    /// The render program failed or could not be started.
    ProcessFailed,
}

/// The text of `String::from_utf8_lossy(bytes)`.
pub uninterp spec fn lossy_text(bytes: Seq<u8>) -> Seq<char>;

/// Calls `String::from_utf8` on `bytes`. The standard library accepts
/// exactly the valid UTF-8 encodings and then yields the text they encode.
#[verifier::external_body]
fn text_from_utf8(bytes: Vec<u8>) -> (text: Option<String>)
    ensures
        match text {
            Some(s) => valid_utf8(bytes@) && s@ == decode_utf8(bytes@),
            None => !valid_utf8(bytes@),
        },
{
    match String::from_utf8(bytes) {
        Ok(text) => Some(text),
        Err(_) => None,
    }
}

/// Calls `String::from_utf8_lossy` on `bytes`. The result is named; of
/// valid UTF-8 the standard library promises the text unchanged.
#[verifier::external_body]
fn text_from_utf8_lossy(bytes: &Vec<u8>) -> (text: String)
    ensures
        text@ == lossy_text(bytes@),
        valid_utf8(bytes@) ==> text@ == decode_utf8(bytes@),
{
    String::from_utf8_lossy(bytes).into_owned()
}

/// The binding file that a build uses when the caller names none.
pub open spec fn default_binding() -> Seq<char> {
    joined("scripts/"@, "default.json"@)
}

/// The arguments of a build: the script, then the page, the style sheet,
/// the script file and the binding file.
pub open spec fn builder_args(
    html: Seq<char>,
    css: Seq<char>,
    js: Seq<char>,
    data: Option<Seq<char>>,
) -> Seq<Seq<char>> {
    seq![
        "run"@,
        "scripts/builder.js"@,
        html,
        css,
        js,
        match data {
            Some(path) => path,
            None => default_binding(),
        },
    ]
}

/// The command line that assembles one page from the sources at `html`,
/// `css` and `js`, with the bindings at `data` or, where that is absent,
/// the default bindings.
pub fn builder_invocation(html: &str, css: &str, js: &str, data: Option<String>) -> (command:
    Invocation)
    ensures
        command@.program == "bun"@,
        command@.args == builder_args(
            html@,
            css@,
            js@,
            match data {
                Some(path) => Some(path@),
                None => None,
            },
        ),
{
    let data_path = match data {
        Some(path) => path,
        None => join("scripts/", "default.json"),
    };
    let mut args: Vec<String> = Vec::new();
    args.push(String::from_str("run"));
    args.push(String::from_str("scripts/builder.js"));
    args.push(html.to_owned());
    args.push(css.to_owned());
    args.push(js.to_owned());
    args.push(data_path);
    let command = Invocation { program: String::from_str("bun"), args };
    assert(command@.args =~= builder_args(
        html@,
        css@,
        js@,
        match data {
            Some(path) => Some(path@),
            None => None,
        },
    ));
    command
}

/// What the outcome of a build means. A build that ended well and wrote
/// valid text yields that text. One that ended badly fails with what it
/// wrote to its error stream, read as text with every invalid sequence
/// replaced; one that could not be started fails with the reason; one that
/// wrote something other than text fails as such.
pub fn assembled_html(outcome: ProcessResult) -> (page: Result<String, AssemblyError>)
    ensures
        match outcome {
            ProcessResult::Exited { success, stdout, stderr } => if !success {
                page matches Err(AssemblyError::ProcessFailed(message)) && message@ == lossy_text(
                    stderr@,
                ) && (valid_utf8(stderr@) ==> message@ == decode_utf8(stderr@))
            } else if valid_utf8(stdout@) {
                page matches Ok(html) && html@ == decode_utf8(stdout@)
            } else {
                page matches Err(AssemblyError::EncodingError)
            },
            ProcessResult::NotStarted { reason } => page matches Err(
                AssemblyError::ProcessFailed(message),
            ) && message@ == reason@,
        },
{
    match outcome {
        ProcessResult::Exited { success, stdout, stderr } => {
            if !success {
                Err(AssemblyError::ProcessFailed(text_from_utf8_lossy(&stderr)))
            } else {
                match text_from_utf8(stdout) {
                    Some(html) => Ok(html),
                    None => Err(AssemblyError::EncodingError),
                }
            }
        },
        ProcessResult::NotStarted { reason } => Err(AssemblyError::ProcessFailed(reason)),
    }
}

/// Everything a render needs to know before it starts.
pub struct RenderPlan {
    /// Where the page is written, inside the scratch directory.
    pub html_path: String,
    /// Where the two images are written.
    pub targets: Preview,
    /// The command line of the render program.
    pub command: Invocation,
    /// The removal of the scratch directory, to be ordered whatever
    /// becomes of the render.
    pub cleanup: Deletion,
}

/// Where a render writes its images: the places the caller asks for, or,
/// where the caller asks for none, two files in the scratch directory.
pub open spec fn render_targets(scratch: Seq<char>, target: Option<PreviewView>) -> PreviewView {
    match target {
        Some(pair) => pair,
        None => PreviewView {
            mobile: joined(scratch, "mobile_preview.png"@),
            desktop: joined(scratch, "desktop_preview.png"@),
        },
    }
}

/// The arguments of a render: the script, then the page and the two images.
pub open spec fn render_args(html_path: Seq<char>, targets: PreviewView) -> Seq<Seq<char>> {
    seq!["run"@, "scripts/screenshot.js"@, html_path, targets.mobile, targets.desktop]
}

/// Plans one render in the fresh scratch directory `scratch_dir`: the page
/// goes to `preview.html` in it, the images go to `target` or else into the
/// scratch directory as well, and the scratch directory is removed
/// `RENDER_CLEANUP_DELAY_SECS` seconds later.
pub fn render_plan(scratch_dir: &str, target: Option<Preview>) -> (plan: RenderPlan)
    ensures
        plan.html_path@ == joined(scratch_dir@, "preview.html"@),
        plan.targets@ == render_targets(
            scratch_dir@,
            match target {
                Some(pair) => Some(pair@),
                None => None,
            },
        ),
        plan.command@.program == "bun"@,
        plan.command@.args == render_args(plan.html_path@, plan.targets@),
        plan.cleanup.directory@ == scratch_dir@,
        plan.cleanup.delay_secs == RENDER_CLEANUP_DELAY_SECS,
{
    let html_path = join(scratch_dir, "preview.html");
    let targets = match target {
        Some(pair) => pair,
        None => Preview {
            mobile: join(scratch_dir, "mobile_preview.png"),
            desktop: join(scratch_dir, "desktop_preview.png"),
        },
    };
    let mut args: Vec<String> = Vec::new();
    args.push(String::from_str("run"));
    args.push(String::from_str("scripts/screenshot.js"));
    args.push(html_path.clone());
    args.push(targets.mobile.clone());
    args.push(targets.desktop.clone());
    let command = Invocation { program: String::from_str("bun"), args };
    assert(command@.args =~= render_args(html_path@, targets@));
    RenderPlan {
        html_path,
        targets,
        command,
        cleanup: schedule_delete(scratch_dir, RENDER_CLEANUP_DELAY_SECS),
    }
}

/// What happened to a planned render once its scratch directory existed.
pub enum RenderEvent {
    /// The page could not be written into the scratch directory.
    WriteFailed,
    /// The page was written and the render program was started, or was
    /// meant to be.
    Process(ProcessResult),
}

/// How a render ended, and what remains to be done.
pub struct RenderOutcome {
    /// The removal of the scratch directory, which is ordered whether the
    /// render succeeded or not.
    pub cleanup: Deletion,
    /// The pair of images, or why there is none.
    pub result: Result<Preview, RenderError>,
}

/// What a render yields after `event`: the pair `targets` if the render
/// program ran and ended well, and a failure otherwise.
pub open spec fn render_result(targets: PreviewView, event: RenderEvent) -> Result<
    PreviewView,
    RenderError,
> {
    match event {
        RenderEvent::WriteFailed => Err(RenderError::IoFailure),
        RenderEvent::Process(ProcessResult::Exited { success, .. }) => if success {
            Ok(targets)
        } else {
            Err(RenderError::ProcessFailed)
        },
        RenderEvent::Process(ProcessResult::NotStarted { .. }) => Err(RenderError::ProcessFailed),
    }
}

/// The meaning of the result of a render.
pub open spec fn result_view(result: Result<Preview, RenderError>) -> Result<
    PreviewView,
    RenderError,
> {
    match result {
        Ok(pair) => Ok(pair@),
        Err(reason) => Err(reason),
    }
}

/// Settles the render planned as `plan` after `event`. The planned pair of
/// images is the result if the render program ran and ended well; whether
/// the two images exist is not looked at. In every case, failure included,
/// the removal of the scratch directory is ordered as planned.
pub fn render_outcome(plan: &RenderPlan, event: &RenderEvent) -> (outcome: RenderOutcome)
    ensures
        outcome.cleanup.directory@ == plan.cleanup.directory@,
        outcome.cleanup.delay_secs == plan.cleanup.delay_secs,
        result_view(outcome.result) == render_result(plan.targets@, *event),
{
    let cleanup = schedule_delete(plan.cleanup.directory.as_str(), plan.cleanup.delay_secs);
    let result = match event {
        RenderEvent::WriteFailed => Err(RenderError::IoFailure),
        RenderEvent::Process(ProcessResult::Exited { success, .. }) => {
            if *success {
                Ok(plan.targets.duplicate())
            } else {
                Err(RenderError::ProcessFailed)
            }
        },
        RenderEvent::Process(ProcessResult::NotStarted { .. }) => Err(RenderError::ProcessFailed),
    };
    RenderOutcome { cleanup, result }
}

} // verus!
