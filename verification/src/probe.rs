//! The probe of the Python toolchain.
//!
//! The probe runs up to three short commands: one that asks the interpreter
//! for its version, path and platform, and one for each notebook package.
//! This module decides which command comes next and what its outcome means;
//! the caller runs the commands.

use crate::text::{lines_of, split_lines, text_view, trim, trimmed};
use vstd::prelude::*;
use vstd::utf8::{decode_utf8, valid_utf8};

verus! {

/// Name under which the interpreter is looked up.
pub const INTERPRETER: &'static str = "python";

/// Flag that makes the interpreter run the program given as next argument.
pub const INLINE_FLAG: &'static str = "-c";

/// Program that prints version, path and platform, one per line.
pub const INTERPRETER_SCRIPT: &'static str =
    "import sys; import platform; print(f'{sys.version_info.major}.{sys.version_info.minor}.{sys.version_info.micro}'); print(sys.executable); print(platform.platform())";

/// Program that prints the version of JupyterLab.
pub const JUPYTERLAB_SCRIPT: &'static str = "import jupyterlab; print(jupyterlab.__version__)";

/// Program that prints the version of Jupyter Notebook.
pub const NOTEBOOK_SCRIPT: &'static str = "import notebook; print(notebook.__version__)";

/// Value of a field for which the interpreter printed no line.
pub const UNKNOWN: &'static str = "unknown";

/// What a failed detection's message begins with.
pub const DETECTION_MESSAGE: &'static str = "检测 Python 环境失败";

/// Snapshot of the detected Python toolchain.
#[derive(Debug, PartialEq, Eq)]
pub struct PythonInfo {
    pub python_version: String,
    pub python_executable: String,
    pub platform: String,
    pub jupyterlab_installed: bool,
    pub jupyterlab_version: Option<String>,
    pub jupyter_notebook_installed: bool,
    pub jupyter_notebook_version: Option<String>,
}

/// Mathematical model of a [`PythonInfo`].
pub ghost struct PythonInfoView {
    pub python_version: Seq<char>,
    pub python_executable: Seq<char>,
    pub platform: Seq<char>,
    pub jupyterlab_installed: bool,
    pub jupyterlab_version: Option<Seq<char>>,
    pub jupyter_notebook_installed: bool,
    pub jupyter_notebook_version: Option<Seq<char>>,
}

impl PythonInfoView {
    /// A package has a version exactly when it is installed.
    pub open spec fn well_formed(self) -> bool {
        &&& self.jupyterlab_installed == self.jupyterlab_version.is_some()
        &&& self.jupyter_notebook_installed == self.jupyter_notebook_version.is_some()
    }
}

impl View for PythonInfo {
    type V = PythonInfoView;

    open spec fn view(&self) -> PythonInfoView {
        PythonInfoView {
            python_version: self.python_version@,
            python_executable: self.python_executable@,
            platform: self.platform@,
            jupyterlab_installed: self.jupyterlab_installed,
            jupyterlab_version: text_view(self.jupyterlab_version),
            jupyter_notebook_installed: self.jupyter_notebook_installed,
            jupyter_notebook_version: text_view(self.jupyter_notebook_version),
        }
    }
}

impl PythonInfo {
    /// Whether the snapshot satisfies its invariant.
    pub open spec fn well_formed(&self) -> bool {
        self@.well_formed()
    }
}

/// Why a detection failed.
#[derive(Debug, Clone, Copy, PartialEq, Eq, Structural)]
pub enum DetectionError {
    /// The interpreter could not be launched at all.
    InterpreterUnavailable,
}

impl DetectionError {
    /// The message of the failure, fit to be shown: what failed, then the
    /// cause as the caller has it in words.
    pub fn message(&self, cause: &str) -> (message: String)
        ensures
            message@ == DETECTION_MESSAGE@ + ": "@ + cause@,
    {
        DETECTION_MESSAGE.to_owned().concat(": ").concat(cause)
    }
}

/// What became of one command.
#[derive(Debug, PartialEq, Eq)]
pub enum RunOutcome {
    /// The process could not be launched.
    LaunchFailed,
    /// The process ran and ended.
    Exited { success: bool, stdout: Vec<u8> },
}

/// Mathematical model of a [`RunOutcome`].
pub ghost enum OutcomeView {
    LaunchFailed,
    Exited { success: bool, stdout: Seq<u8> },
}

impl View for RunOutcome {
    type V = OutcomeView;

    open spec fn view(&self) -> OutcomeView {
        match self {
            RunOutcome::LaunchFailed => OutcomeView::LaunchFailed,
            RunOutcome::Exited { success, stdout } => OutcomeView::Exited {
                success: *success,
                stdout: stdout@,
            },
        }
    }
}

/// Text that `String::from_utf8_lossy` makes of `bytes`.
pub uninterp spec fn lossy_text(bytes: Seq<u8>) -> Seq<char>;

/// Calls `String::from_utf8_lossy`, which decodes `bytes` as UTF-8 and puts
/// U+FFFD in place of what is not valid. The result is a function of the
/// bytes alone; of valid UTF-8 it is the text that the bytes encode.
#[verifier::external_body]
fn decode_lossy(bytes: &[u8]) -> (text: String)
    ensures
        text@ == lossy_text(bytes@),
        valid_utf8(bytes@) ==> text@ == decode_utf8(bytes@),
{
    String::from_utf8_lossy(bytes).into_owned()
}

/// The text that `bytes` hold: what they encode where they are valid UTF-8,
/// and what the lossy decoding makes of them where they are not.
pub open spec fn decoded(bytes: Seq<u8>) -> Seq<char> {
    if valid_utf8(bytes) {
        decode_utf8(bytes)
    } else {
        lossy_text(bytes)
    }
}

/// The line of the given index, or `"unknown"` where there is no such line.
pub open spec fn field_at(lines: Seq<Seq<char>>, index: int) -> Seq<char> {
    if 0 <= index < lines.len() {
        lines[index]
    } else {
        UNKNOWN@
    }
}

/// Version, path and platform as `text` gives them, one per line and in
/// this order.
pub open spec fn fields_of(text: Seq<char>) -> (Seq<char>, Seq<char>, Seq<char>) {
    let lines = lines_of(text);
    (field_at(lines, 0), field_at(lines, 1), field_at(lines, 2))
}

/// What the interpreter's output says of version, path and platform.
pub open spec fn interpreter_fields(stdout: Seq<u8>) -> (Seq<char>, Seq<char>, Seq<char>) {
    fields_of(decoded(stdout))
}

/// Whether a package is installed, and in which version, as the outcome of
/// its command tells.
pub open spec fn presence(outcome: OutcomeView) -> (bool, Option<Seq<char>>) {
    match outcome {
        OutcomeView::Exited { success: true, stdout } => (true, Some(trimmed(decoded(stdout)))),
        _ => (false, None),
    }
}

fn field_of(lines: &Vec<String>, index: usize) -> (field: String)
    ensures
        field@ == field_at(Seq::new(lines.len() as nat, |i: int| lines[i]@), index as int),
{
    if index < lines.len() {
        lines[index].clone()
    } else {
        UNKNOWN.to_owned()
    }
}

/// Reads version, path and platform off the text that the interpreter
/// printed, by line; a line that is missing gives `"unknown"`.
pub fn read_interpreter_text(text: &str) -> (fields: (String, String, String))
    ensures
        (fields.0@, fields.1@, fields.2@) == fields_of(text@),
{
    let lines = split_lines(text);
    assert(Seq::new(lines.len() as nat, |i: int| lines[i]@) =~= lines_of(text@));
    (field_of(&lines, 0), field_of(&lines, 1), field_of(&lines, 2))
}

/// Reads version, path and platform off the interpreter's output.
pub fn read_interpreter_output(stdout: &[u8]) -> (fields: (String, String, String))
    ensures
        (fields.0@, fields.1@, fields.2@) == interpreter_fields(stdout@),
{
    let text = decode_lossy(stdout);
    read_interpreter_text(text.as_str())
}

/// Reads off the outcome of a package's command whether the package is
/// installed. Only a command that ran and succeeded shows an installed
/// package; its trimmed output is the version.
pub fn read_package_outcome(outcome: &RunOutcome) -> (found: (bool, Option<String>))
    ensures
        (found.0, text_view(found.1)) == presence(outcome@),
        found.0 == found.1.is_some(),
{
    match outcome {
        RunOutcome::Exited { success: true, stdout } => {
            let text = decode_lossy(stdout.as_slice());
            (true, Some(trim(text.as_str())))
        },
        _ => (false, None),
    }
}

/// A command for the caller to run.
#[derive(Debug, PartialEq, Eq)]
pub struct ProbeCommand {
    pub program: String,
    pub args: Vec<String>,
}

/// Mathematical model of a [`ProbeCommand`].
pub ghost struct CommandView {
    pub program: Seq<char>,
    pub args: Seq<Seq<char>>,
}

impl View for ProbeCommand {
    type V = CommandView;

    open spec fn view(&self) -> CommandView {
        CommandView {
            program: self.program@,
            args: Seq::new(self.args.len() as nat, |i: int| self.args[i]@),
        }
    }
}

/// The command that has the interpreter run `script`.
pub open spec fn inline_command(script: Seq<char>) -> CommandView {
    CommandView { program: INTERPRETER@, args: seq![INLINE_FLAG@, script] }
}

/// The three commands of a probe, in the order in which they run.
#[derive(Debug, Clone, Copy, PartialEq, Eq, Structural)]
pub enum ProbeStage {
    Interpreter,
    JupyterLab,
    Notebook,
}

impl ProbeStage {
    /// The program that the interpreter runs at this stage.
    pub open spec fn script(self) -> Seq<char> {
        match self {
            ProbeStage::Interpreter => INTERPRETER_SCRIPT@,
            ProbeStage::JupyterLab => JUPYTERLAB_SCRIPT@,
            ProbeStage::Notebook => NOTEBOOK_SCRIPT@,
        }
    }
}

/// A probe under way: the stage whose command runs next, and what the
/// earlier stages found.
#[derive(Debug)]
pub struct Probe {
    stage: ProbeStage,
    info: PythonInfo,
}

/// Mathematical model of a [`Probe`].
pub ghost struct ProbeView {
    pub stage: ProbeStage,
    pub info: PythonInfoView,
}

/// What a probe does with an outcome: it goes on, or it ends.
#[derive(Debug)]
pub enum ProbeStep {
    /// Another command has to run.
    Next(Probe),
    /// The probe is over.
    Done(Result<PythonInfo, DetectionError>),
}

/// Mathematical model of a [`ProbeStep`].
pub ghost enum StepView {
    Next(ProbeView),
    Done(Result<PythonInfoView, DetectionError>),
}

impl View for ProbeStep {
    type V = StepView;

    open spec fn view(&self) -> StepView {
        match self {
            ProbeStep::Next(probe) => StepView::Next(probe@),
            ProbeStep::Done(Ok(info)) => StepView::Done(Ok(info@)),
            ProbeStep::Done(Err(e)) => StepView::Done(Err(*e)),
        }
    }
}

impl ProbeView {
    /// A probe of which no command has run.
    pub open spec fn initial() -> ProbeView {
        ProbeView {
            stage: ProbeStage::Interpreter,
            info: PythonInfoView {
                python_version: UNKNOWN@,
                python_executable: UNKNOWN@,
                platform: UNKNOWN@,
                jupyterlab_installed: false,
                jupyterlab_version: None,
                jupyter_notebook_installed: false,
                jupyter_notebook_version: None,
            },
        }
    }

    /// The command whose outcome the probe waits for.
    pub open spec fn command(self) -> CommandView {
        inline_command(self.stage.script())
    }

    /// What the probe becomes when its command ended with `outcome`.
    ///
    /// The interpreter's command ends the probe only where it could not be
    /// launched; how it exited is not looked at. Neither package command
    /// can fail the probe.
    pub open spec fn advance(self, outcome: OutcomeView) -> StepView {
        match self.stage {
            ProbeStage::Interpreter => match outcome {
                OutcomeView::LaunchFailed => StepView::Done(
                    Err(DetectionError::InterpreterUnavailable),
                ),
                OutcomeView::Exited { stdout, .. } => {
                    let fields = interpreter_fields(stdout);
                    StepView::Next(
                        ProbeView {
                            stage: ProbeStage::JupyterLab,
                            info: PythonInfoView {
                                python_version: fields.0,
                                python_executable: fields.1,
                                platform: fields.2,
                                ..self.info
                            },
                        },
                    )
                },
            },
            ProbeStage::JupyterLab => {
                let found = presence(outcome);
                StepView::Next(
                    ProbeView {
                        stage: ProbeStage::Notebook,
                        info: PythonInfoView {
                            jupyterlab_installed: found.0,
                            jupyterlab_version: found.1,
                            ..self.info
                        },
                    },
                )
            },
            ProbeStage::Notebook => {
                let found = presence(outcome);
                StepView::Done(
                    Ok(
                        PythonInfoView {
                            jupyter_notebook_installed: found.0,
                            jupyter_notebook_version: found.1,
                            ..self.info
                        },
                    ),
                )
            },
        }
    }
}

impl View for Probe {
    type V = ProbeView;

    closed spec fn view(&self) -> ProbeView {
        ProbeView { stage: self.stage, info: self.info@ }
    }
}

impl Probe {
    #[verifier::type_invariant]
    spec fn holds_well_formed_info(&self) -> bool {
        self.info.well_formed()
    }

    /// A probe of which no command has run.
    pub fn start() -> (probe: Probe)
        ensures
            probe@ == ProbeView::initial(),
    {
        Probe {
            stage: ProbeStage::Interpreter,
            info: PythonInfo {
                python_version: UNKNOWN.to_owned(),
                python_executable: UNKNOWN.to_owned(),
                platform: UNKNOWN.to_owned(),
                jupyterlab_installed: false,
                jupyterlab_version: None,
                jupyter_notebook_installed: false,
                jupyter_notebook_version: None,
            },
        }
    }

    /// The stage whose command runs next.
    pub fn stage(&self) -> (stage: ProbeStage)
        ensures
            stage == self@.stage,
    {
        self.stage
    }

    /// The command to run next.
    pub fn command(&self) -> (command: ProbeCommand)
        ensures
            command@ == self@.command(),
    {
        let script = match self.stage {
            ProbeStage::Interpreter => INTERPRETER_SCRIPT,
            ProbeStage::JupyterLab => JUPYTERLAB_SCRIPT,
            ProbeStage::Notebook => NOTEBOOK_SCRIPT,
        };
        let mut args: Vec<String> = Vec::new();
        args.push(INLINE_FLAG.to_owned());
        args.push(script.to_owned());
        let command = ProbeCommand { program: INTERPRETER.to_owned(), args };
        assert(command@.args =~= seq![INLINE_FLAG@, script@]);
        command
    }

    /// Takes the outcome of the command that [`Probe::command`] gave, and
    /// says how the probe goes on.
    pub fn advance(self, outcome: &RunOutcome) -> (step: ProbeStep)
        ensures
            step@ == self@.advance(outcome@),
            step matches ProbeStep::Done(Ok(info)) ==> info.well_formed(),
    {
        proof {
            use_type_invariant(&self);
        }
        let Probe { stage, info } = self;
        match stage {
            ProbeStage::Interpreter => match outcome {
                RunOutcome::LaunchFailed => ProbeStep::Done(
                    Err(DetectionError::InterpreterUnavailable),
                ),
                RunOutcome::Exited { stdout, .. } => {
                    let (python_version, python_executable, platform) = read_interpreter_output(
                        stdout.as_slice(),
                    );
                    ProbeStep::Next(
                        Probe {
                            stage: ProbeStage::JupyterLab,
                            info: PythonInfo {
                                python_version,
                                python_executable,
                                platform,
                                jupyterlab_installed: info.jupyterlab_installed,
                                jupyterlab_version: info.jupyterlab_version,
                                jupyter_notebook_installed: info.jupyter_notebook_installed,
                                jupyter_notebook_version: info.jupyter_notebook_version,
                            },
                        },
                    )
                },
            },
            ProbeStage::JupyterLab => {
                let (installed, version) = read_package_outcome(outcome);
                ProbeStep::Next(
                    Probe {
                        stage: ProbeStage::Notebook,
                        info: PythonInfo {
                            python_version: info.python_version,
                            python_executable: info.python_executable,
                            platform: info.platform,
                            jupyterlab_installed: installed,
                            jupyterlab_version: version,
                            jupyter_notebook_installed: info.jupyter_notebook_installed,
                            jupyter_notebook_version: info.jupyter_notebook_version,
                        },
                    },
                )
            },
            ProbeStage::Notebook => {
                let (installed, version) = read_package_outcome(outcome);
                ProbeStep::Done(
                    Ok(
                        PythonInfo {
                            python_version: info.python_version,
                            python_executable: info.python_executable,
                            platform: info.platform,
                            jupyterlab_installed: info.jupyterlab_installed,
                            jupyterlab_version: info.jupyterlab_version,
                            jupyter_notebook_installed: installed,
                            jupyter_notebook_version: version,
                        },
                    ),
                )
            },
        }
    }
}

/// What a whole probe finds, given the outcomes of its three commands.
pub open spec fn detection(
    interpreter: OutcomeView,
    jupyterlab: OutcomeView,
    notebook: OutcomeView,
) -> Result<PythonInfoView, DetectionError> {
    match interpreter {
        OutcomeView::LaunchFailed => Err(DetectionError::InterpreterUnavailable),
        OutcomeView::Exited { stdout, .. } => {
            let fields = interpreter_fields(stdout);
            let lab = presence(jupyterlab);
            let book = presence(notebook);
            Ok(
                PythonInfoView {
                    python_version: fields.0,
                    python_executable: fields.1,
                    platform: fields.2,
                    jupyterlab_installed: lab.0,
                    jupyterlab_version: lab.1,
                    jupyter_notebook_installed: book.0,
                    jupyter_notebook_version: book.1,
                },
            )
        },
    }
}

/// A probe runs its three commands in order and ends with what
/// [`detection`] says of their outcomes; where the interpreter cannot be
/// launched it ends at once, and no package command runs.
pub proof fn lemma_probe_ends_with_detection(
    interpreter: OutcomeView,
    jupyterlab: OutcomeView,
    notebook: OutcomeView,
)
    ensures
        ProbeView::initial().command() == inline_command(INTERPRETER_SCRIPT@),
        interpreter is LaunchFailed ==> ProbeView::initial().advance(interpreter) == StepView::Done(
            detection(interpreter, jupyterlab, notebook),
        ),
        interpreter is Exited ==> ({
            let first = ProbeView::initial().advance(interpreter);
            &&& first is Next
            &&& first->Next_0.command() == inline_command(JUPYTERLAB_SCRIPT@)
            &&& ({
                let second = first->Next_0.advance(jupyterlab);
                &&& second is Next
                &&& second->Next_0.command() == inline_command(NOTEBOOK_SCRIPT@)
                &&& second->Next_0.advance(notebook) == StepView::Done(
                    detection(interpreter, jupyterlab, notebook),
                )
            })
        }),
{
}

/// Once the interpreter was launched, detection succeeds whatever was
/// printed, and a field whose line is missing from the output reads
/// `"unknown"`.
pub proof fn lemma_missing_lines_read_unknown(
    stdout: Seq<u8>,
    success: bool,
    jupyterlab: OutcomeView,
    notebook: OutcomeView,
)
    ensures
        detection(OutcomeView::Exited { success, stdout }, jupyterlab, notebook) is Ok,
        ({
            let info = detection(
                OutcomeView::Exited { success, stdout },
                jupyterlab,
                notebook,
            )->Ok_0;
            let lines = lines_of(decoded(stdout)).len();
            &&& lines < 1 ==> info.python_version == UNKNOWN@
            &&& lines < 2 ==> info.python_executable == UNKNOWN@
            &&& lines < 3 ==> info.platform == UNKNOWN@
        }),
{
}

/// A package whose command could not be launched, or did not succeed, is
/// not installed and has no version; nothing else comes of such a command.
pub proof fn lemma_failed_package_command_means_absent(outcome: OutcomeView)
    requires
        outcome is LaunchFailed || !outcome->success,
    ensures
        presence(outcome) == (false, None::<Seq<char>>),
{
}

/// Every detection that succeeds gives a well-formed snapshot.
pub proof fn lemma_detection_is_well_formed(
    interpreter: OutcomeView,
    jupyterlab: OutcomeView,
    notebook: OutcomeView,
)
    ensures
        detection(interpreter, jupyterlab, notebook) matches Ok(info) ==> info.well_formed(),
{
}

} // verus!
