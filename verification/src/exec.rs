//! What the gateway asks of the container engine to launch a process.
use crate::cli::{ContainerArgs, ContainerArgsView};
use crate::error::{GatewayError, GatewayErrorView};
use crate::text::texts;
use vstd::prelude::*;
use vstd::string::StringExecFns;

verus! {

/// The command that runs inside the container: an interactive shell.
pub const EXEC_SHELL: &'static str = "bash";

/// Whether stopped containers are listed too when a request is resolved.
pub const LIST_ALL_CONTAINERS: bool = true;

/// How a process is created inside a container.
#[derive(Debug)]
pub struct ExecOptions {
    pub attach_stdin: bool,
    pub attach_stdout: bool,
    pub attach_stderr: bool,
    pub tty: bool,
    pub cmd: Vec<String>,
    pub user: Option<String>,
}

/// The mathematical value of an `ExecOptions`.
pub struct ExecOptionsView {
    pub attach_stdin: bool,
    pub attach_stdout: bool,
    pub attach_stderr: bool,
    pub tty: bool,
    pub cmd: Seq<Seq<char>>,
    pub user: Option<Seq<char>>,
}

impl View for ExecOptions {
    type V = ExecOptionsView;

    open spec fn view(&self) -> ExecOptionsView {
        ExecOptionsView {
            attach_stdin: self.attach_stdin,
            attach_stdout: self.attach_stdout,
            attach_stderr: self.attach_stderr,
            tty: self.tty,
            cmd: texts(self.cmd@),
            user: match self.user {
                Some(u) => Some(u@),
                None => None,
            },
        }
    }
}

/// How a created process is started.
#[derive(Clone, Copy, Debug, PartialEq, Eq, Structural)]
pub struct StartOptions {
    pub detach: bool,
}

/// What the engine hands back for a started process: the two ends of its
/// streams when it runs attached, nothing when it runs detached.
pub enum StartedProcess<O, I> {
    Attached { output: O, input: I },
    Detached,
}

/// What the gateway asks of the outside while it serves an exec request.
#[derive(Debug)]
pub enum ExecAction {
    /// List the engine's containers, stopped ones too if `all`.
    ListContainers { all: bool },
    /// Create a process in the container.
    CreateExec { container_id: String, options: ExecOptions },
    /// Start the created process.
    StartExec { exec_id: String, start_options: StartOptions },
    /// Acknowledge the request as served; if `bridge`, forward the process's
    /// output to the channel from now on.
    Accept { bridge: bool },
    /// Acknowledge the request as failed, for this reason.
    Reject(GatewayError),
}

/// The mathematical value of an `ExecAction`.
pub enum ExecActionView {
    ListContainers { all: bool },
    CreateExec { container_id: Seq<char>, options: ExecOptionsView },
    StartExec { exec_id: Seq<char>, start_options: StartOptions },
    Accept { bridge: bool },
    Reject(GatewayErrorView),
}

impl View for ExecAction {
    type V = ExecActionView;

    open spec fn view(&self) -> ExecActionView {
        match self {
            ExecAction::ListContainers { all } => ExecActionView::ListContainers { all: *all },
            ExecAction::CreateExec { container_id, options } => ExecActionView::CreateExec {
                container_id: container_id@,
                options: options@,
            },
            ExecAction::StartExec { exec_id, start_options } => ExecActionView::StartExec {
                exec_id: exec_id@,
                start_options: *start_options,
            },
            ExecAction::Accept { bridge } => ExecActionView::Accept { bridge: *bridge },
            ExecAction::Reject(e) => ExecActionView::Reject(e@),
        }
    }
}

/// The options of the interactive process that serves a request: all three
/// standard streams attached, a terminal allocated, the shell as command,
/// and the requested user, where one was requested.
pub open spec fn shell_options(args: ContainerArgsView) -> ExecOptionsView {
    ExecOptionsView {
        attach_stdin: true,
        attach_stdout: true,
        attach_stderr: true,
        tty: true,
        cmd: seq![EXEC_SHELL@],
        user: args.user,
    }
}

/// The options under which the created process is started: attached.
pub open spec fn attached_start() -> StartOptions {
    StartOptions { detach: false }
}

/// Builds the options of the interactive process for a request.
pub fn exec_options(args: &ContainerArgs) -> (options: ExecOptions)
    ensures
        options@ == shell_options(args@),
{
    let mut cmd: Vec<String> = Vec::new();
    cmd.push(String::from_str(EXEC_SHELL));
    let user = match &args.user {
        Some(u) => Some(u.clone()),
        None => None,
    };
    let options = ExecOptions {
        attach_stdin: true,
        attach_stdout: true,
        attach_stderr: true,
        tty: true,
        cmd,
        user,
    };
    assert(options@.cmd =~= seq![EXEC_SHELL@]);
    options
}

} // verus!
