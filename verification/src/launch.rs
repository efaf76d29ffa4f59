//! How the backend process is launched and how its output is labelled.

use vstd::prelude::*;
use vstd::string::*;

verus! {

/// The shell convention of the host.
#[derive(Clone, Copy, Debug, PartialEq, Eq, Structural)]
pub enum Platform {
    Unix,
    Windows,
}

/// What a standard stream of the child is connected to.
#[derive(Clone, Copy, Debug, PartialEq, Eq, Structural)]
pub enum StdioMode {
    /// Nothing: reads end at once, writes are discarded.
    Closed,
    /// A pipe whose other end the parent holds.
    Piped,
    /// The parent's own stream.
    Inherited,
}

/// One variable of the child's environment.
#[derive(Clone, Debug, PartialEq, Eq)]
pub struct EnvVar {
    pub name: String,
    pub value: String,
}

/// Everything the host needs to start the backend: a shell, its arguments,
/// the variables added to the environment, and the wiring of the three
/// standard streams.
#[derive(Clone, Debug, PartialEq, Eq)]
pub struct LaunchPlan {
    pub program: String,
    pub args: Vec<String>,
    pub env: Vec<EnvVar>,
    pub stdin: StdioMode,
    pub stdout: StdioMode,
    pub stderr: StdioMode,
}

/// The shell that interprets the command.
pub open spec fn shell_of(platform: Platform) -> Seq<char> {
    match platform {
        Platform::Unix => "sh"@,
        Platform::Windows => "cmd"@,
    }
}

/// The shell's flag that announces a command string.
pub open spec fn shell_flag_of(platform: Platform) -> Seq<char> {
    match platform {
        Platform::Unix => "-lc"@,
        Platform::Windows => "/C"@,
    }
}

/// A plan that runs `command` through the host shell, passes the origin
/// list and the unbuffered-output hint in the environment, closes standard
/// input and captures both output streams.
pub open spec fn plan_runs(
    plan: LaunchPlan,
    platform: Platform,
    command: Seq<char>,
    origins: Seq<char>,
) -> bool {
    &&& plan.program@ == shell_of(platform)
    &&& plan.args@.len() == 2
    &&& plan.args@[0]@ == shell_flag_of(platform)
    &&& plan.args@[1]@ == command
    &&& plan.env@.len() == 2
    &&& plan.env@[0].name@ == "AGENT_STUDIO_ALLOW_CORS_ORIGINS"@
    &&& plan.env@[0].value@ == origins
    &&& plan.env@[1].name@ == "PYTHONUNBUFFERED"@
    &&& plan.env@[1].value@ == "1"@
    &&& plan.stdin == StdioMode::Closed
    &&& plan.stdout == StdioMode::Piped
    &&& plan.stderr == StdioMode::Piped
}

/// Builds the launch of `command` for the given platform.
pub fn launch_plan(platform: Platform, command: &str, origins: &str) -> (plan: LaunchPlan)
    ensures
        plan_runs(plan, platform, command@, origins@),
{
    let (program, flag) = match platform {
        Platform::Unix => (String::from_str("sh"), String::from_str("-lc")),
        Platform::Windows => (String::from_str("cmd"), String::from_str("/C")),
    };
    let mut args: Vec<String> = Vec::new();
    args.push(flag);
    args.push(String::from_str(command));
    let mut env: Vec<EnvVar> = Vec::new();
    env.push(
        EnvVar {
            name: String::from_str("AGENT_STUDIO_ALLOW_CORS_ORIGINS"),
            value: String::from_str(origins),
        },
    );
    env.push(EnvVar { name: String::from_str("PYTHONUNBUFFERED"), value: String::from_str("1") });
    LaunchPlan {
        program,
        args,
        env,
        stdin: StdioMode::Closed,
        stdout: StdioMode::Piped,
        stderr: StdioMode::Piped,
    }
}

/// One of the two output streams of the child.
#[derive(Clone, Copy, Debug, PartialEq, Eq, Structural)]
pub enum StreamSource {
    Stdout,
    Stderr,
}

/// The label put in front of each line of a stream.
pub open spec fn tag_of(source: StreamSource) -> Seq<char> {
    match source {
        StreamSource::Stdout => "[backend stdout] "@,
        StreamSource::Stderr => "[backend stderr] "@,
    }
}

/// The line as it is handed to the sink: the stream's label, then the line
/// unchanged.
pub fn tag_line(source: StreamSource, line: &str) -> (tagged: String)
    ensures
        tagged@ == tag_of(source) + line@,
{
    let mut tagged = match source {
        StreamSource::Stdout => String::from_str("[backend stdout] "),
        StreamSource::Stderr => String::from_str("[backend stderr] "),
    };
    tagged.append(line);
    tagged
}

/// The name of the unit of concurrency that drains a stream.
pub fn relay_name(source: StreamSource) -> (name: String)
    ensures
        name@ == match source {
            StreamSource::Stdout => "agent_studio_backend_stdout"@,
            StreamSource::Stderr => "agent_studio_backend_stderr"@,
        },
{
    match source {
        StreamSource::Stdout => String::from_str("agent_studio_backend_stdout"),
        StreamSource::Stderr => String::from_str("agent_studio_backend_stderr"),
    }
}

} // verus!
