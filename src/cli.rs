//! The command line: its subcommands and their arguments.

use vstd::prelude::*;

verus! {

/// Command-line arguments: a subcommand and the debug switch.
#[derive(Debug, Clone)]
pub struct Cli {
    pub command: Option<Command>,
    pub debug: bool,
}

/// The subcommands of the command line.
#[derive(Debug, Clone)]
pub enum Command {
    Build(BuildArgs),
    Cd(CdArgs),
    Describe(DescribeArgs),
    Download(DownloadArgs),
    Env(EnvArgs),
    FindApps(FindAppsArgs),
    FindData(FindDataArgs),
    Format(FormatArgs),
    Lint(LintArgs),
    Login(LoginArgs),
    Logout {},
    Ls(LsArgs),
    Mkdir(MkdirArgs),
    NewProject(NewProjectArgs),
    Pwd {},
    Rm(RmArgs),
    Rmdir(RmdirArgs),
    RmProject(RmProjectArgs),
    Select(SelectArgs),
    Tree(TreeArgs),
    Upload(UploadArgs),
    Watch(WatchArgs),
    Whoami(WhoamiArgs),
    Wizard(WizardArgs),
}

/// Arguments of `build`: the source folder and where to put the result.
#[derive(Debug, Clone)]
pub struct BuildArgs {
    pub src: String,
    pub destination: Option<String>,
    pub force: bool,
}

/// Arguments of `cd`: the folder to change to.
#[derive(Debug, Clone)]
pub struct CdArgs {
    pub dirname: Option<String>,
}

/// Arguments of `describe`: the objects to describe.
#[derive(Debug, Clone)]
pub struct DescribeArgs {
    pub ids: Vec<String>,
    pub json: bool,
    pub try_number: Option<u64>,
}

/// Arguments of `download`: what to fetch and where to write it.
#[derive(Debug, Clone)]
pub struct DownloadArgs {
    pub paths: Vec<String>,
    pub dir: Option<String>,
    pub output: Option<String>,
    pub force: bool,
    pub recursive: bool,
    pub all: bool,
    pub quiet: bool,
}

/// Arguments of `env`.
#[derive(Debug, Clone)]
pub struct EnvArgs {
    pub bash: bool,
}

/// Arguments of `find-apps`: a name pattern.
#[derive(Debug, Clone)]
pub struct FindAppsArgs {
    pub name: Option<String>,
}

/// Arguments of `find-data`: where to search and for what.
#[derive(Debug, Clone)]
pub struct FindDataArgs {
    pub name: Option<String>,
    pub class: Option<String>,
    pub path: Option<String>,
    pub json: bool,
}

/// Arguments of `format`: the manifest to rewrite.
#[derive(Debug, Clone)]
pub struct FormatArgs {
    pub filename: String,
    pub output: String,
}

/// Arguments of `lint`: the manifest to check.
#[derive(Debug, Clone)]
pub struct LintArgs {
    pub filename: String,
}

/// Arguments of `login`.
#[derive(Debug, Clone)]
pub struct LoginArgs {
    pub token: Option<String>,
}

/// Arguments of `ls`: the folders to list and how.
#[derive(Debug, Clone)]
pub struct LsArgs {
    pub paths: Vec<String>,
    pub long: bool,
    pub brief: bool,
    pub all: bool,
    pub human: bool,
}

/// Arguments of `mkdir`: the folders to create.
#[derive(Debug, Clone)]
pub struct MkdirArgs {
    pub paths: Vec<String>,
    pub parents: bool,
}

/// Arguments of `new-project`: the name and settings of the container.
#[derive(Debug, Clone)]
pub struct NewProjectArgs {
    pub project_name: Option<String>,
    pub brief: bool,
    pub select: bool,
    pub phi: bool,
    pub database_ui_view_only: bool,
    pub region: Option<String>,
    pub bill_to: Option<String>,
    pub monthly_compute_limit: Option<u64>,
    pub monthly_egress_bytes_limit: Option<u64>,
}

/// Arguments of `rm`: the objects to remove.
#[derive(Debug, Clone)]
pub struct RmArgs {
    pub paths: Vec<String>,
    pub recursive: bool,
    pub force: bool,
    pub all: bool,
}

/// Arguments of `rmdir`: the folders to remove.
#[derive(Debug, Clone)]
pub struct RmdirArgs {
    pub paths: Vec<String>,
}

/// Arguments of `rm-project`: the containers to remove.
#[derive(Debug, Clone)]
pub struct RmProjectArgs {
    pub projects: Vec<String>,
    pub force: bool,
    pub quiet: bool,
}

/// Arguments of `select`: the container to make current.
#[derive(Debug, Clone)]
pub struct SelectArgs {
    pub project: Option<String>,
    pub level: Option<AccessLevel>,
}

/// Arguments of `tree`: the folder to show.
#[derive(Debug, Clone)]
pub struct TreeArgs {
    pub path: Option<String>,
    pub long: bool,
    pub human: bool,
    pub all: bool,
}

/// Arguments of `upload`: the local files and their destination.
#[derive(Debug, Clone)]
pub struct UploadArgs {
    pub files: Vec<String>,
    pub recursive: bool,
    pub parents: bool,
    pub path: Option<String>,
}

/// Arguments of `watch`: the job whose log to follow.
#[derive(Debug, Clone)]
pub struct WatchArgs {
    pub job_id: String,
    pub num_recent_messages: Option<u32>,
    pub tree: Option<bool>,
    pub level: Vec<WatchLevel>,
    pub try_number: Option<u32>,
    pub get_stdout: bool,
    pub get_stderr: bool,
    pub get_streams: bool,
    pub no_timestamps: bool,
    pub job_ids: bool,
    pub no_job_ids: bool,
    pub quiet: bool,
    pub format: Option<WatchFormat>,
    pub no_wait: bool,
    pub metrics: Option<WatchMetricsFormat>,
}

/// Arguments of `whoami`.
#[derive(Debug, Clone)]
pub struct WhoamiArgs {
    pub id: bool,
}

/// Arguments of `wizard`.
#[derive(Debug, Clone)]
pub struct WizardArgs {
    pub name: Option<String>,
    pub json_template: Option<String>,
}

/// How job metrics are shown while watching.
#[derive(Debug, Clone, Copy, PartialEq, Eq, Hash, Structural)]
pub enum WatchMetricsFormat {
    Interspersed,
    Top,
    Csv,
    None_,
}

/// How log messages are shown while watching.
#[derive(Debug, Clone, Copy, PartialEq, Eq, Hash, Structural)]
pub enum WatchFormat {
    Job,
    Try,
    Level,
    Msg,
    Date,
}

/// Levels of log messages to show while watching.
#[derive(Debug, Clone, Copy, PartialEq, Eq, Hash, Structural)]
pub enum WatchLevel {
    Emerg,
    Alert,
    Critical,
    Error,
    Warning,
    Notice,
    Info,
    Debug,
    Stderr,
    Stdout,
    Metrics,
}

/// Level of permission on a container.
#[derive(Debug, Clone, Copy, PartialEq, Eq, Hash, Structural)]
pub enum AccessLevel {
    View,
    Upload,
    Contribute,
    Administer,
}


impl AccessLevel {
    /// The text shown for this access level.
    pub fn as_str(&self) -> (r: &'static str)
        ensures
            r@ == match self {
                AccessLevel::View => "VIEW"@,
                AccessLevel::Upload => "UPLOAD"@,
                AccessLevel::Contribute => "CONTRIBUTE"@,
                AccessLevel::Administer => "ADMINISTER"@,
            },
    {
        match self {
            AccessLevel::View => "VIEW",
            AccessLevel::Upload => "UPLOAD",
            AccessLevel::Contribute => "CONTRIBUTE",
            AccessLevel::Administer => "ADMINISTER",
        }
    }
}

} // verus!
