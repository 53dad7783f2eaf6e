//! The launch sequence as a step machine.
//!
//! The launcher runs a single linear pass: check for a bundled runtime next
//! to the executable, otherwise ask the companion module (or, in builds
//! without one, the `JAVA_HOME` environment variable) for a Java home, then
//! spawn the interpreter on the bundled archive, and report any fatal
//! condition through a modal dialog before exiting with status 1.
//!
//! Every decision of that pass lives here, verified: [`Launcher::advance`]
//! consumes the outcome of one operating-system operation and returns the
//! next [`Action`] to perform. A driver around this crate executes each
//! action — checking a directory, loading the module, calling its export,
//! reading the environment, spawning, showing the dialog — and feeds the
//! outcome back as an [`Event`]. The exact relation between one step and the
//! next is the spec function [`transition`].

use vstd::prelude::*;
use vstd::string::StringExecFns;

use crate::command;
use crate::paths;
use crate::utf16;

verus! {

/// A (title, message) pair shown in a modal, application-modal dialog on an
/// unrecoverable failure.
pub struct Diagnostic {
    pub title: String,
    pub message: String,
}

/// Which optional behaviours a launcher build carries. The richest revision
/// asks the companion module for the Java home and passes the fixed flags;
/// the simplest reads `JAVA_HOME` itself and passes none.
#[derive(Clone, Copy)]
pub struct Config {
    /// Ask the companion module for the Java home when no bundled runtime
    /// directory exists; when false, read the `JAVA_HOME` environment
    /// variable instead.
    pub use_companion_module: bool,
    /// Pass the launcher-marker and splash-screen flags to the interpreter.
    pub fixed_flags: bool,
}

/// What the launcher is waiting to learn next.
pub enum Phase {
    /// Waiting to learn whether the bundled runtime directory exists.
    CheckJre,
    /// Waiting for the companion module to be loaded.
    LoadModule,
    /// Waiting for the module to report the length of the home path.
    QueryLength,
    /// Waiting for the module to fill a buffer of `length + 1` code units.
    QueryFill { length: u32 },
    /// Waiting for the value of the `JAVA_HOME` environment variable.
    QueryEnv,
    /// Waiting for the outcome of spawning the interpreter.
    AwaitSpawn { program: String },
    /// The pass is over; the process exits with this status.
    Finished { code: u8 },
}

/// The outcome of one operating-system operation, fed back to the machine.
pub enum Event {
    /// Whether the bundled runtime directory exists.
    JrePresent(bool),
    /// Whether the companion module could be loaded.
    ModuleLoaded(bool),
    /// The module's reported home-path length, in UTF-16 code units.
    HomeLength(u32),
    /// The module's second call: its return value and the filled buffer.
    HomeFilled { result: u32, units: Vec<u16> },
    /// The value of the `JAVA_HOME` environment variable, if set.
    EnvHome(Option<String>),
    /// Whether the interpreter process was spawned.
    Spawned(bool),
}

/// The next operation the driver must perform.
pub enum Action {
    /// Test whether this directory exists.
    CheckJreDir { path: String },
    /// Load the companion module from this file, next to the executable.
    LoadModule { file: String },
    /// Call the module's export with a null buffer and length zero.
    QueryHomeLength,
    /// Allocate `length + 1` code units and call the export again.
    QueryHomeFill { length: u32 },
    /// Read this environment variable.
    ReadEnv { name: String },
    /// Spawn this program with these arguments and exit 0 on success,
    /// without waiting for the child.
    SpawnProcess { program: String, args: Vec<String> },
    /// Show the diagnostic, then exit with this status.
    Fail { diagnostic: Diagnostic, code: u8 },
    /// Exit with this status.
    Exit { code: u8 },
}

/// The diagnostic shown when the companion module file cannot be loaded.
pub open spec fn is_module_missing_diag(d: Diagnostic) -> bool {
    &&& d.title@ == "Error"@
    &&& d.message@ == "Error loading JavaInfo.dll!\nIt has to be in the same folder as kse.exe!"@
}

/// The diagnostic shown when the companion module finds no Java runtime.
pub open spec fn is_no_runtime_diag(d: Diagnostic) -> bool {
    &&& d.title@ == "Error Detecting Java Installation"@
    &&& d.message@ == "No Java Runtime found! Please set JAVA_HOME!"@
}

/// The diagnostic shown when `JAVA_HOME` is not set in a build that relies
/// on it.
pub open spec fn is_env_missing_diag(d: Diagnostic) -> bool {
    &&& d.title@ == "Error Detecting Java Installation"@
    &&& d.message@ == "JAVA_HOME is not set! Please set JAVA_HOME!"@
}

/// The diagnostic shown when spawning the interpreter fails.
pub open spec fn is_spawn_failed_diag(d: Diagnostic, program: Seq<char>) -> bool {
    &&& d.title@ == "Error"@
    &&& d.message@ == "Error running "@ + program
}

/// The diagnostic shown when the running executable's own path cannot be
/// determined; the message is the operating system's error text.
pub open spec fn is_exe_dir_unknown_diag(d: Diagnostic, os_error: Seq<char>) -> bool {
    &&& d.title@ == "Error Detecting Current Directory"@
    &&& d.message@ == os_error
}

/// The launch pass: the fixed inputs and the current phase.
pub struct Launcher {
    /// Directory that holds the running executable.
    pub exe_dir: String,
    /// Command-line tokens after the program name, forwarded verbatim.
    pub passthrough: Vec<String>,
    /// Which optional behaviours this build carries.
    pub config: Config,
    /// What the machine is waiting to learn next.
    pub phase: Phase,
}

/// Which event a phase accepts. A finished machine accepts none.
pub open spec fn expects(p: Phase, e: Event) -> bool {
    match e {
        Event::JrePresent(_) => p is CheckJre,
        Event::ModuleLoaded(_) => p is LoadModule,
        Event::HomeLength(_) => p is QueryLength,
        Event::HomeFilled { result, units } => p matches Phase::QueryFill { length } && units@.len()
            == length + 1,
        Event::EnvHome(_) => p is QueryEnv,
        Event::Spawned(_) => p is AwaitSpawn,
    }
}

/// The action that hands the resolved interpreter to the driver: the program
/// is the given path and the arguments are exactly the interpreter argument
/// list for this launcher's archive and passthrough tokens.
pub open spec fn is_spawn_of(a: Action, program: Seq<char>, pre: Launcher) -> bool {
    a matches Action::SpawnProcess { program: p, args } && p@ == program && command::arg_views(
        args@,
    ) == command::jvm_args(
        pre.config.fixed_flags,
        paths::archive(pre.exe_dir@),
        command::arg_views(pre.passthrough@),
    )
}

/// How one step of the machine relates its state before an event, the event,
/// its state after, and the action it returns.
pub open spec fn transition(pre: Launcher, e: Event, post: Launcher, a: Action) -> bool {
    &&& post.exe_dir == pre.exe_dir
    &&& post.passthrough == pre.passthrough
    &&& post.config == pre.config
    &&& match e {
        Event::JrePresent(present) => {
            if present {
                &&& post.phase matches Phase::AwaitSpawn { program } && program@
                    == paths::bundled_runtime(pre.exe_dir@)
                &&& is_spawn_of(a, paths::bundled_runtime(pre.exe_dir@), pre)
            } else if pre.config.use_companion_module {
                &&& post.phase is LoadModule
                &&& a matches Action::LoadModule { file } && file@ == "JavaInfo.dll"@
            } else {
                &&& post.phase is QueryEnv
                &&& a matches Action::ReadEnv { name } && name@ == "JAVA_HOME"@
            }
        },
        Event::ModuleLoaded(ok) => {
            if ok {
                &&& post.phase is QueryLength
                &&& a is QueryHomeLength
            } else {
                &&& post.phase matches Phase::Finished { code } && code == 1
                &&& a matches Action::Fail { diagnostic, code } && is_module_missing_diag(
                    diagnostic,
                ) && code == 1
            }
        },
        Event::HomeLength(n) => {
            &&& post.phase matches Phase::QueryFill { length } && length == n
            &&& a matches Action::QueryHomeFill { length } && length == n
        },
        Event::HomeFilled { result, units } => {
            if result == 0 {
                &&& post.phase matches Phase::Finished { code } && code == 1
                &&& a matches Action::Fail { diagnostic, code } && is_no_runtime_diag(diagnostic)
                    && code == 1
            } else {
                let home = utf16::decode_utf16(utf16::strip_terminator(units@));
                &&& post.phase matches Phase::AwaitSpawn { program } && program@
                    == paths::runtime_in_home(home)
                &&& is_spawn_of(a, paths::runtime_in_home(home), pre)
            }
        },
        Event::EnvHome(home) => {
            match home {
                Some(h) => {
                    &&& post.phase matches Phase::AwaitSpawn { program } && program@
                        == paths::runtime_in_home(h@)
                    &&& is_spawn_of(a, paths::runtime_in_home(h@), pre)
                },
                None => {
                    &&& post.phase matches Phase::Finished { code } && code == 1
                    &&& a matches Action::Fail { diagnostic, code } && is_env_missing_diag(
                        diagnostic,
                    ) && code == 1
                },
            }
        },
        Event::Spawned(ok) => {
            if ok {
                &&& post.phase matches Phase::Finished { code } && code == 0
                &&& a matches Action::Exit { code } && code == 0
            } else {
                &&& post.phase matches Phase::Finished { code } && code == 1
                &&& pre.phase matches Phase::AwaitSpawn { program } && (a matches Action::Fail {
                    diagnostic,
                    code,
                } && is_spawn_failed_diag(diagnostic, program@) && code == 1)
            }
        },
    }
}

impl Launcher {
    /// Starts a pass over the given executable directory, passthrough tokens
    /// and build configuration.
    pub fn new(exe_dir: String, passthrough: Vec<String>, config: Config) -> (r: Launcher)
        ensures
            r.phase is CheckJre,
            r.exe_dir == exe_dir,
            r.passthrough == passthrough,
            r.config == config,
    {
        Launcher { exe_dir, passthrough, config, phase: Phase::CheckJre }
    }

    /// The first operation of every pass: test whether the bundled runtime
    /// directory exists next to the executable.
    pub fn initial_action(&self) -> (a: Action)
        requires
            self.phase is CheckJre,
        ensures
            a matches Action::CheckJreDir { path } && path@ == paths::bundled_jre_dir(
                self.exe_dir@,
            ),
    {
        Action::CheckJreDir { path: paths::bundled_jre_path(self.exe_dir.as_str()) }
    }

    /// The interpreter argument list for this launcher's archive and
    /// passthrough tokens.
    fn jvm_arguments(&self) -> (r: Vec<String>)
        ensures
            command::arg_views(r@) == command::jvm_args(
                self.config.fixed_flags,
                paths::archive(self.exe_dir@),
                command::arg_views(self.passthrough@),
            ),
    {
        let archive = paths::archive_path(self.exe_dir.as_str());
        command::build_jvm_args(self.config.fixed_flags, archive.as_str(), &self.passthrough)
    }

    /// Consumes the outcome of the pending operation and returns the next
    /// operation to perform; [`transition`] states exactly what it does.
    pub fn advance(&mut self, e: Event) -> (a: Action)
        requires
            expects(old(self).phase, e),
        ensures
            transition(*old(self), e, *final(self), a),
    {
        match e {
            Event::JrePresent(present) => {
                if present {
                    let program = paths::bundled_runtime_path(self.exe_dir.as_str());
                    let args = self.jvm_arguments();
                    self.phase = Phase::AwaitSpawn { program: program.clone() };
                    Action::SpawnProcess { program, args }
                } else if self.config.use_companion_module {
                    self.phase = Phase::LoadModule;
                    Action::LoadModule { file: "JavaInfo.dll".to_owned() }
                } else {
                    self.phase = Phase::QueryEnv;
                    Action::ReadEnv { name: "JAVA_HOME".to_owned() }
                }
            },
            Event::ModuleLoaded(ok) => {
                if ok {
                    self.phase = Phase::QueryLength;
                    Action::QueryHomeLength
                } else {
                    let diagnostic = Diagnostic {
                        title: "Error".to_owned(),
                        message:
                            "Error loading JavaInfo.dll!\nIt has to be in the same folder as kse.exe!".to_owned(),
                    };
                    self.phase = Phase::Finished { code: 1 };
                    Action::Fail { diagnostic, code: 1 }
                }
            },
            Event::HomeLength(n) => {
                self.phase = Phase::QueryFill { length: n };
                Action::QueryHomeFill { length: n }
            },
            Event::HomeFilled { result, units } => {
                if result == 0 {
                    let diagnostic = Diagnostic {
                        title: "Error Detecting Java Installation".to_owned(),
                        message: "No Java Runtime found! Please set JAVA_HOME!".to_owned(),
                    };
                    self.phase = Phase::Finished { code: 1 };
                    Action::Fail { diagnostic, code: 1 }
                } else {
                    let home = utf16::decode_home_buffer(&units);
                    let program = paths::runtime_path_from_home(home.as_str());
                    let args = self.jvm_arguments();
                    self.phase = Phase::AwaitSpawn { program: program.clone() };
                    Action::SpawnProcess { program, args }
                }
            },
            Event::EnvHome(home) => {
                match home {
                    Some(h) => {
                        let program = paths::runtime_path_from_home(h.as_str());
                        let args = self.jvm_arguments();
                        self.phase = Phase::AwaitSpawn { program: program.clone() };
                        Action::SpawnProcess { program, args }
                    },
                    None => {
                        let diagnostic = Diagnostic {
                            title: "Error Detecting Java Installation".to_owned(),
                            message: "JAVA_HOME is not set! Please set JAVA_HOME!".to_owned(),
                        };
                        self.phase = Phase::Finished { code: 1 };
                        Action::Fail { diagnostic, code: 1 }
                    },
                }
            },
            Event::Spawned(ok) => {
                if ok {
                    self.phase = Phase::Finished { code: 0 };
                    Action::Exit { code: 0 }
                } else {
                    let program = match &self.phase {
                        Phase::AwaitSpawn { program } => program.clone(),
                        _ => vstd::pervasive::unreached(),
                    };
                    let diagnostic = Diagnostic {
                        title: "Error".to_owned(),
                        message: "Error running ".to_owned().concat(program.as_str()),
                    };
                    self.phase = Phase::Finished { code: 1 };
                    Action::Fail { diagnostic, code: 1 }
                }
            },
        }
    }
}

/// Law: when the bundled runtime directory exists next to the executable,
/// the machine resolves the interpreter inside that directory and hands it
/// straight to the driver — it neither loads the companion module, nor calls
/// its export, nor reads the environment.
pub proof fn lemma_bundled_jre_takes_priority(pre: Launcher, e: Event, post: Launcher, a: Action)
    requires
        transition(pre, e, post, a),
        e == Event::JrePresent(true),
    ensures
        is_spawn_of(a, paths::bundled_runtime(pre.exe_dir@), pre),
        !(a matches Action::LoadModule { .. }),
        a !is QueryHomeLength,
        !(a matches Action::QueryHomeFill { .. }),
        !(a matches Action::ReadEnv { .. }),
{
}

/// Law: when the companion module's filling call returns zero, the machine
/// finishes with exit status 1 after showing the missing-runtime diagnostic,
/// and does not spawn a process.
pub proof fn lemma_no_runtime_means_no_spawn(pre: Launcher, e: Event, post: Launcher, a: Action)
    requires
        transition(pre, e, post, a),
        e matches Event::HomeFilled { result, units } && result == 0,
    ensures
        a matches Action::Fail { diagnostic, code } && code == 1 && is_no_runtime_diag(diagnostic),
        !(a matches Action::SpawnProcess { .. }),
        post.phase matches Phase::Finished { code } && code == 1,
{
}

/// Law: when the companion module file cannot be loaded, the machine
/// finishes with exit status 1 after showing the missing-module diagnostic,
/// and never asks for the module's export to be called.
pub proof fn lemma_unloadable_module_is_fatal(pre: Launcher, e: Event, post: Launcher, a: Action)
    requires
        transition(pre, e, post, a),
        e == Event::ModuleLoaded(false),
    ensures
        a matches Action::Fail { diagnostic, code } && code == 1 && is_module_missing_diag(
            diagnostic,
        ),
        a !is QueryHomeLength,
        !(a matches Action::QueryHomeFill { .. }),
        post.phase matches Phase::Finished { code } && code == 1,
{
}

/// Law: a finished machine accepts no further event, so after a fatal step
/// no later step — a spawn in particular — can ever be asked for.
pub proof fn lemma_finished_is_terminal(p: Phase, e: Event)
    requires
        p matches Phase::Finished { .. },
    ensures
        !expects(p, e),
{
}

/// Law: whichever way the runtime was resolved, every spawn the machine asks
/// for runs the interpreter on the archive directly next to the executable:
/// right after the fixed flags come `-jar` and that archive path.
pub proof fn lemma_archive_beside_executable(pre: Launcher, e: Event, post: Launcher, a: Action)
    requires
        transition(pre, e, post, a),
    ensures
        a matches Action::SpawnProcess { program, args } ==> {
            let views = command::arg_views(args@);
            let j = command::fixed_flag_prefix(pre.config.fixed_flags).len() as int;
            &&& views[j] == "-jar"@
            &&& views[j + 1] == paths::archive(pre.exe_dir@)
        },
{
    if a matches Action::SpawnProcess { program, args } {
        command::lemma_passthrough_after_jar(
            pre.config.fixed_flags,
            paths::archive(pre.exe_dir@),
            command::arg_views(pre.passthrough@),
        );
    }
}

/// The diagnostic shown, before exiting with status 1, when the operating
/// system cannot report the running executable's path; the message is the
/// operating system's error text.
pub fn exe_dir_unknown_diagnostic(os_error: String) -> (r: Diagnostic)
    ensures
        is_exe_dir_unknown_diag(r, os_error@),
{
    Diagnostic { title: "Error Detecting Current Directory".to_owned(), message: os_error }
}

} // verus!
