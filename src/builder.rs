use vstd::prelude::*;
use crate::error::{BuildFailure, ExtensionError};
use crate::package::ExtensionPackage;
use crate::artifact::target_dir_of;

verus! {

/// The build tool that compiles an extension into a shared library.
pub const BUILD_TOOL: &'static str = "cargo";

/// The kind of build target that extensions are.
pub const CAIRO_PLUGIN_TARGET_KIND: &'static str = "cairo-plugin";

/// The words joined by single spaces.
pub open spec fn join_words(words: Seq<Seq<char>>) -> Seq<char>
    decreases words.len(),
{
    if words.len() == 0 {
        Seq::empty()
    } else if words.len() == 1 {
        words[0]
    } else {
        join_words(words.drop_last()) + seq![' '] + words.last()
    }
}

/// The arguments of a release build whose outputs go under `target_dir`.
pub open spec fn release_build_args(target_dir: Seq<char>) -> Seq<Seq<char>> {
    seq!["build"@, "--release"@, "--target-dir"@, target_dir]
}

/// A process to run: a program, its arguments, and its working directory.
#[derive(Debug)]
pub struct BuildCommand {
    pub program: String,
    pub args: Vec<String>,
    pub cwd: String,
}

impl BuildCommand {
    /// The arguments as character sequences.
    pub open spec fn spec_args(&self) -> Seq<Seq<char>> {
        self.args@.map_values(|a: String| a@)
    }

    /// The command line: the program followed by its arguments.
    pub open spec fn spec_command_line(&self) -> Seq<char> {
        join_words(seq![self.program@] + self.spec_args())
    }

    /// The command line, for diagnostics.
    pub fn command_line(&self) -> (r: String)
        ensures
            r@ == self.spec_command_line(),
    {
        let ghost words = seq![self.program@] + self.spec_args();
        let mut r = self.program.clone();
        let mut i: usize = 0;
        assert(words.take(1) =~= seq![self.program@]);
        while i < self.args.len()
            invariant
                i <= self.args@.len(),
                words == seq![self.program@] + self.spec_args(),
                r@ == join_words(words.take(i + 1)),
            decreases self.args@.len() - i,
        {
            proof {
                reveal_strlit(" ");
                assert(words.take(i + 2).drop_last() =~= words.take(i + 1));
                assert(words.take(i + 2).last() == self.args@[i as int]@);
            }
            r = r.concat(" ");
            r = r.concat(self.args[i].as_str());
            i = i + 1;
        }
        assert(words.take(i + 1) =~= words);
        r
    }
}

/// What became of an attempt to run the build tool.
#[derive(Debug)]
pub enum ProcessOutcome {
    /// The process could not be started.
    SpawnFailed { reason: String },
    /// The process ran to its end; `code` is its exit code, absent where a
    /// signal ended it.
    Exited { code: Option<i32> },
}

impl ProcessOutcome {
    /// Only an exit code of zero is success.
    pub open spec fn spec_succeeded(&self) -> bool {
        self == (ProcessOutcome::Exited { code: Some(0i32) })
    }
}

/// Builds extension packages into shared libraries with the external build
/// tool.
pub struct ProceduralMacroCompiler;

impl ProceduralMacroCompiler {
    /// The kind of target this compiler builds.
    pub fn target_kind(&self) -> (r: String)
        ensures
            r@ == "cairo-plugin"@,
    {
        String::from_str(CAIRO_PLUGIN_TARGET_KIND)
    }

    /// The command that builds `package`: run from `cwd`, an optimised
    /// build, with every output under the package's own directory in
    /// `build_root`.
    pub fn build_command(cwd: &str, package: &ExtensionPackage, build_root: &str) -> (r: BuildCommand)
        requires
            package.wf(),
        ensures
            r.program@ == "cargo"@,
            r.cwd@ == cwd@,
            r.spec_args() == release_build_args(
                target_dir_of(build_root@, package.name@, package.origin_id@),
            ),
    {
        let mut args: Vec<String> = Vec::new();
        args.push(String::from_str("build"));
        args.push(String::from_str("--release"));
        args.push(String::from_str("--target-dir"));
        args.push(package.target_dir(build_root));
        let r = BuildCommand { program: String::from_str(BUILD_TOOL), args, cwd: String::from_str(cwd) };
        assert(r.spec_args() =~= release_build_args(
            target_dir_of(build_root@, package.name@, package.origin_id@),
        ));
        r
    }

    /// Judges a finished run of `command`: success only on exit code zero;
    /// otherwise a build error that carries the command line.
    pub fn finish(command: &BuildCommand, outcome: ProcessOutcome) -> (r: Result<(), ExtensionError>)
        ensures
            r is Ok <==> outcome.spec_succeeded(),
            match (r, outcome) {
                (Ok(_), _) => true,
                (Err(ExtensionError::Build { command: c, failure: BuildFailure::NotStarted { reason } }),
                    ProcessOutcome::SpawnFailed { reason: why }) =>
                    c@ == command.spec_command_line() && reason@ == why@,
                (Err(ExtensionError::Build { command: c, failure: BuildFailure::Exited { code } }),
                    ProcessOutcome::Exited { code: exit }) =>
                    c@ == command.spec_command_line() && code == exit,
                _ => false,
            },
    {
        match outcome {
            ProcessOutcome::SpawnFailed { reason } => Err(ExtensionError::Build {
                command: command.command_line(),
                failure: BuildFailure::NotStarted { reason },
            }),
            ProcessOutcome::Exited { code } => {
                let ok = match code {
                    Some(c) => c == 0,
                    None => false,
                };
                if ok {
                    Ok(())
                } else {
                    Err(ExtensionError::Build {
                        command: command.command_line(),
                        failure: BuildFailure::Exited { code },
                    })
                }
            },
        }
    }
}

} // verus!
