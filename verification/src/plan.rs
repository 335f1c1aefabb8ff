//! What to run: the paths inside the environment folder and the three
//! command lines (creation, bootstrap install, sync) derived from a request.

use vstd::prelude::*;
use vstd::string::StringExecFns;

verus! {

/// The platform family the environment is provisioned for. It decides the
/// name of the tooling subfolder and whether the bootstrap install must be
/// attempted twice.
#[derive(Clone, Copy, Debug, PartialEq, Eq, Structural)]
pub enum Platform {
    Posix,
    Windows,
}

/// A request to provision an environment: the interpreter used to create it,
/// the folder it lives in, the manifest installed once at creation, and the
/// manifests the installed package set is synchronized against on every run.
#[derive(Clone, Debug)]
pub struct PyenvArgs {
    pub python_bin: String,
    pub pyenv_folder: String,
    pub initial_reqs: String,
    pub reqs: Vec<String>,
}

/// Mathematical model of a request: every path as a sequence of characters.
#[verifier::ext_equal]
pub struct ArgsModel {
    pub python_bin: Seq<char>,
    pub pyenv_folder: Seq<char>,
    pub initial_reqs: Seq<char>,
    pub reqs: Seq<Seq<char>>,
}

impl View for PyenvArgs {
    type V = ArgsModel;

    open spec fn view(&self) -> ArgsModel {
        ArgsModel {
            python_bin: self.python_bin@,
            pyenv_folder: self.pyenv_folder@,
            initial_reqs: self.initial_reqs@,
            reqs: self.reqs.deep_view(),
        }
    }
}

/// One external command: a program and the arguments handed to it, exactly.
#[derive(Clone, Debug, PartialEq, Eq)]
pub struct CommandLine {
    pub program: String,
    pub args: Vec<String>,
}

/// Mathematical model of a command line.
#[verifier::ext_equal]
pub struct CommandModel {
    pub program: Seq<char>,
    pub args: Seq<Seq<char>>,
}

impl View for CommandLine {
    type V = CommandModel;

    open spec fn view(&self) -> CommandModel {
        CommandModel { program: self.program@, args: self.args.deep_view() }
    }
}

/// A path component appended to a base path, separated by `/`.
pub open spec fn spec_join(base: Seq<char>, name: Seq<char>) -> Seq<char> {
    base + "/"@ + name
}

/// The tooling subfolder of the environment: `scripts` on Windows, `bin`
/// elsewhere.
pub open spec fn spec_tooling_subfolder(platform: Platform) -> Seq<char> {
    match platform {
        Platform::Windows => "scripts"@,
        Platform::Posix => "bin"@,
    }
}

/// The folder that holds the installer and the syncer.
pub open spec fn spec_tooling_folder(pyenv_folder: Seq<char>, platform: Platform) -> Seq<char> {
    spec_join(pyenv_folder, spec_tooling_subfolder(platform))
}

/// Where the package installer lives. Its presence on disk is the sole
/// signal that the environment was already bootstrapped.
pub open spec fn spec_installer_path(pyenv_folder: Seq<char>, platform: Platform) -> Seq<char> {
    spec_join(spec_tooling_folder(pyenv_folder, platform), "pip"@)
}

/// Where the package syncer lives.
pub open spec fn spec_syncer_path(pyenv_folder: Seq<char>, platform: Platform) -> Seq<char> {
    spec_join(spec_tooling_folder(pyenv_folder, platform), "pip-sync"@)
}

/// Whether the bootstrap install is run once more, with the first outcome
/// discarded: the first install on Windows fails transiently while the
/// installer upgrades itself.
pub open spec fn spec_needs_workaround(platform: Platform) -> bool {
    platform is Windows
}

/// The command that creates the environment.
pub open spec fn spec_creation_command(a: ArgsModel) -> CommandModel {
    CommandModel { program: a.python_bin, args: seq!["-m"@, "venv"@, a.pyenv_folder] }
}

/// The command that installs the bootstrap manifest.
pub open spec fn spec_bootstrap_command(a: ArgsModel, platform: Platform) -> CommandModel {
    CommandModel {
        program: spec_installer_path(a.pyenv_folder, platform),
        args: seq!["install"@, "-r"@, a.initial_reqs],
    }
}

/// The command that synchronizes the installed packages: the caller-supplied
/// manifests are its arguments, in their given order, with nothing added.
pub open spec fn spec_sync_command(a: ArgsModel, platform: Platform) -> CommandModel {
    CommandModel { program: spec_syncer_path(a.pyenv_folder, platform), args: a.reqs }
}

/// Appends `name` to `base` with a `/` separator.
pub fn join_path(base: &str, name: &str) -> (r: String)
    ensures
        r@ == spec_join(base@, name@),
{
    let r = base.to_owned();
    let r = r.concat("/");
    let r = r.concat(name);
    proof {
        assert(r@ =~= spec_join(base@, name@));
    }
    r
}

/// The name of the tooling subfolder for the given platform.
pub fn tooling_subfolder_name(platform: Platform) -> (r: &'static str)
    ensures
        r@ == spec_tooling_subfolder(platform),
{
    match platform {
        Platform::Windows => "scripts",
        Platform::Posix => "bin",
    }
}

/// Whether the given platform needs the double bootstrap install.
pub fn needs_double_install_workaround(platform: Platform) -> (r: bool)
    ensures
        r == spec_needs_workaround(platform),
{
    matches!(platform, Platform::Windows)
}

/// The installer path inside the environment folder.
pub fn installer_path(pyenv_folder: &str, platform: Platform) -> (r: String)
    ensures
        r@ == spec_installer_path(pyenv_folder@, platform),
{
    let tooling = join_path(pyenv_folder, tooling_subfolder_name(platform));
    join_path(tooling.as_str(), "pip")
}

/// The syncer path inside the environment folder.
pub fn syncer_path(pyenv_folder: &str, platform: Platform) -> (r: String)
    ensures
        r@ == spec_syncer_path(pyenv_folder@, platform),
{
    let tooling = join_path(pyenv_folder, tooling_subfolder_name(platform));
    join_path(tooling.as_str(), "pip-sync")
}

/// Copies a list of arguments.
fn clone_args(v: &Vec<String>) -> (r: Vec<String>)
    ensures
        r@ == v@,
        r.deep_view() == v.deep_view(),
{
    let mut r: Vec<String> = Vec::new();
    let mut i: usize = 0;
    while i < v.len()
        invariant
            i <= v.len(),
            r@ == v@.subrange(0, i as int),
        decreases v.len() - i,
    {
        let s = v[i].clone();
        r.push(s);
        proof {
            assert(r@ =~= v@.subrange(0, i + 1 as int));
        }
        i = i + 1;
    }
    proof {
        assert(r@ =~= v@);
        assert(r.deep_view() =~= v.deep_view());
    }
    r
}

/// Builds the environment-creation command: the interpreter invoked with
/// `-m venv <folder>`.
pub fn creation_command(args: &PyenvArgs) -> (c: CommandLine)
    ensures
        c@ == spec_creation_command(args@),
{
    let mut argv: Vec<String> = Vec::new();
    argv.push("-m".to_owned());
    argv.push("venv".to_owned());
    argv.push(args.pyenv_folder.clone());
    let c = CommandLine { program: args.python_bin.clone(), args: argv };
    proof {
        assert(c@ =~= spec_creation_command(args@));
    }
    c
}

/// Builds the bootstrap-install command: the installer invoked with
/// `install -r <bootstrap manifest>`.
pub fn bootstrap_command(args: &PyenvArgs, platform: Platform) -> (c: CommandLine)
    ensures
        c@ == spec_bootstrap_command(args@, platform),
{
    let mut argv: Vec<String> = Vec::new();
    argv.push("install".to_owned());
    argv.push("-r".to_owned());
    argv.push(args.initial_reqs.clone());
    let c = CommandLine {
        program: installer_path(args.pyenv_folder.as_str(), platform),
        args: argv,
    };
    proof {
        assert(c@ =~= spec_bootstrap_command(args@, platform));
    }
    c
}

/// Builds the sync command: the syncer invoked with exactly the
/// caller-supplied manifests, in their given order.
pub fn sync_command(args: &PyenvArgs, platform: Platform) -> (c: CommandLine)
    ensures
        c@ == spec_sync_command(args@, platform),
{
    let c = CommandLine {
        program: syncer_path(args.pyenv_folder.as_str(), platform),
        args: clone_args(&args.reqs),
    };
    proof {
        assert(c@ =~= spec_sync_command(args@, platform));
    }
    c
}

} // verus!
