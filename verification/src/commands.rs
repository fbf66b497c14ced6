//! The commands of the toolkit, as decisions.
//!
//! A command looks at what it was given and at what the caller found on disk,
//! and answers with the [`Step`]s to carry out, in order, or with the reason
//! for refusing. Carrying the steps out is the caller's business.

use vstd::prelude::*;
use vstd::string::*;
use crate::text::texts;
use crate::commands::doc::{banner_text, generate, nothing, rest, roots_text, Generation};
use crate::commands::latex::{
    module_name, modules, runs, to_pdf, to_pdf_runs, Invocation, InvocationView,
};

pub mod doc;
pub mod latex;

verus! {

/// The exit status of a refused command.
pub const EXIT_CODE: i32 = 0x0C;

/// Where the toolkit is installed, before the home directory is filled in.
pub const BSUIR_RT: &'static str = "~/Public/bsuir-rt-draft/bsuir-rt";

/// Why a command was refused.
#[derive(Clone, Copy, Debug, PartialEq, Eq, Structural)]
pub enum CommandError {
    /// The project name is empty.
    EmptyName,
    /// The project name holds a character that is neither alphanumeric nor `-`.
    IllegalName,
    /// `new` found the project directory in place.
    AlreadyExists,
    /// `build` found no project directory.
    Missing,
    /// `build` found no manifest in the project directory.
    NoManifest,
    /// The home directory in the toolkit's location could not be filled in.
    NoHome,
}

/// One thing for the caller to do on disk or with a process.
#[derive(Clone, Debug, PartialEq, Eq)]
pub enum Step {
    /// Copy the directory `source`, with all it holds, to `dest`.
    CopyTree { source: String, dest: String },
    /// Create the directory `path`; its parent exists.
    CreateDir { path: String },
    /// Create the directory `path` and the parents it lacks.
    CreateDirAll { path: String },
    /// Remove the directory `path` with all it holds.
    RemoveDirAll { path: String },
    /// Make `dest` a symbolic link to `source`.
    Link { source: String, dest: String },
    /// Run a program and wait for it.
    Run { run: Invocation },
    /// Copy the file `source` to `dest`.
    CopyFile { source: String, dest: String },
}

/// What a [`Step`] says.
pub enum StepView {
    CopyTree { source: Seq<char>, dest: Seq<char> },
    CreateDir { path: Seq<char> },
    CreateDirAll { path: Seq<char> },
    RemoveDirAll { path: Seq<char> },
    Link { source: Seq<char>, dest: Seq<char> },
    Run { run: InvocationView },
    CopyFile { source: Seq<char>, dest: Seq<char> },
}

impl View for Step {
    type V = StepView;

    open spec fn view(&self) -> StepView {
        match *self {
            Step::CopyTree { source, dest } => StepView::CopyTree { source: source@, dest: dest@ },
            Step::CreateDir { path } => StepView::CreateDir { path: path@ },
            Step::CreateDirAll { path } => StepView::CreateDirAll { path: path@ },
            Step::RemoveDirAll { path } => StepView::RemoveDirAll { path: path@ },
            Step::Link { source, dest } => StepView::Link { source: source@, dest: dest@ },
            Step::Run { run } => StepView::Run { run: run@ },
            Step::CopyFile { source, dest } => StepView::CopyFile { source: source@, dest: dest@ },
        }
    }
}

/// What the caller found on disk before a build.
#[derive(Clone, Copy, Debug, PartialEq, Eq)]
pub struct Found {
    /// The project directory exists.
    pub project: bool,
    /// The project's manifest exists.
    pub manifest: bool,
    /// A build directory is left over from an earlier build.
    pub build_dir: bool,
}

/// What a list of steps says.
pub open spec fn steps(v: Seq<Step>) -> Seq<StepView> {
    v.map_values(|s: Step| s@)
}

/// Whether `c` is alphanumeric, as `char::is_alphanumeric` tells.
pub uninterp spec fn alphanumeric(c: char) -> bool;

/// A character that a project name may hold.
pub open spec fn name_char(c: char) -> bool {
    alphanumeric(c) || c == '-'
}

/// Why `project` cannot name a project, if it cannot.
pub open spec fn name_refusal(project: Seq<char>) -> Option<CommandError> {
    if project.len() == 0 {
        Some(CommandError::EmptyName)
    } else if exists|i: int| 0 <= i < project.len() && !name_char(#[trigger] project[i]) {
        Some(CommandError::IllegalName)
    } else {
        None
    }
}

/// A path that names something under the home directory: `~/`, and then a
/// path that does not start at the root.
pub open spec fn under_home(path: Seq<char>) -> bool {
    &&& path.len() >= 2
    &&& path[0] == '~'
    &&& path[1] == '/'
    &&& path.len() > 2 ==> path[2] != '/'
}

/// Where the toolkit lies under the home directory: [`BSUIR_RT`] without its
/// `~/`.
pub open spec fn toolkit_path() -> Seq<char> {
    BSUIR_RT@.skip(2)
}

/// The subdirectories that a fresh project starts with, in order.
pub open spec fn project_dirs() -> Seq<Seq<char>> {
    seq!["contents"@, "data"@, "extras"@, "images"@, "pages"@, "sources"@]
}

/// `<project>/manifest.tex`
pub open spec fn manifest_path_text(project: Seq<char>) -> Seq<char> {
    project + "/manifest.tex"@
}

/// `<project>/build`
pub open spec fn build_dir_text(project: Seq<char>) -> Seq<char> {
    project + "/build"@
}

/// The source directories of the toolkit modules installed at `root`.
pub open spec fn doxygen_dirs_text(root: Seq<char>) -> Seq<Seq<char>> {
    modules().map_values(|m: Seq<char>| root + "-"@ + m + "/src"@)
}

/// The steps that lay out the fresh project: the template is copied from the
/// toolkit at `root`, then each subdirectory is created.
pub open spec fn new_steps(project: Seq<char>, root: Seq<char>) -> Seq<StepView> {
    seq![StepView::CopyTree { source: root + "-project/src"@, dest: project }]
        + project_dirs().map_values(
        |d: Seq<char>| StepView::CreateDir { path: project + "/"@ + d },
    )
}

/// Why `new` refuses, if it does.
pub open spec fn new_refusal(project: Seq<char>, exists: bool) -> Option<CommandError> {
    if name_refusal(project) is Some {
        name_refusal(project)
    } else if exists {
        Some(CommandError::AlreadyExists)
    } else {
        None
    }
}

/// The steps of a build: a stale build directory goes, a fresh one comes,
/// the toolkit modules at `root` are linked into it, the PDF is produced in
/// it and copied out under the project's name, and the build directory goes
/// again.
pub open spec fn build_steps(project: Seq<char>, root: Seq<char>, stale: bool) -> Seq<StepView> {
    let build_dir = build_dir_text(project);
    (if stale {
        seq![StepView::RemoveDirAll { path: build_dir }]
    } else {
        Seq::empty()
    }) + seq![StepView::CreateDirAll { path: build_dir }] + modules().map_values(
        |m: Seq<char>| StepView::Link { source: root + "-"@ + m, dest: build_dir + "/"@ + m },
    ) + to_pdf_runs(project, build_dir).map_values(|r: InvocationView| StepView::Run { run: r })
        + seq![
        StepView::CopyFile {
            source: build_dir + "/manifest.pdf"@,
            dest: project + "/"@ + project + ".pdf"@,
        },
        StepView::RemoveDirAll { path: build_dir },
    ]
}

/// Why `build` refuses, if it does.
pub open spec fn build_refusal(project: Seq<char>, found: Found) -> Option<CommandError> {
    if name_refusal(project) is Some {
        name_refusal(project)
    } else if !found.project {
        Some(CommandError::Missing)
    } else if !found.manifest {
        Some(CommandError::NoManifest)
    } else {
        None
    }
}

/// The line that tells the user why the command was refused.
pub open spec fn message_text(error: CommandError) -> Seq<char> {
    match error {
        CommandError::EmptyName => "Project name should not be empty"@,
        CommandError::IllegalName => "Project name should contain only alphanumeric characters"@,
        CommandError::AlreadyExists => "Project already exists"@,
        CommandError::Missing => "Project does not exist"@,
        CommandError::NoManifest => "Project manifest does not exist"@,
        CommandError::NoHome => "Failed to expand BSUIR_RT"@,
    }
}

/// The line that tells the user that `step` could not be carried out.
pub open spec fn failure_text(step: StepView) -> Seq<char> {
    match step {
        StepView::CopyTree { source, dest } => "Failed to copy "@ + source + " to "@ + dest,
        StepView::CreateDir { path } => "Failed to create "@ + path + " directory"@,
        StepView::CreateDirAll { path } => "Failed to create build directory"@,
        StepView::RemoveDirAll { path } => "Failed to remove build directory"@,
        StepView::Link { source, dest } => "Failed to create symlink from "@ + source + " to "@
            + dest,
        StepView::Run { run } => "Failed to run "@ + run.program,
        StepView::CopyFile { source, dest } => "Failed to copy manifest.pdf to project directory"@,
    }
}

impl CommandError {
    /// The line that tells the user why the command was refused.
    pub fn message(&self) -> (line: String)
        ensures
            line@ == message_text(*self),
    {
        match self {
            CommandError::EmptyName => "Project name should not be empty".to_owned(),
            CommandError::IllegalName => "Project name should contain only alphanumeric characters".to_owned(),
            CommandError::AlreadyExists => "Project already exists".to_owned(),
            CommandError::Missing => "Project does not exist".to_owned(),
            CommandError::NoManifest => "Project manifest does not exist".to_owned(),
            CommandError::NoHome => "Failed to expand BSUIR_RT".to_owned(),
        }
    }
}

impl Step {
    /// The line that tells the user that this step could not be carried out.
    pub fn failure(&self) -> (line: String)
        ensures
            line@ == failure_text(self@),
    {
        match self {
            Step::CopyTree { source, dest } => "Failed to copy ".to_owned().concat(
                source.as_str(),
            ).concat(" to ").concat(dest.as_str()),
            Step::CreateDir { path } => "Failed to create ".to_owned().concat(path.as_str()).concat(
                " directory",
            ),
            Step::CreateDirAll { path } => "Failed to create build directory".to_owned(),
            Step::RemoveDirAll { path } => "Failed to remove build directory".to_owned(),
            Step::Link { source, dest } => "Failed to create symlink from ".to_owned().concat(
                source.as_str(),
            ).concat(" to ").concat(dest.as_str()),
            Step::Run { run } => "Failed to run ".to_owned().concat(run.program.as_str()),
            Step::CopyFile { source, dest } => "Failed to copy manifest.pdf to project directory".to_owned(),
        }
    }
}

/// `char::is_alphanumeric` of std: whether `c` is a letter or a digit in
/// Unicode's sense. The contract only gives the answer its name.
#[verifier::external_body]
fn is_alphanumeric(c: char) -> (r: bool)
    ensures
        r == alphanumeric(c),
{
    c.is_alphanumeric()
}

/// `expanduser::expanduser`: `path` with a leading `~` or `~user` replaced by
/// a home directory, read from the environment or the user database. It fails
/// where no home directory is known. For `~/` followed by a relative path the
/// crate joins that path to the home directory, so what it returns ends in
/// that path; which home directory stands before it is not claimed, and of
/// other paths nothing is claimed.
#[verifier::external_body]
fn expand_user(path: &str) -> (expanded: Option<String>)
    ensures
        expanded matches Some(whole) ==> (under_home(path@) ==> path@.skip(2).is_suffix_of(
            whole@,
        )),
{
    match expanduser::expanduser(path) {
        Ok(expanded) => Some(expanded.to_string_lossy().to_string()),
        Err(_) => None,
    }
}

/// Whether a project name may hold `c`, given whether `c` is alphanumeric.
pub fn permitted(c: char, alphanumeric: bool) -> (r: bool)
    ensures
        r == (alphanumeric || c == '-'),
{
    alphanumeric || c == '-'
}

/// Where the toolkit is installed: under the home directory, at the path
/// that [`BSUIR_RT`] gives behind its `~/`. `None` where no home directory is
/// known.
pub fn bsuir_rt() -> (root: Option<String>)
    ensures
        root matches Some(found) ==> toolkit_path().is_suffix_of(found@),
{
    proof {
        reveal_strlit("~/Public/bsuir-rt-draft/bsuir-rt");
    }
    expand_user(BSUIR_RT)
}

/// The name of the project subdirectory with the given index.
pub fn project_dir(index: usize) -> (name: &'static str)
    requires
        index < 6,
    ensures
        name@ == project_dirs()[index as int],
{
    if index == 0 {
        "contents"
    } else if index == 1 {
        "data"
    } else if index == 2 {
        "extras"
    } else if index == 3 {
        "images"
    } else if index == 4 {
        "pages"
    } else {
        "sources"
    }
}

/// Where the manifest of `project` is looked for.
pub fn manifest_path(project: &str) -> (path: String)
    ensures
        path@ == manifest_path_text(project@),
{
    project.to_owned().concat("/manifest.tex")
}

/// Where `project` is built.
pub fn build_dir(project: &str) -> (path: String)
    ensures
        path@ == build_dir_text(project@),
{
    project.to_owned().concat("/build")
}

/// Checks that `project` can name a project: it is not empty and holds only
/// alphanumeric characters and `-`.
pub fn validate(project: &str) -> (r: Result<(), CommandError>)
    ensures
        r == match name_refusal(project@) {
            Some(error) => Err::<(), CommandError>(error),
            None => Ok(()),
        },
{
    if project.is_empty() {
        return Err(CommandError::EmptyName);
    }
    let chars = crate::text::chars_of(project);
    let mut index: usize = 0;
    while index < chars.len()
        invariant
            index <= chars.len(),
            chars@ == project@,
            forall|i: int| 0 <= i < index ==> name_char(#[trigger] project@[i]),
        decreases chars.len() - index,
    {
        let c = chars[index];
        if !permitted(c, is_alphanumeric(c)) {
            return Err(CommandError::IllegalName);
        }
        index += 1;
    }
    Ok(())
}

/// The source directories of the toolkit modules installed at `root`: what
/// the documentation run is to be started on.
pub fn doxygen_dirs(root: &str) -> (dirs: Vec<String>)
    ensures
        texts(dirs@) == doxygen_dirs_text(root@),
{
    let mut dirs: Vec<String> = Vec::new();
    let mut index: usize = 0;
    while index < 4
        invariant
            index <= 4,
            dirs@.len() == index,
            forall|k: int| 0 <= k < index ==> (#[trigger] dirs@[k])@ == doxygen_dirs_text(root@)[k],
        decreases 4 - index,
    {
        dirs.push(root.to_owned().concat("-").concat(module_name(index)).concat("/src"));
        index += 1;
    }
    assert(texts(dirs@) =~= doxygen_dirs_text(root@));
    dirs
}

/// Sets a documentation run up over the toolkit modules where this machine
/// has them: the root documents are those of the modules of a toolkit that
/// lies at [`toolkit_path`] under some directory. `None` where no home
/// directory is known.
pub fn doxygen() -> (run: Option<Generation>)
    ensures
        run matches Some(run) ==> {
            &&& run.line@ == banner_text()
            &&& run.doc.notes() == nothing()
            &&& run.doc.session() == rest()
            &&& exists|root: Seq<char>|
                toolkit_path().is_suffix_of(root) && texts(run.roots@) == roots_text(
                    #[trigger] doxygen_dirs_text(root),
                )
        },
{
    match bsuir_rt() {
        Some(root) => {
            let dirs = doxygen_dirs(root.as_str());
            Some(generate(dirs.as_slice()))
        },
        None => None,
    }
}

/// The steps that lay out the fresh project `project` from the toolkit at
/// `root`.
pub fn new_plan(project: &str, root: &str) -> (plan: Vec<Step>)
    ensures
        steps(plan@) == new_steps(project@, root@),
{
    let mut plan: Vec<Step> = Vec::new();
    plan.push(
        Step::CopyTree { source: root.to_owned().concat("-project/src"), dest: project.to_owned() },
    );
    let mut index: usize = 0;
    while index < 6
        invariant
            index <= 6,
            plan@.len() == index + 1,
            plan@[0]@ == new_steps(project@, root@)[0],
            forall|k: int| 1 <= k <= index ==> (#[trigger] plan@[k])@ == new_steps(project@, root@)[k],
        decreases 6 - index,
    {
        plan.push(Step::CreateDir { path: project.to_owned().concat("/").concat(project_dir(index)) });
        index += 1;
    }
    assert(steps(plan@) =~= new_steps(project@, root@));
    plan
}

/// Decides what creating the project `project` takes. `exists` tells whether
/// the caller found something at the project's path.
pub fn new(project: &str, exists: bool) -> (r: Result<Vec<Step>, CommandError>)
    ensures
        match new_refusal(project@, exists) {
            Some(error) => r == Err::<Vec<Step>, CommandError>(error),
            None => match r {
                Ok(plan) => exists|root: Seq<char>| steps(plan@) == #[trigger] new_steps(project@, root),
                Err(error) => error == CommandError::NoHome,
            },
        },
{
    match validate(project) {
        Err(error) => {
            return Err(error);
        },
        Ok(()) => {},
    }
    if exists {
        return Err(CommandError::AlreadyExists);
    }
    match bsuir_rt() {
        Some(root) => Ok(new_plan(project, root.as_str())),
        None => Err(CommandError::NoHome),
    }
}

/// The steps that build `project` with the toolkit at `root`. `stale` tells
/// whether a build directory is left over.
pub fn build_plan(project: &str, root: &str, stale: bool) -> (plan: Vec<Step>)
    ensures
        steps(plan@) == build_steps(project@, root@, stale),
{
    let dir = build_dir(project);
    let ghost goal = build_steps(project@, root@, stale);
    let mut plan: Vec<Step> = Vec::new();
    if stale {
        plan.push(Step::RemoveDirAll { path: dir.clone() });
    }
    plan.push(Step::CreateDirAll { path: dir.clone() });
    let ghost base = plan@.len() as int;
    let mut index: usize = 0;
    while index < 4
        invariant
            index <= 4,
            dir@ == build_dir_text(project@),
            goal == build_steps(project@, root@, stale),
            base == if stale { 2int } else { 1int },
            plan@.len() == base + index,
            forall|k: int| 0 <= k < base + index ==> (#[trigger] plan@[k])@ == goal[k],
        decreases 4 - index,
    {
        plan.push(
            Step::Link {
                source: root.to_owned().concat("-").concat(module_name(index)),
                dest: dir.clone().concat("/").concat(module_name(index)),
            },
        );
        index += 1;
    }
    let passes = to_pdf(project, dir.as_str());
    let ghost all = passes@;
    for run in it: passes
        invariant
            it.seq() == all,
            runs(all) == to_pdf_runs(project@, build_dir_text(project@)),
            goal == build_steps(project@, root@, stale),
            base == if stale { 2int } else { 1int },
            plan@.len() == base + 4 + it.index(),
            forall|k: int| 0 <= k < base + 4 + it.index() ==> (#[trigger] plan@[k])@ == goal[k],
    {
        assert(runs(all)[it.index() as int] == run@);
        plan.push(Step::Run { run });
    }
    plan.push(
        Step::CopyFile {
            source: dir.clone().concat("/manifest.pdf"),
            dest: project.to_owned().concat("/").concat(project).concat(".pdf"),
        },
    );
    plan.push(Step::RemoveDirAll { path: dir });
    assert(steps(plan@) =~= goal);
    plan
}

/// Decides what building the project `project` takes, given what the caller
/// found on disk.
pub fn build(project: &str, found: Found) -> (r: Result<Vec<Step>, CommandError>)
    ensures
        match build_refusal(project@, found) {
            Some(error) => r == Err::<Vec<Step>, CommandError>(error),
            None => match r {
                Ok(plan) => exists|root: Seq<char>|
                    steps(plan@) == #[trigger] build_steps(project@, root, found.build_dir),
                Err(error) => error == CommandError::NoHome,
            },
        },
{
    match validate(project) {
        Err(error) => {
            return Err(error);
        },
        Ok(()) => {},
    }
    if !found.project {
        return Err(CommandError::Missing);
    }
    if !found.manifest {
        return Err(CommandError::NoManifest);
    }
    match bsuir_rt() {
        Some(root) => Ok(build_plan(project, root.as_str(), found.build_dir)),
        None => Err(CommandError::NoHome),
    }
}

/// The line that tells the user that `command` is not a command.
pub fn invalid(command: &str) -> (line: String)
    ensures
        line@ == command@ + " is not a valid command"@,
{
    command.to_owned().concat(" is not a valid command")
}

} // verus!
