//! The typesetting runs that turn a project into a PDF.
//!
//! Nothing here starts a process. A run is described by an [`Invocation`]:
//! the program and its arguments, in the order in which they are passed.

use vstd::prelude::*;
use vstd::string::*;
use crate::text::texts;

verus! {

/// The typesetting engine.
pub const PDF_LATEX: &'static str = "xelatex";

/// One run of an external program.
#[derive(Clone, Debug, PartialEq, Eq)]
pub struct Invocation {
    pub program: String,
    pub args: Vec<String>,
}

/// What an [`Invocation`] says.
pub struct InvocationView {
    pub program: Seq<char>,
    pub args: Seq<Seq<char>>,
}

impl View for Invocation {
    type V = InvocationView;

    open spec fn view(&self) -> InvocationView {
        InvocationView { program: self.program@, args: texts(self.args@) }
    }
}

/// What a list of invocations says.
pub open spec fn runs(v: Seq<Invocation>) -> Seq<InvocationView> {
    v.map_values(|i: Invocation| i@)
}

/// The toolkit modules whose manifests every document pulls in, in order.
pub open spec fn modules() -> Seq<Seq<char>> {
    seq!["backend"@, "rules"@, "service"@, "frontend"@]
}

/// `\def\rtImplPath{<project>}`
pub open spec fn impl_path_text(project: Seq<char>) -> Seq<char> {
    "\\def\\rtImplPath{"@ + project + "}"@
}

/// `\input{<build_dir>/<subdir>/src/manifest}`
pub open spec fn include_module_text(build_dir: Seq<char>, subdir: Seq<char>) -> Seq<char> {
    "\\input{"@ + build_dir + "/"@ + subdir + "/src/manifest}"@
}

/// `\input{<project>/manifest}`
pub open spec fn include_project_text(project: Seq<char>) -> Seq<char> {
    "\\input{"@ + project + "/manifest}"@
}

/// `\rtImplManifest{}\undef\rtImplPath`
pub open spec fn call_impl_text() -> Seq<char> {
    "\\rtImplManifest{}\\undef\\rtImplPath"@
}

/// The directives that pull in the manifests of the first `count` toolkit
/// modules, one after the other.
pub open spec fn module_includes(build_dir: Seq<char>, count: nat) -> Seq<char>
    decreases count,
{
    if count == 0 {
        Seq::empty()
    } else {
        module_includes(build_dir, (count - 1) as nat) + include_module_text(
            build_dir,
            modules()[count - 1],
        )
    }
}

/// The source text handed to the engine: the implementation path, the
/// manifest of each toolkit module, the project's own manifest, and the call
/// that renders what they declared.
pub open spec fn manifest_text(project: Seq<char>, build_dir: Seq<char>) -> Seq<char> {
    impl_path_text(project) + module_includes(build_dir, modules().len())
        + include_project_text(project) + call_impl_text()
}

/// One engine run over the project, writing into `build_dir`.
pub open spec fn pdf_latex_run(project: Seq<char>, build_dir: Seq<char>) -> InvocationView {
    InvocationView {
        program: PDF_LATEX@,
        args: seq!["-output-directory="@ + build_dir, manifest_text(project, build_dir)],
    }
}

/// The runs that produce the PDF: the engine twice, so that references
/// settle, with the index and bibliography passes in between.
pub open spec fn to_pdf_runs(project: Seq<char>, build_dir: Seq<char>) -> Seq<InvocationView> {
    seq![pdf_latex_run(project, build_dir), pdf_latex_run(project, build_dir)]
}

/// The name of the toolkit module with the given index.
pub fn module_name(index: usize) -> (name: &'static str)
    requires
        index < 4,
    ensures
        name@ == modules()[index as int],
{
    if index == 0 {
        "backend"
    } else if index == 1 {
        "rules"
    } else if index == 2 {
        "service"
    } else {
        "frontend"
    }
}

/// The definition that tells the toolkit where the project lives.
pub fn impl_path(project: &str) -> (r: String)
    ensures
        r@ == impl_path_text(project@),
{
    "\\def\\rtImplPath{".to_owned().concat(project).concat("}")
}

/// The directive that pulls in the manifest of one toolkit module.
pub fn include_module_manifest(build_dir: &str, subdir: &str) -> (r: String)
    ensures
        r@ == include_module_text(build_dir@, subdir@),
{
    "\\input{".to_owned().concat(build_dir).concat("/").concat(subdir).concat("/src/manifest}")
}

/// The directive that pulls in the project's own manifest.
pub fn include_project_manifest(project: &str) -> (r: String)
    ensures
        r@ == include_project_text(project@),
{
    "\\input{".to_owned().concat(project).concat("/manifest}")
}

/// The call that renders the manifests and drops the implementation path.
pub fn call_impl_manifest() -> (r: String)
    ensures
        r@ == call_impl_text(),
{
    "\\rtImplManifest{}\\undef\\rtImplPath".to_owned()
}

/// One engine run over the project, writing into `build_dir`.
pub fn pdf_latex(project: &str, build_dir: &str) -> (run: Invocation)
    ensures
        run@ == pdf_latex_run(project@, build_dir@),
{
    let mut includes = String::new();
    let mut index: usize = 0;
    while index < 4
        invariant
            index <= 4,
            includes@ == module_includes(build_dir@, index as nat),
        decreases 4 - index,
    {
        let directive = include_module_manifest(build_dir, module_name(index));
        includes.append(directive.as_str());
        index += 1;
    }
    let manifest = impl_path(project).concat(includes.as_str()).concat(
        include_project_manifest(project).as_str(),
    ).concat(call_impl_manifest().as_str());
    let mut args: Vec<String> = Vec::new();
    args.push("-output-directory=".to_owned().concat(build_dir));
    args.push(manifest);
    let run = Invocation { program: PDF_LATEX.to_owned(), args };
    assert(run@.args =~= pdf_latex_run(project@, build_dir@).args);
    run
}

/// The index pass. It has no runs of its own.
pub fn make_index() -> (runs: Vec<Invocation>)
    ensures
        runs@.len() == 0,
{
    Vec::new()
}

/// The bibliography pass. It has no runs of its own.
pub fn bibliographer() -> (runs: Vec<Invocation>)
    ensures
        runs@.len() == 0,
{
    Vec::new()
}

/// The runs that produce the PDF of `project` in `build_dir`, in order.
pub fn to_pdf(project: &str, build_dir: &str) -> (plan: Vec<Invocation>)
    ensures
        runs(plan@) == to_pdf_runs(project@, build_dir@),
{
    let mut plan: Vec<Invocation> = Vec::new();
    plan.push(pdf_latex(project, build_dir));
    let mut index = make_index();
    plan.append(&mut index);
    let mut bibliography = bibliographer();
    plan.append(&mut bibliography);
    plan.push(pdf_latex(project, build_dir));
    assert(runs(plan@) =~= to_pdf_runs(project@, build_dir@));
    plan
}

} // verus!
