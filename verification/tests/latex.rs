use bsuir_rt_utils::commands::latex::{
    bibliographer, call_impl_manifest, impl_path, include_module_manifest, include_project_manifest,
    make_index, module_name, pdf_latex, to_pdf, Invocation, PDF_LATEX,
};

#[test]
fn impl_path_defines_the_project_path() {
    assert_eq!(impl_path("thesis"), "\\def\\rtImplPath{thesis}");
    assert_eq!(impl_path(""), "\\def\\rtImplPath{}");
}

#[test]
fn include_module_manifest_points_into_the_build_directory() {
    assert_eq!(
        include_module_manifest("thesis/build", "rules"),
        "\\input{thesis/build/rules/src/manifest}"
    );
}

#[test]
fn include_project_manifest_points_at_the_project() {
    assert_eq!(include_project_manifest("thesis"), "\\input{thesis/manifest}");
}

#[test]
fn call_impl_manifest_renders_and_cleans_up() {
    assert_eq!(call_impl_manifest(), "\\rtImplManifest{}\\undef\\rtImplPath");
}

#[test]
fn module_names_are_in_toolkit_order() {
    let names: Vec<&str> = (0..4).map(module_name).collect();
    assert_eq!(names, vec!["backend", "rules", "service", "frontend"]);
}

#[test]
fn pdf_latex_runs_the_engine_on_the_assembled_manifest() {
    let run = pdf_latex("thesis", "thesis/build");
    assert_eq!(PDF_LATEX, "xelatex");
    assert_eq!(run.program, "xelatex");
    assert_eq!(
        run.args,
        vec![
            "-output-directory=thesis/build".to_string(),
            concat_all(&[
                "\\def\\rtImplPath{thesis}",
                "\\input{thesis/build/backend/src/manifest}",
                "\\input{thesis/build/rules/src/manifest}",
                "\\input{thesis/build/service/src/manifest}",
                "\\input{thesis/build/frontend/src/manifest}",
                "\\input{thesis/manifest}",
                "\\rtImplManifest{}\\undef\\rtImplPath",
            ]),
        ]
    );
}

fn concat_all(parts: &[&str]) -> String {
    let mut all = String::new();
    for part in parts {
        all.push_str(part);
    }
    all
}

#[test]
fn index_and_bibliography_add_no_runs() {
    assert_eq!(make_index(), Vec::<Invocation>::new());
    assert_eq!(bibliographer(), Vec::<Invocation>::new());
}

#[test]
fn to_pdf_runs_the_engine_twice() {
    let plan = to_pdf("thesis", "thesis/build");
    assert_eq!(plan, vec![pdf_latex("thesis", "thesis/build"), pdf_latex("thesis", "thesis/build")]);
}
