use bsuir_rt_utils::commands::doc::{
    display_name, generate, parsing_line, project_line, project_name, reference_path, source_root,
    warning_line, Doc, Failure, Handler, LoadError, Mismatch, Next, ParseNode, Place, Request, Rule,
    Stage,
};

fn node(rule: Rule, children: Vec<ParseNode>) -> ParseNode {
    ParseNode::new(rule, "", children)
}

fn leaf(rule: Rule, text: &str) -> ParseNode {
    ParseNode::leaf(rule, text)
}

/// `{text}`
fn mandatory(text: &str) -> ParseNode {
    node(
        Rule::CommandArg,
        vec![
            leaf(Rule::CommandLeft, "{"),
            node(Rule::CommandArgContent, vec![leaf(Rule::CommandString, text)]),
            leaf(Rule::CommandRight, "}"),
        ],
    )
}

/// `\name{arg}{arg}...` without the expression around it
fn command_impl(name: &str, args: &[&str]) -> ParseNode {
    let mut children = vec![leaf(Rule::CommandName, name)];
    for arg in args {
        children.push(mandatory(arg));
    }
    node(Rule::CommandImpl, children)
}

/// `\name{arg}{arg}...` as an expression
fn command(name: &str, args: &[&str]) -> ParseNode {
    node(Rule::Expression, vec![node(Rule::Command, vec![command_impl(name, args)])])
}

/// A documentation comment as an expression
fn doc_comment(text: &str) -> ParseNode {
    node(
        Rule::Expression,
        vec![node(
            Rule::Comment,
            vec![node(
                Rule::CommentDoxygen,
                vec![leaf(Rule::Doxyfn, "@fn"), leaf(Rule::CommentString, text)],
            )],
        )],
    )
}

/// A plain comment as an expression
fn comment(text: &str) -> ParseNode {
    node(
        Rule::Expression,
        vec![node(
            Rule::Comment,
            vec![node(Rule::CommentRegular, vec![leaf(Rule::CommentString, text)])],
        )],
    )
}

fn document(mut expressions: Vec<ParseNode>) -> ParseNode {
    expressions.push(leaf(Rule::EOI, ""));
    node(Rule::Document, expressions)
}

fn strings(items: &[&str]) -> Vec<String> {
    items.iter().map(|s| s.to_string()).collect()
}

fn load(path: &str) -> Next {
    Next::Load { path: path.to_string() }
}

const ROOT: &str = "/home/u/bsuir-rt-backend/src/manifest.tex";

#[test]
fn a_new_doc_has_taken_nothing_in() {
    let doc = Doc::new();
    assert_eq!(doc.command_name(), "");
    assert!(doc.references().is_empty());
    assert!(doc.unknown().is_empty());
    assert_eq!(doc.stage(), Stage::Idle);
    assert_eq!(doc.project_name(), "");
    assert!(doc.pending().is_empty());
}

#[test]
fn end_to_end_scenario() {
    let run = generate(&strings(&["/home/u/bsuir-rt-backend/src"]));
    let mut printed = vec![run.line.clone()];
    let mut warned: Vec<String> = Vec::new();
    let mut doc = run.doc;
    assert_eq!(run.roots, strings(&[ROOT]));

    let root = document(vec![
        doc_comment("The backend."),
        command("documentclass", &["article"]),
        command("usepackage", &["geometry"]),
        command("input", &["chapter1"]),
        command("customcmd", &["x"]),
    ]);
    let chapter = document(vec![comment("nothing to see")]);

    let first = doc.project(&run.roots[0]);
    printed.extend(first.lines);
    warned.extend(first.warnings);
    assert_eq!(first.next, load(ROOT));

    let second = doc.parse(Ok(root));
    warned.extend(second.warnings);
    printed.extend(second.lines);
    assert_eq!(doc.references(), &strings(&["chapter1"]));
    assert_eq!(second.next, load("/home/u/bsuir-rt-backend/src/chapter1.tex"));

    let third = doc.parse(Ok(chapter));
    warned.extend(third.warnings);
    printed.extend(third.lines);
    assert_eq!(third.next, Next::Done { references: strings(&["chapter1"]) });

    assert_eq!(warned, strings(&["[WARNING] Unknown command: customcmd"]));
    assert_eq!(
        printed,
        strings(&[
            "Generating documentation...",
            " -> Generating documentation for bsuir-rt-backend...",
            "  => Parsing manifest.tex",
            "  => Parsing chapter1.tex",
        ])
    );
    assert_eq!(doc.stage(), Stage::Idle);
}

#[test]
fn references_are_kept_in_source_order_with_duplicates() {
    let mut doc = Doc::new();
    let tree = document(vec![
        command("input", &["foo"]),
        command("usepackage", &["geometry"]),
        command("input", &["bar"]),
        command("input", &["foo"]),
    ]);
    assert_eq!(doc.parse_content(&tree), Ok(()));
    assert_eq!(doc.references(), &strings(&["foo", "bar", "foo"]));
    assert!(doc.unknown().is_empty());
    assert_eq!(doc.command_name(), "input");
}

#[test]
fn the_work_list_is_the_root_reference_list() {
    let mut doc = Doc::new();
    doc.project("p/src/manifest.tex");
    let request = doc.parse(Ok(document(vec![
        command("input", &["foo"]),
        command("input", &["foo"]),
        command("input", &["pages/src/bar"]),
    ])));
    assert_eq!(request.next, load("p/src/foo.tex"));
    assert_eq!(request.lines, strings(&["  => Parsing foo.tex"]));
    assert_eq!(doc.pending(), &strings(&["p/src/foo.tex", "p/src/bar.tex"]));
    assert_eq!(doc.stage(), Stage::Draining);
}

#[test]
fn resolution_is_one_level_deep() {
    let mut doc = Doc::new();
    let mut asked = Vec::new();
    let first = doc.project("p/src/manifest.tex");
    asked.push(first.next);
    let second = doc.parse(Ok(document(vec![command("input", &["a"])])));
    asked.push(second.next);
    let third = doc.parse(Ok(document(vec![command("input", &["b"])])));
    assert_eq!(asked, vec![load("p/src/manifest.tex"), load("p/src/a.tex")]);
    // `b` was noted while `a` was gone through, and is never asked for.
    assert_eq!(third.next, Next::Done { references: strings(&["a", "b"]) });
    assert_eq!(third.lines, Vec::<String>::new());
}

#[test]
fn every_argument_of_an_unknown_command_warns_once() {
    let mut doc = Doc::new();
    let tree = document(vec![
        command("customcmd", &["x"]),
        command("input", &["kept"]),
        command("other", &["y", "z"]),
        command("bare", &[]),
        command("customcmd", &["x"]),
    ]);
    assert_eq!(doc.parse_content(&tree), Ok(()));
    assert_eq!(doc.unknown(), &strings(&["customcmd", "other", "other", "customcmd"]));
    assert_eq!(doc.references(), &strings(&["kept"]));
    assert_eq!(
        doc.take_warnings(),
        strings(&[
            "[WARNING] Unknown command: customcmd",
            "[WARNING] Unknown command: other",
            "[WARNING] Unknown command: other",
            "[WARNING] Unknown command: customcmd",
        ])
    );
    assert!(doc.unknown().is_empty());
    assert_eq!(doc.take_warnings(), Vec::<String>::new());
}

#[test]
fn command_names_are_compared_as_written() {
    let mut doc = Doc::new();
    let tree = document(vec![
        command("Input", &["a"]),
        command("input ", &["b"]),
        command("INPUT", &["c"]),
        command("usePackage", &["d"]),
    ]);
    assert_eq!(doc.parse_content(&tree), Ok(()));
    assert!(doc.references().is_empty());
    assert_eq!(doc.unknown(), &strings(&["Input", "input ", "INPUT", "usePackage"]));
}

#[test]
fn known_commands_are_silent() {
    let mut doc = Doc::new();
    let tree = document(vec![
        command("NewDocumentCommand", &["\\foo", "m", "body"]),
        command("usepackage", &["geometry"]),
        command("documentclass", &["article"]),
    ]);
    assert_eq!(doc.parse_content(&tree), Ok(()));
    assert!(doc.references().is_empty());
    assert!(doc.unknown().is_empty());
    assert_eq!(doc.command_name(), "documentclass");
}

#[test]
fn lookup_goes_by_the_current_command() {
    let mut doc = Doc::new();
    assert_eq!(doc.lookup(), Handler::Unknown);
    for (name, handler) in [
        ("input", Handler::RecordInclude),
        ("NewDocumentCommand", Handler::Noop),
        ("usepackage", Handler::Noop),
        ("documentclass", Handler::Noop),
        ("include", Handler::Unknown),
        ("", Handler::Unknown),
    ] {
        assert_eq!(doc.parse_command(&leaf(Rule::CommandName, name)), Ok(()));
        assert_eq!(doc.command_name(), name);
        assert_eq!(doc.lookup(), handler);
    }
}

#[test]
fn process_command_string_dispatches_on_the_current_command() {
    let mut doc = Doc::new();
    doc.process_command_string("early");
    assert_eq!(doc.unknown(), &strings(&[""]));
    doc.parse_command(&leaf(Rule::CommandName, "input")).unwrap();
    doc.process_command_string("a/b");
    doc.process_command_string("");
    assert_eq!(doc.references(), &strings(&["a/b", ""]));
    doc.parse_command(&leaf(Rule::CommandName, "usepackage")).unwrap();
    doc.process_command_string("geometry");
    assert_eq!(doc.references(), &strings(&["a/b", ""]));
    assert_eq!(doc.unknown(), &strings(&[""]));
}

#[test]
fn the_command_name_outlives_its_command() {
    // An argument without a name of its own belongs to the command before it.
    let mut doc = Doc::new();
    let tree = node(
        Rule::Command,
        vec![command_impl("input", &["a"]), node(Rule::CommandImpl, vec![mandatory("b")])],
    );
    assert_eq!(doc.parse_expression(&tree), Ok(()));
    assert_eq!(doc.references(), &strings(&["a", "b"]));
}

#[test]
fn a_command_nested_in_an_argument_is_passed_over() {
    let mut doc = Doc::new();
    let nested = node(
        Rule::CommandArg,
        vec![
            leaf(Rule::CommandLeft, "{"),
            node(
                Rule::CommandArgContent,
                vec![
                    leaf(Rule::CommandString, "before"),
                    command_impl("customcmd", &["hidden"]),
                    leaf(Rule::CommandSplit, ","),
                    leaf(Rule::CommandString, "after"),
                    mandatory("deeper"),
                ],
            ),
            leaf(Rule::CommandRight, "}"),
        ],
    );
    let tree = node(Rule::CommandImpl, vec![leaf(Rule::CommandName, "input"), nested]);
    assert_eq!(doc.parse_command(&tree), Ok(()));
    // The enclosing command decides, and neither the nested command nor the
    // argument inside the content is gone into.
    assert_eq!(doc.references(), &strings(&["before", "after"]));
    assert!(doc.unknown().is_empty());
    assert_eq!(doc.command_name(), "input");
}

#[test]
fn optional_arguments_and_lists_are_read_like_the_others() {
    let mut doc = Doc::new();
    let optional = node(
        Rule::CommandArg,
        vec![
            leaf(Rule::CommandLeftOpt, "["),
            node(
                Rule::CommandArgContent,
                vec![
                    leaf(Rule::CommandString, "a"),
                    leaf(Rule::CommandSplit, ","),
                    leaf(Rule::CommandString, "b"),
                ],
            ),
            leaf(Rule::CommandRightOpt, "]"),
        ],
    );
    let tree = node(
        Rule::CommandImpl,
        vec![leaf(Rule::CommandName, "input"), optional, mandatory("c")],
    );
    assert_eq!(doc.parse_command(&tree), Ok(()));
    assert_eq!(doc.references(), &strings(&["a", "b", "c"]));
}

#[test]
fn comments_say_nothing() {
    let mut doc = Doc::new();
    let tree = document(vec![
        doc_comment("Frobnicates."),
        comment("\\input{not-read}"),
        node(
            Rule::Expression,
            vec![node(
                Rule::Comment,
                vec![node(
                    Rule::CommentRegular,
                    vec![
                        leaf(Rule::CommentString, "outer"),
                        leaf(Rule::CommentSplit, "\n"),
                        node(Rule::CommentRegular, vec![leaf(Rule::CommentString, "inner")]),
                        node(Rule::CommentDoxygen, vec![leaf(Rule::Doxyfn, "@fn")]),
                    ],
                )],
            )],
        ),
    ]);
    assert_eq!(doc.parse_content(&tree), Ok(()));
    assert!(doc.references().is_empty());
    assert!(doc.unknown().is_empty());
    assert_eq!(doc.command_name(), "");
}

#[test]
fn a_command_inside_a_comment_is_gone_through_and_dropped() {
    let mut doc = Doc::new();
    doc.parse_command(&leaf(Rule::CommandName, "usepackage")).unwrap();
    let tree = document(vec![node(
        Rule::Expression,
        vec![node(
            Rule::Comment,
            vec![node(
                Rule::CommentRegular,
                vec![
                    leaf(Rule::CommentString, "was: "),
                    node(Rule::Command, vec![command_impl("input", &["old-chapter"])]),
                    command_impl("customcmd", &["x"]),
                ],
            )],
        )],
    )]);
    assert_eq!(doc.parse_content(&tree), Ok(()));
    assert!(doc.references().is_empty());
    assert!(doc.unknown().is_empty());
    assert_eq!(doc.command_name(), "usepackage");
}

#[test]
fn a_document_has_no_place_inside_a_comment() {
    let mut doc = Doc::new();
    let tree = node(
        Rule::CommentRegular,
        vec![
            leaf(Rule::CommentString, "fine"),
            node(Rule::CommandImpl, vec![leaf(Rule::CommandName, "fine"), leaf(Rule::EOI, "")]),
            leaf(Rule::Document, ""),
        ],
    );
    assert_eq!(doc.parse_comment(&tree), mismatch(Place::Comment, Rule::EOI));
    assert_eq!(doc.for_each(Place::Comment, &tree), mismatch(Place::Comment, Rule::EOI));
}

#[test]
fn a_comment_may_trail_a_command() {
    let mut doc = Doc::new();
    let tree = node(
        Rule::Command,
        vec![
            command_impl("input", &["a"]),
            node(Rule::CommentRegular, vec![leaf(Rule::CommentString, "why")]),
        ],
    );
    assert_eq!(doc.parse_expression(&tree), Ok(()));
    assert_eq!(doc.references(), &strings(&["a"]));
}

fn mismatch(place: Place, rule: Rule) -> Result<(), Mismatch> {
    Err(Mismatch { place, rule })
}

#[test]
fn each_place_rejects_what_does_not_belong() {
    let mut doc = Doc::new();
    assert_eq!(
        doc.parse_content(&leaf(Rule::Expression, "")),
        mismatch(Place::Content, Rule::Expression)
    );
    assert_eq!(doc.parse_content(&leaf(Rule::EOI, "")), mismatch(Place::Content, Rule::EOI));
    assert_eq!(
        doc.parse_document(&leaf(Rule::Command, "")),
        mismatch(Place::Document, Rule::Command)
    );
    assert_eq!(
        doc.parse_expression(&leaf(Rule::CommandImpl, "")),
        mismatch(Place::Expression, Rule::CommandImpl)
    );
    for rule in [Rule::Document, Rule::Expression, Rule::EOI] {
        assert_eq!(doc.parse_comment(&leaf(rule, "")), mismatch(Place::Comment, rule));
    }
    assert_eq!(
        doc.parse_command(&leaf(Rule::CommandString, "x")),
        mismatch(Place::Command, Rule::CommandString)
    );
    assert_eq!(
        doc.parse_command(&leaf(Rule::CommentDoxygen, "")),
        mismatch(Place::Command, Rule::CommentDoxygen)
    );
    assert_eq!(
        doc.process_command_arg(&leaf(Rule::CommandName, "x")),
        mismatch(Place::Argument, Rule::CommandName)
    );
    assert_eq!(
        doc.process_command_arg(&leaf(Rule::CommentRegular, "")),
        mismatch(Place::Argument, Rule::CommentRegular)
    );
    assert!(doc.references().is_empty());
    assert!(doc.unknown().is_empty());
    assert_eq!(doc.command_name(), "");
}

#[test]
fn each_place_accepts_what_belongs() {
    let mut doc = Doc::new();
    assert_eq!(doc.parse_content(&leaf(Rule::Document, "")), Ok(()));
    assert_eq!(doc.parse_document(&leaf(Rule::EOI, "")), Ok(()));
    assert_eq!(doc.parse_document(&leaf(Rule::Expression, "")), Ok(()));
    assert_eq!(doc.parse_expression(&leaf(Rule::Comment, "")), Ok(()));
    assert_eq!(doc.parse_expression(&leaf(Rule::Command, "")), Ok(()));
    for rule in [
        Rule::Comment,
        Rule::CommentDoxygen,
        Rule::CommentRegular,
        Rule::Doxyfn,
        Rule::CommentString,
        Rule::CommentSplit,
        Rule::Command,
        Rule::CommandImpl,
        Rule::CommandName,
        Rule::CommandArg,
        Rule::CommandLeft,
        Rule::CommandRight,
        Rule::CommandLeftOpt,
        Rule::CommandRightOpt,
        Rule::CommandArgContent,
        Rule::CommandString,
        Rule::CommandSplit,
    ] {
        assert_eq!(doc.parse_comment(&leaf(rule, "x")), Ok(()));
        assert_eq!(doc.parse_comments(&node(Rule::Comment, vec![leaf(rule, "x")])), Ok(()));
    }
    for rule in [Rule::CommandImpl, Rule::CommentRegular, Rule::CommandArg] {
        assert_eq!(doc.parse_command(&leaf(rule, "x")), Ok(()));
    }
    for rule in [
        Rule::CommandLeft,
        Rule::CommandRight,
        Rule::CommandLeftOpt,
        Rule::CommandRightOpt,
        Rule::CommandArg,
        Rule::CommandArgContent,
        Rule::CommandImpl,
        Rule::CommandSplit,
    ] {
        assert_eq!(doc.process_command_arg(&leaf(rule, "x")), Ok(()));
    }
    assert!(doc.references().is_empty());
    assert!(doc.unknown().is_empty());
    assert_eq!(doc.command_name(), "");
}

#[test]
fn the_walk_stops_at_the_first_mismatch() {
    let mut doc = Doc::new();
    let tree = document(vec![
        command("input", &["before"]),
        node(Rule::Expression, vec![leaf(Rule::CommandName, "stray")]),
        command("input", &["after"]),
        node(Rule::Expression, vec![leaf(Rule::Document, "")]),
    ]);
    assert_eq!(doc.parse_content(&tree), mismatch(Place::Expression, Rule::CommandName));
    assert_eq!(doc.references(), &strings(&["before"]));
    assert_eq!(doc.for_each(Place::Document, &tree), mismatch(Place::Expression, Rule::CommandName));
    assert_eq!(doc.references(), &strings(&["before", "before"]));
}

#[test]
fn for_each_goes_through_the_children_in_order() {
    let mut doc = Doc::new();
    let parent = node(Rule::CommandArgContent, vec![
        leaf(Rule::CommandString, "a"),
        leaf(Rule::CommandString, "b"),
    ]);
    doc.parse_command(&leaf(Rule::CommandName, "input")).unwrap();
    assert_eq!(doc.for_each(Place::Argument, &parent), Ok(()));
    assert_eq!(doc.references(), &strings(&["a", "b"]));
    assert_eq!(doc.for_each(Place::Comment, &parent), Ok(()));
    assert_eq!(doc.for_each(Place::Content, &parent), mismatch(Place::Content, Rule::CommandString));
    assert_eq!(doc.for_each(Place::Argument, &leaf(Rule::EOI, "")), Ok(()));
}

#[test]
fn a_mismatch_ends_the_run() {
    let mut doc = Doc::new();
    doc.project("p/src/manifest.tex");
    let tree = document(vec![
        command("customcmd", &["x"]),
        command("input", &["a"]),
        leaf(Rule::CommandArg, ""),
    ]);
    let request = doc.parse(Ok(tree));
    assert_eq!(
        request,
        Request {
            warnings: strings(&["[WARNING] Unknown command: customcmd"]),
            lines: vec![],
            next: Next::Abort {
                failure: Failure::Mismatch {
                    path: "p/src/manifest.tex".to_string(),
                    mismatch: Mismatch { place: Place::Document, rule: Rule::CommandArg },
                },
            },
        }
    );
    assert_eq!(doc.stage(), Stage::Failed);
    assert!(doc.pending().is_empty());
}

#[test]
fn malformed_input_aborts_without_references() {
    let mut doc = Doc::new();
    doc.project("p/src/manifest.tex");
    let request = doc.parse(Err(LoadError::Syntax { detail: "expected `}`".to_string() }));
    let failure = Failure::Syntax {
        path: "p/src/manifest.tex".to_string(),
        detail: "expected `}`".to_string(),
    };
    assert_eq!(failure.message(), "Failed to parse file p/src/manifest.tex: expected `}`");
    assert_eq!(request, Request { warnings: vec![], lines: vec![], next: Next::Abort { failure } });
    assert!(doc.references().is_empty());
    assert!(doc.pending().is_empty());
    assert_eq!(doc.stage(), Stage::Failed);
}

#[test]
fn an_unreadable_file_aborts_the_run() {
    let mut doc = Doc::new();
    doc.project("p/src/manifest.tex");
    doc.parse(Ok(document(vec![command("input", &["a"]), command("input", &["b"])])));
    let request = doc.parse(Err(LoadError::Unreadable { detail: "not found".to_string() }));
    let failure = Failure::Unreadable {
        path: "p/src/a.tex".to_string(),
        detail: "not found".to_string(),
    };
    assert_eq!(failure.message(), "Failed to read file p/src/a.tex: not found");
    assert_eq!(request, Request { warnings: vec![], lines: vec![], next: Next::Abort { failure } });
    assert_eq!(doc.references(), &strings(&["a", "b"]));
    assert_eq!(doc.pending(), &strings(&["p/src/b.tex"]));
    assert_eq!(doc.stage(), Stage::Failed);
}

#[test]
fn a_mismatch_message_names_the_file() {
    let failure = Failure::Mismatch {
        path: "p/src/a.tex".to_string(),
        mismatch: Mismatch { place: Place::Content, rule: Rule::EOI },
    };
    assert_eq!(failure.message(), "Failed to walk file p/src/a.tex");
}

#[test]
fn projects_back_to_back_start_clean() {
    let mut doc = Doc::new();
    doc.project("one/src/manifest.tex");
    doc.parse(Ok(document(vec![command("input", &["a"])])));
    let done = doc.parse(Ok(document(vec![command("input", &["deep"])])));
    assert_eq!(done.next, Next::Done { references: strings(&["a", "deep"]) });
    assert!(doc.references().is_empty());
    assert_eq!(doc.stage(), Stage::Idle);
    assert_eq!(doc.project_name(), "");

    let opening = doc.project("two/src/manifest.tex");
    assert!(doc.references().is_empty());
    assert_eq!(opening.lines[0], " -> Generating documentation for two...");
    let next = doc.parse(Ok(document(vec![command("input", &["b"])])));
    assert_eq!(next.next, load("two/src/b.tex"));
    assert_eq!(doc.references(), &strings(&["b"]));
    let done = doc.parse(Ok(document(vec![])));
    assert_eq!(done.next, Next::Done { references: strings(&["b"]) });
}

#[test]
fn a_project_without_references_is_done_after_its_root() {
    let mut doc = Doc::new();
    let opening = doc.project("p/src/manifest.tex");
    assert_eq!(
        opening,
        Request {
            warnings: vec![],
            lines: strings(&[" -> Generating documentation for p...", "  => Parsing manifest.tex"]),
            next: load("p/src/manifest.tex"),
        }
    );
    assert_eq!(doc.stage(), Stage::Root);
    assert_eq!(doc.project_name(), "p");
    let done = doc.parse(Ok(document(vec![command("customcmd", &["x"])])));
    assert_eq!(
        done,
        Request {
            warnings: strings(&["[WARNING] Unknown command: customcmd"]),
            lines: vec![],
            next: Next::Done { references: vec![] },
        }
    );
    assert_eq!(doc.stage(), Stage::Idle);
}

#[test]
fn snapshot_maps_each_reference_to_its_file() {
    let mut doc = Doc::new();
    doc.project("/w/p/src/manifest.tex");
    doc.parse_command(&command_impl("input", &["a", "pages/src/b", "/src/src/c"])).unwrap();
    assert_eq!(
        doc.snapshot(),
        strings(&["/w/p/src/a.tex", "/w/p/src/b.tex", "/w/p/src/src/c.tex"])
    );
}

#[test]
fn project_name_is_the_directory_above_src() {
    assert_eq!(project_name("/home/u/bsuir-rt-backend/src/manifest.tex"), "bsuir-rt-backend");
    assert_eq!(project_name("p/src/manifest.tex"), "p");
    assert_eq!(project_name("/src/manifest.tex"), "");
    assert_eq!(project_name("a/b/manifest.tex"), "manifest.tex");
    assert_eq!(project_name(""), "");
}

#[test]
fn source_root_is_the_directory_of_the_root_document() {
    assert_eq!(source_root("/w/p/src/manifest.tex"), "/w/p/src");
    assert_eq!(source_root("manifest.tex"), "manifest.tex");
    assert_eq!(source_root("/manifest.tex"), "");
}

#[test]
fn display_name_is_the_path_inside_the_sources() {
    assert_eq!(display_name("p", "/w/p/src/manifest.tex"), "manifest.tex");
    assert_eq!(display_name("proj", "/w/proj/src/pages/intro.tex"), "pages/intro.tex");
    // The path is cut behind the last occurrence of the name, wherever it is.
    assert_eq!(display_name("p", "/w/p/src/pages/intro.tex"), "ages/intro.tex");
    assert_eq!(display_name("q", "/w/p/src/a.tex"), "/w/pa.tex");
    assert_eq!(display_name("", "/w/p/src/a.tex"), "");
}

#[test]
fn reference_path_looks_under_the_sources() {
    assert_eq!(reference_path("/w/p/src", "chapter1"), "/w/p/src/chapter1.tex");
    assert_eq!(reference_path("/w/p/src", "pages/intro"), "/w/p/src/pages/intro.tex");
    assert_eq!(reference_path("/w/p/src", "build/rules/src/defs"), "/w/p/src/defs.tex");
    assert_eq!(reference_path("", ""), "/.tex");
}

#[test]
fn progress_lines() {
    assert_eq!(project_line("p"), " -> Generating documentation for p...");
    assert_eq!(parsing_line("a.tex"), "  => Parsing a.tex");
    assert_eq!(warning_line("customcmd"), "[WARNING] Unknown command: customcmd");
}

#[test]
fn generate_lists_the_root_documents() {
    let run = generate(&strings(&["a/src", "b/src"]));
    assert_eq!(run.line, "Generating documentation...");
    assert_eq!(run.roots, strings(&["a/src/manifest.tex", "b/src/manifest.tex"]));
    assert_eq!(run.doc.stage(), Stage::Idle);
    assert!(run.doc.references().is_empty());
    let none = generate(&[]);
    assert_eq!(none.line, "Generating documentation...");
    assert!(none.roots.is_empty());
}

#[test]
fn parse_nodes_hold_what_they_are_given() {
    let node = ParseNode::new(Rule::CommandArg, "{x}", vec![ParseNode::leaf(Rule::CommandString, "x")]);
    assert_eq!(node.rule, Rule::CommandArg);
    assert_eq!(node.text, "{x}");
    assert_eq!(node.children.len(), 1);
    assert_eq!(node.children[0].rule, Rule::CommandString);
    assert_eq!(node.children[0].text, "x");
    assert!(node.children[0].children.is_empty());
}
