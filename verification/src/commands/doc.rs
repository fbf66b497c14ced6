//! Reading documentation metadata and file references off parsed documents.
//!
//! A document arrives as a tree of [`ParseNode`]s. What the tree says is its
//! [`Reading`]: the command names and argument texts met on the way through
//! it, in source order, up to the first node that has no place where it
//! stands. A [`Doc`] takes readings in: it keeps the name of the command it is
//! in, the files that `input` commands refer to, and the names of the commands
//! it does not know.

use vstd::prelude::*;
use vstd::string::*;
use crate::text::texts;

verus! {

/// The productions of the grammar: what a node of the parse tree can be.
#[derive(Clone, Copy, Debug, PartialEq, Eq, Structural)]
pub enum Rule {
    /// The end of the input.
    EOI,
    /// A whole document.
    Document,
    /// One comment or one command, directly under the document.
    Expression,
    /// A comment of either kind.
    Comment,
    /// A documentation comment.
    CommentDoxygen,
    /// A plain comment.
    CommentRegular,
    /// The anchor that introduces a documentation comment.
    Doxyfn,
    /// The text of a comment.
    CommentString,
    /// A break inside a comment.
    CommentSplit,
    /// A command with all that belongs to it.
    Command,
    /// A command's name with its arguments.
    CommandImpl,
    /// The name of a command.
    CommandName,
    /// One argument of a command, brackets included.
    CommandArg,
    /// The bracket that opens a mandatory argument.
    CommandLeft,
    /// The bracket that closes a mandatory argument.
    CommandRight,
    /// The bracket that opens an optional argument.
    CommandLeftOpt,
    /// The bracket that closes an optional argument.
    CommandRightOpt,
    /// What stands between the brackets of an argument.
    CommandArgContent,
    /// Plain text inside an argument.
    CommandString,
    /// The delimiter between the parts of a list argument.
    CommandSplit,
}

/// A node of the parse tree: the production it matched, the source text it
/// spans, and the nodes below it, in source order.
#[derive(Debug)]
pub struct ParseNode {
    pub rule: Rule,
    pub text: String,
    pub children: Vec<ParseNode>,
}

impl ParseNode {
    /// A node of production `rule` that spans `text` and has `children`
    /// below it.
    pub fn new(rule: Rule, text: &str, children: Vec<ParseNode>) -> (node: Self)
        ensures
            node.rule == rule,
            node.text@ == text@,
            node.children == children,
    {
        Self { rule, text: text.to_owned(), children }
    }

    /// A node of production `rule` that spans `text` and has nothing below
    /// it.
    pub fn leaf(rule: Rule, text: &str) -> (node: Self)
        ensures
            node.rule == rule,
            node.text@ == text@,
            node.children@ == Seq::<ParseNode>::empty(),
    {
        Self { rule, text: text.to_owned(), children: Vec::new() }
    }
}

/// Where in the tree the walk stands: what it expects of the next node.
#[derive(Clone, Copy, Debug, PartialEq, Eq, Structural)]
pub enum Place {
    /// At the root: a document is expected.
    Content,
    /// Under the document: expressions, then the end of the input.
    Document,
    /// Under an expression: a comment or a command.
    Expression,
    /// Inside a comment.
    Comment,
    /// Inside a command.
    Command,
    /// Inside an argument of a command.
    Argument,
}

/// A node whose production has no place where the node stands. The grammar
/// and the walk have come apart.
#[derive(Clone, Copy, Debug, PartialEq, Eq, Structural)]
pub struct Mismatch {
    pub place: Place,
    pub rule: Rule,
}

/// What the walk does with a node.
pub enum Route {
    /// Pass over it, and over all below it.
    Skip,
    /// Go through the nodes below it, each standing at the given place.
    Descend(Place),
    /// Its text is the name of the command that the walk is now in.
    Name,
    /// Its text is an argument of the command that the walk is in.
    Text,
    /// It has no place here.
    Reject,
}

/// What the walk does with a node of production `rule` that stands at `place`.
pub open spec fn route(place: Place, rule: Rule) -> Route {
    match place {
        Place::Content => match rule {
            Rule::Document => Route::Descend(Place::Document),
            _ => Route::Reject,
        },
        Place::Document => match rule {
            Rule::Expression => Route::Descend(Place::Expression),
            Rule::EOI => Route::Skip,
            _ => Route::Reject,
        },
        Place::Expression => match rule {
            Rule::Comment => Route::Descend(Place::Comment),
            Rule::Command => Route::Descend(Place::Command),
            _ => Route::Reject,
        },
        Place::Comment => match rule {
            Rule::Doxyfn | Rule::CommentString | Rule::CommentSplit => Route::Skip,
            Rule::Document | Rule::Expression | Rule::EOI => Route::Reject,
            _ => Route::Descend(Place::Comment),
        },
        Place::Command => match rule {
            Rule::CommandImpl => Route::Descend(Place::Command),
            Rule::CommentRegular => Route::Descend(Place::Comment),
            Rule::CommandName => Route::Name,
            Rule::CommandArg => Route::Descend(Place::Argument),
            _ => Route::Reject,
        },
        Place::Argument => match rule {
            Rule::CommandLeft
            | Rule::CommandRight
            | Rule::CommandLeftOpt
            | Rule::CommandRightOpt
            | Rule::CommandArg
            | Rule::CommandImpl
            | Rule::CommandSplit => Route::Skip,
            Rule::CommandArgContent => Route::Descend(Place::Argument),
            Rule::CommandString => Route::Text,
            _ => Route::Reject,
        },
    }
}

/// One thing that the walk reads off the tree.
pub enum Token {
    /// The name of a command: the walk is in this command from here on.
    Name(Seq<char>),
    /// The text of an argument of the command that the walk is in.
    Text(Seq<char>),
}

/// What a tree, or a part of one, says: the tokens read off it in source
/// order, and the node at which the walk had to stop, if it had to. A reading
/// that stopped holds the tokens read before the stop.
pub struct Reading {
    pub tokens: Seq<Token>,
    pub stop: Option<Mismatch>,
}

/// The reading of nothing.
pub open spec fn silence() -> Reading {
    Reading { tokens: Seq::empty(), stop: None }
}

/// One reading after the other. Nothing is read after a stop.
pub open spec fn followed_by(first: Reading, second: Reading) -> Reading {
    if first.stop is Some {
        first
    } else {
        Reading { tokens: first.tokens + second.tokens, stop: second.stop }
    }
}

/// The reading of `node`, which stands at `place`.
pub open spec fn read(place: Place, node: ParseNode) -> Reading
    decreases node, node.children@.len() + 1,
{
    match route(place, node.rule) {
        Route::Skip => silence(),
        Route::Descend(below) => read_children(below, node, node.children@.len()),
        Route::Name => Reading { tokens: seq![Token::Name(node.text@)], stop: None },
        Route::Text => Reading { tokens: seq![Token::Text(node.text@)], stop: None },
        Route::Reject => Reading {
            tokens: Seq::empty(),
            stop: Some(Mismatch { place, rule: node.rule }),
        },
    }
}

/// The reading of the first `count` nodes below `parent`, each of which
/// stands at `place`.
pub open spec fn read_children(place: Place, parent: ParseNode, count: nat) -> Reading
    decreases parent, count,
{
    if count == 0 || count > parent.children@.len() {
        silence()
    } else {
        followed_by(
            read_children(place, parent, (count - 1) as nat),
            read(place, parent.children@[count - 1]),
        )
    }
}

/// What a finished walk reports: the stop, if there was one.
pub open spec fn verdict(reading: Reading) -> Result<(), Mismatch> {
    match reading.stop {
        Some(mismatch) => Err(mismatch),
        None => Ok(()),
    }
}

/// What a command name stands for.
#[derive(Clone, Copy, Debug, PartialEq, Eq, Structural)]
pub enum Handler {
    /// The command pulls in a file: its argument is a reference.
    RecordInclude,
    /// The command is known and says nothing about files.
    Noop,
    /// The command is not known.
    Unknown,
}

/// The table of known commands. Names are compared as they are written.
pub open spec fn handler(name: Seq<char>) -> Handler {
    if name == "input"@ {
        Handler::RecordInclude
    } else if name == "NewDocumentCommand"@ || name == "usepackage"@ || name == "documentclass"@ {
        Handler::Noop
    } else {
        Handler::Unknown
    }
}

/// What a [`Doc`] has taken in.
pub struct Notes {
    /// The name of the command that the walk is in: the last name read.
    pub command_name: Seq<char>,
    /// The files referred to, in the order in which they were met. A file
    /// referred to twice is listed twice.
    pub references: Seq<Seq<char>>,
    /// The name of an unknown command, once for each of its argument texts,
    /// in the order in which they were met.
    pub unknown: Seq<Seq<char>>,
}

/// The notes of a reader that has taken nothing in.
pub open spec fn nothing() -> Notes {
    Notes { command_name: Seq::empty(), references: Seq::empty(), unknown: Seq::empty() }
}

/// The notes after `token` has been taken in.
pub open spec fn note(notes: Notes, token: Token) -> Notes {
    match token {
        Token::Name(name) => Notes { command_name: name, ..notes },
        Token::Text(text) => match handler(notes.command_name) {
            Handler::RecordInclude => Notes { references: notes.references.push(text), ..notes },
            Handler::Noop => notes,
            Handler::Unknown => Notes { unknown: notes.unknown.push(notes.command_name), ..notes },
        },
    }
}

/// The notes after `tokens` have been taken in, one after the other.
pub open spec fn note_all(notes: Notes, tokens: Seq<Token>) -> Notes
    decreases tokens.len(),
{
    if tokens.len() == 0 {
        notes
    } else {
        note(note_all(notes, tokens.drop_last()), tokens.last())
    }
}

/// Taking in two runs of tokens one after the other is taking in the two
/// joined.
pub proof fn lemma_note_all_joined(notes: Notes, first: Seq<Token>, second: Seq<Token>)
    ensures
        note_all(notes, first + second) == note_all(note_all(notes, first), second),
    decreases second.len(),
{
    if second.len() == 0 {
        assert(first + second == first);
    } else {
        assert((first + second).drop_last() == first + second.drop_last());
        lemma_note_all_joined(notes, first, second.drop_last());
    }
}

/// Nothing is read inside a comment: a comment can only stop the walk.
pub proof fn lemma_comments_are_silent(node: ParseNode)
    ensures
        read(Place::Comment, node).tokens == Seq::<Token>::empty(),
    decreases node, node.children@.len() + 1,
{
    match route(Place::Comment, node.rule) {
        Route::Descend(below) => {
            lemma_comment_children_are_silent(node, node.children@.len());
        },
        _ => {},
    }
}

/// Nothing is read off the nodes below a comment.
pub proof fn lemma_comment_children_are_silent(parent: ParseNode, count: nat)
    ensures
        read_children(Place::Comment, parent, count).tokens == Seq::<Token>::empty(),
    decreases parent, count,
{
    if count == 0 || count > parent.children@.len() {
    } else {
        lemma_comment_children_are_silent(parent, (count - 1) as nat);
        lemma_comments_are_silent(parent.children@[count - 1]);
    }
}

/// How far a [`Doc`] is with the project it works on.
#[derive(Clone, Copy, Debug, PartialEq, Eq, Structural)]
pub enum Stage {
    /// Between projects.
    Idle,
    /// The root document of a project has been asked for.
    Root,
    /// A file that the root document refers to has been asked for.
    Draining,
    /// A file could not be had, or its tree could not be walked. Nothing
    /// follows.
    Failed,
}

/// The project that a [`Doc`] works on.
pub struct Session {
    pub stage: Stage,
    /// The short name of the project.
    pub project: Seq<char>,
    /// The directory that holds the project's sources.
    pub source_root: Seq<char>,
    /// The file that has been asked for.
    pub loading: Seq<char>,
    /// The files that the root document refers to and that have not been
    /// asked for yet, in the order in which it refers to them.
    pub pending: Seq<Seq<char>>,
}

/// Between projects: no project, nothing asked for, nothing pending.
pub open spec fn rest() -> Session {
    Session {
        stage: Stage::Idle,
        project: Seq::empty(),
        source_root: Seq::empty(),
        loading: Seq::empty(),
        pending: Seq::empty(),
    }
}

/// Why a file did not arrive as a tree.
#[derive(Clone, Debug, PartialEq, Eq)]
pub enum LoadError {
    /// The file is missing, cannot be read, or is not text.
    Unreadable { detail: String },
    /// The text does not match the grammar.
    Syntax { detail: String },
}

/// Why the run cannot go on.
#[derive(Clone, Debug, PartialEq, Eq)]
pub enum Failure {
    /// The file at `path` is missing, cannot be read, or is not text.
    Unreadable { path: String, detail: String },
    /// The text of the file at `path` does not match the grammar.
    Syntax { path: String, detail: String },
    /// The tree of the file at `path` holds a node that has no place where
    /// it stands.
    Mismatch { path: String, mismatch: Mismatch },
}

/// What a [`Failure`] says.
pub enum FailureView {
    Unreadable { path: Seq<char>, detail: Seq<char> },
    Syntax { path: Seq<char>, detail: Seq<char> },
    Mismatch { path: Seq<char>, mismatch: Mismatch },
}

impl View for Failure {
    type V = FailureView;

    open spec fn view(&self) -> FailureView {
        match *self {
            Failure::Unreadable { path, detail } => FailureView::Unreadable {
                path: path@,
                detail: detail@,
            },
            Failure::Syntax { path, detail } => FailureView::Syntax { path: path@, detail: detail@ },
            Failure::Mismatch { path, mismatch } => FailureView::Mismatch { path: path@, mismatch },
        }
    }
}

/// What the caller is to do next.
#[derive(Clone, Debug, PartialEq, Eq)]
pub enum Next {
    /// Read the file at `path`, parse it, and hand back what came of it.
    Load { path: String },
    /// The project is through. `references` are the files that its documents
    /// refer to, in the order in which they were met.
    Done { references: Vec<String> },
    /// The run is over.
    Abort { failure: Failure },
}

/// What a [`Next`] says.
pub enum NextView {
    Load { path: Seq<char> },
    Done { references: Seq<Seq<char>> },
    Abort { failure: FailureView },
}

impl View for Next {
    type V = NextView;

    open spec fn view(&self) -> NextView {
        match *self {
            Next::Load { path } => NextView::Load { path: path@ },
            Next::Done { references } => NextView::Done { references: texts(references@) },
            Next::Abort { failure } => NextView::Abort { failure: failure@ },
        }
    }
}

/// What the resolver asks of its caller: the warnings to print on the error
/// stream, then the lines to print on the output stream, then what to do.
#[derive(Clone, Debug, PartialEq, Eq)]
pub struct Request {
    pub warnings: Vec<String>,
    pub lines: Vec<String>,
    pub next: Next,
}

/// What a [`Request`] says.
pub struct RequestView {
    pub warnings: Seq<Seq<char>>,
    pub lines: Seq<Seq<char>>,
    pub next: NextView,
}

impl View for Request {
    type V = RequestView;

    open spec fn view(&self) -> RequestView {
        RequestView { warnings: texts(self.warnings@), lines: texts(self.lines@), next: self.next@ }
    }
}

/// The short name of the project whose root document is at `path`: the name
/// of the directory that holds the project's `src`.
pub open spec fn project_name_text(path: Seq<char>) -> Seq<char> {
    crate::text::last_segment(crate::text::remove_all(path, "/src/manifest.tex"@), "/"@)
}

/// The directory that holds the sources of the project whose root document
/// is at `path`.
pub open spec fn source_root_text(path: Seq<char>) -> Seq<char> {
    crate::text::remove_all(path, "/manifest.tex"@)
}

/// How the file at `path` is shown to the user: what follows the project's
/// name in the path, without the `src` directory.
pub open spec fn display_name_text(project: Seq<char>, path: Seq<char>) -> Seq<char> {
    crate::text::remove_all(crate::text::last_segment(path, project), "/src/"@)
}

/// Where the file that `reference` refers to is looked for: under the
/// project's sources, by what follows the last `/src/` in the reference.
pub open spec fn reference_path_text(source_root: Seq<char>, reference: Seq<char>) -> Seq<char> {
    source_root + "/"@ + crate::text::last_segment(reference, "/src/"@) + ".tex"@
}

/// The files to go through after the root document.
pub open spec fn work_list(source_root: Seq<char>, references: Seq<Seq<char>>) -> Seq<Seq<char>> {
    references.map_values(|r: Seq<char>| reference_path_text(source_root, r))
}

/// The line that opens the run.
pub open spec fn banner_text() -> Seq<char> {
    "Generating documentation..."@
}

/// The line that opens a project.
pub open spec fn project_line_text(project: Seq<char>) -> Seq<char> {
    " -> Generating documentation for "@ + project + "..."@
}

/// The line that opens a file.
pub open spec fn parsing_line_text(file: Seq<char>) -> Seq<char> {
    "  => Parsing "@ + file
}

/// The warning about an unknown command.
pub open spec fn warning_line_text(name: Seq<char>) -> Seq<char> {
    "[WARNING] Unknown command: "@ + name
}

/// The warnings about the unknown commands in `unknown`, one for each entry.
pub open spec fn warnings_text(unknown: Seq<Seq<char>>) -> Seq<Seq<char>> {
    unknown.map_values(|n: Seq<char>| warning_line_text(n))
}

/// The root documents of the projects in `dirs`.
pub open spec fn roots_text(dirs: Seq<Seq<char>>) -> Seq<Seq<char>> {
    dirs.map_values(|d: Seq<char>| d + "/manifest.tex"@)
}

/// The failure to load the file at `path`.
pub open spec fn load_failure(path: Seq<char>, error: LoadError) -> FailureView {
    match error {
        LoadError::Unreadable { detail } => FailureView::Unreadable { path, detail: detail@ },
        LoadError::Syntax { detail } => FailureView::Syntax { path, detail: detail@ },
    }
}

/// The line that tells the user why the run is over.
pub open spec fn failure_message_text(failure: FailureView) -> Seq<char> {
    match failure {
        FailureView::Unreadable { path, detail } => "Failed to read file "@ + path + ": "@ + detail,
        FailureView::Syntax { path, detail } => "Failed to parse file "@ + path + ": "@ + detail,
        FailureView::Mismatch { path, mismatch } => "Failed to walk file "@ + path,
    }
}

/// The session once the project whose root document is at `path` has been
/// begun: the root document is asked for.
pub open spec fn begun(path: Seq<char>) -> Session {
    Session {
        stage: Stage::Root,
        project: project_name_text(path),
        source_root: source_root_text(path),
        loading: path,
        pending: Seq::empty(),
    }
}

/// What beginning the project asks of the caller.
pub open spec fn opening(path: Seq<char>) -> RequestView {
    RequestView {
        warnings: Seq::empty(),
        lines: seq![
            project_line_text(project_name_text(path)),
            parsing_line_text(display_name_text(project_name_text(path), path)),
        ],
        next: NextView::Load { path },
    }
}

/// A resolver after one turn, and what it then asks of its caller.
pub struct Turn {
    pub notes: Notes,
    pub session: Session,
    pub request: RequestView,
}

/// The turn that the resolver takes when the file it asked for comes back.
///
/// A file that did not arrive as a tree ends the run, and so does a tree
/// that cannot be walked; the notes keep what was read before the stop. The
/// tree of the root document is read, and the references then noted are, once
/// and for all, the files to go through. The tree of such a file is read too,
/// and what it refers to is noted but not gone through. After each tree the
/// warnings about unknown commands are handed out. When no file is left
/// the references are handed out, and the resolver is between projects again.
pub open spec fn turn(notes: Notes, session: Session, loaded: Result<ParseNode, LoadError>) -> Turn {
    match loaded {
        Err(error) => Turn {
            notes,
            session: Session { stage: Stage::Failed, ..session },
            request: RequestView {
                warnings: Seq::empty(),
                lines: Seq::empty(),
                next: NextView::Abort { failure: load_failure(session.loading, error) },
            },
        },
        Ok(tree) => {
            let reading = read(Place::Content, tree);
            let taken = note_all(notes, reading.tokens);
            let warnings = warnings_text(taken.unknown);
            let pending = if session.stage == Stage::Root {
                work_list(session.source_root, taken.references)
            } else {
                session.pending
            };
            if reading.stop is Some {
                Turn {
                    notes: Notes { unknown: Seq::empty(), ..taken },
                    session: Session { stage: Stage::Failed, ..session },
                    request: RequestView {
                        warnings,
                        lines: Seq::empty(),
                        next: NextView::Abort {
                            failure: FailureView::Mismatch {
                                path: session.loading,
                                mismatch: reading.stop->0,
                            },
                        },
                    },
                }
            } else if pending.len() > 0 {
                Turn {
                    notes: Notes { unknown: Seq::empty(), ..taken },
                    session: Session {
                        stage: Stage::Draining,
                        loading: pending[0],
                        pending: pending.drop_first(),
                        ..session
                    },
                    request: RequestView {
                        warnings,
                        lines: seq![
                            parsing_line_text(display_name_text(session.project, pending[0])),
                        ],
                        next: NextView::Load { path: pending[0] },
                    },
                }
            } else {
                Turn {
                    notes: Notes { references: Seq::empty(), unknown: Seq::empty(), ..taken },
                    session: rest(),
                    request: RequestView {
                        warnings,
                        lines: Seq::empty(),
                        next: NextView::Done { references: taken.references },
                    },
                }
            }
        },
    }
}

/// A reader of parsed documents, and the resolver of the files that a
/// project's root document refers to.
pub struct Doc {
    command_name: String,
    input_vector: Vec<String>,
    unknown: Vec<String>,
    stage: Stage,
    project: String,
    source_root: String,
    loading: String,
    pending: Vec<String>,
}

impl Doc {
    /// What this reader has taken in.
    pub closed spec fn notes(&self) -> Notes {
        Notes {
            command_name: self.command_name@,
            references: texts(self.input_vector@),
            unknown: texts(self.unknown@),
        }
    }

    /// The project that this reader works on.
    pub closed spec fn session(&self) -> Session {
        Session {
            stage: self.stage,
            project: self.project@,
            source_root: self.source_root@,
            loading: self.loading@,
            pending: texts(self.pending@),
        }
    }

    /// A reader that has taken nothing in and is between projects.
    pub fn new() -> (doc: Self)
        ensures
            doc.notes() == nothing(),
            doc.session() == rest(),
    {
        let doc = Self {
            command_name: String::new(),
            input_vector: Vec::<String>::new(),
            unknown: Vec::<String>::new(),
            stage: Stage::Idle,
            project: String::new(),
            source_root: String::new(),
            loading: String::new(),
            pending: Vec::<String>::new(),
        };
        assert(doc.notes().references =~= Seq::empty());
        assert(doc.notes().unknown =~= Seq::empty());
        assert(doc.session().pending =~= Seq::empty());
        doc
    }

    /// Looks the name of the current command up in the table of known
    /// commands.
    pub fn lookup(&self) -> (found: Handler)
        ensures
            found == handler(self.notes().command_name),
    {
        if self.command_name == "input".to_owned() {
            Handler::RecordInclude
        } else if self.command_name == "NewDocumentCommand".to_owned() || self.command_name
            == "usepackage".to_owned() || self.command_name == "documentclass".to_owned() {
            Handler::Noop
        } else {
            Handler::Unknown
        }
    }

    /// Goes through the nodes below `parent`, in order, each standing at
    /// `place`, and stops at the first that cannot be gone through.
    pub fn for_each(&mut self, place: Place, parent: &ParseNode) -> (r: Result<(), Mismatch>)
        ensures
            final(self).notes() == note_all(
                old(self).notes(),
                read_children(place, *parent, parent.children@.len()).tokens,
            ),
            final(self).session() == old(self).session(),
            r == verdict(read_children(place, *parent, parent.children@.len())),
        decreases parent, 0nat,
    {
        let mut index: usize = 0;
        while index < parent.children.len()
            invariant
                index <= parent.children.len(),
                read_children(place, *parent, index as nat).stop is None,
                self.notes() == note_all(
                    old(self).notes(),
                    read_children(place, *parent, index as nat).tokens,
                ),
                self.session() == old(self).session(),
            decreases parent.children.len() - index,
        {
            let child = &parent.children[index];
            proof {
                lemma_note_all_joined(
                    old(self).notes(),
                    read_children(place, *parent, index as nat).tokens,
                    read(place, *child).tokens,
                );
                lemma_comments_are_silent(*child);
            }
            let gone = match place {
                Place::Content => self.parse_content(child),
                Place::Document => self.parse_document(child),
                Place::Expression => self.parse_expression(child),
                Place::Comment => self.parse_comment(child),
                Place::Command => self.parse_command(child),
                Place::Argument => self.process_command_arg(child),
            };
            match gone {
                Err(mismatch) => {
                    proof {
                        lemma_stop_stays(
                            place,
                            *parent,
                            (index + 1) as nat,
                            parent.children@.len(),
                        );
                    }
                    return Err(mismatch);
                },
                Ok(()) => {},
            }
            index += 1;
        }
        Ok(())
    }

    /// Goes through a node that stands inside a comment. A comment may hold
    /// comments and what is shaped like a command; all of it is gone through,
    /// and none of it says anything. Only a document, an expression or the
    /// end of the input has no place in it.
    pub fn parse_comment(&self, comment: &ParseNode) -> (r: Result<(), Mismatch>)
        ensures
            r == verdict(read(Place::Comment, *comment)),
        decreases comment, 1nat,
    {
        match comment.rule {
            Rule::Doxyfn => Ok(()),
            Rule::CommentString => Ok(()),
            Rule::CommentSplit => Ok(()),
            Rule::Document => Err(Mismatch { place: Place::Comment, rule: comment.rule }),
            Rule::Expression => Err(Mismatch { place: Place::Comment, rule: comment.rule }),
            Rule::EOI => Err(Mismatch { place: Place::Comment, rule: comment.rule }),
            _ => self.parse_comments(comment),
        }
    }

    /// Goes through the nodes below `parent`, each standing inside a comment.
    pub fn parse_comments(&self, parent: &ParseNode) -> (r: Result<(), Mismatch>)
        ensures
            r == verdict(read_children(Place::Comment, *parent, parent.children@.len())),
        decreases parent, 0nat,
    {
        let mut index: usize = 0;
        while index < parent.children.len()
            invariant
                index <= parent.children.len(),
                read_children(Place::Comment, *parent, index as nat).stop is None,
            decreases parent.children.len() - index,
        {
            match self.parse_comment(&parent.children[index]) {
                Err(mismatch) => {
                    proof {
                        lemma_stop_stays(
                            Place::Comment,
                            *parent,
                            (index + 1) as nat,
                            parent.children@.len(),
                        );
                    }
                    return Err(mismatch);
                },
                Ok(()) => {},
            }
            index += 1;
        }
        Ok(())
    }

    /// Takes the text of an argument in. What becomes of it is decided by the
    /// command that the walk is in: the argument of `input` is recorded as a
    /// reference, the arguments of the other known commands are dropped, and
    /// an argument of any other command has the command's name recorded as
    /// unknown.
    pub fn process_command_string(&mut self, string: &str)
        ensures
            final(self).notes() == note(old(self).notes(), Token::Text(string@)),
            final(self).session() == old(self).session(),
    {
        match self.lookup() {
            Handler::RecordInclude => {
                self.input_vector.push(string.to_owned());
                assert(final(self).notes().references =~= old(self).notes().references.push(
                    string@,
                ));
            },
            Handler::Noop => {},
            Handler::Unknown => {
                let name = self.command_name.clone();
                self.unknown.push(name);
                assert(final(self).notes().unknown =~= old(self).notes().unknown.push(
                    old(self).notes().command_name,
                ));
            },
        }
    }

    /// Goes through a node that stands inside an argument. Only plain text
    /// counts: a command nested in the argument is passed over.
    pub fn process_command_arg(&mut self, arg: &ParseNode) -> (r: Result<(), Mismatch>)
        ensures
            final(self).notes() == note_all(old(self).notes(), read(Place::Argument, *arg).tokens),
            final(self).session() == old(self).session(),
            r == verdict(read(Place::Argument, *arg)),
        decreases arg, 1nat,
    {
        proof {
            lemma_note_one(old(self).notes(), Token::Text(arg.text@));
        }
        match arg.rule {
            Rule::CommandLeft => Ok(()),
            Rule::CommandRight => Ok(()),
            Rule::CommandLeftOpt => Ok(()),
            Rule::CommandRightOpt => Ok(()),
            Rule::CommandArg => Ok(()),
            Rule::CommandArgContent => self.for_each(Place::Argument, arg),
            Rule::CommandImpl => Ok(()),
            Rule::CommandString => {
                self.process_command_string(arg.text.as_str());
                Ok(())
            },
            Rule::CommandSplit => Ok(()),
            _ => Err(Mismatch { place: Place::Argument, rule: arg.rule }),
        }
    }

    /// Goes through a node that stands inside a command: the name makes the
    /// command current, the arguments are gone through, a comment is passed.
    pub fn parse_command(&mut self, command: &ParseNode) -> (r: Result<(), Mismatch>)
        ensures
            final(self).notes() == note_all(
                old(self).notes(),
                read(Place::Command, *command).tokens,
            ),
            final(self).session() == old(self).session(),
            r == verdict(read(Place::Command, *command)),
        decreases command, 1nat,
    {
        proof {
            lemma_note_one(old(self).notes(), Token::Name(command.text@));
        }
        match command.rule {
            Rule::CommandImpl => self.for_each(Place::Command, command),
            Rule::CommentRegular => self.for_each(Place::Comment, command),
            Rule::CommandName => {
                self.command_name = command.text.clone();
                Ok(())
            },
            Rule::CommandArg => self.for_each(Place::Argument, command),
            _ => Err(Mismatch { place: Place::Command, rule: command.rule }),
        }
    }

    /// Goes through a node that stands under an expression: a comment or a
    /// command.
    pub fn parse_expression(&mut self, expression: &ParseNode) -> (r: Result<(), Mismatch>)
        ensures
            final(self).notes() == note_all(
                old(self).notes(),
                read(Place::Expression, *expression).tokens,
            ),
            final(self).session() == old(self).session(),
            r == verdict(read(Place::Expression, *expression)),
        decreases expression, 1nat,
    {
        match expression.rule {
            Rule::Comment => self.for_each(Place::Comment, expression),
            Rule::Command => self.for_each(Place::Command, expression),
            _ => Err(Mismatch { place: Place::Expression, rule: expression.rule }),
        }
    }

    /// Goes through a node that stands under the document: an expression, or
    /// the end of the input.
    pub fn parse_document(&mut self, document: &ParseNode) -> (r: Result<(), Mismatch>)
        ensures
            final(self).notes() == note_all(
                old(self).notes(),
                read(Place::Document, *document).tokens,
            ),
            final(self).session() == old(self).session(),
            r == verdict(read(Place::Document, *document)),
        decreases document, 1nat,
    {
        match document.rule {
            Rule::Expression => self.for_each(Place::Expression, document),
            Rule::EOI => Ok(()),
            _ => Err(Mismatch { place: Place::Document, rule: document.rule }),
        }
    }

    /// Goes through the root of a parse tree, which is to be a document.
    pub fn parse_content(&mut self, content: &ParseNode) -> (r: Result<(), Mismatch>)
        ensures
            final(self).notes() == note_all(
                old(self).notes(),
                read(Place::Content, *content).tokens,
            ),
            final(self).session() == old(self).session(),
            r == verdict(read(Place::Content, *content)),
        decreases content, 1nat,
    {
        match content.rule {
            Rule::Document => self.for_each(Place::Document, content),
            _ => Err(Mismatch { place: Place::Content, rule: content.rule }),
        }
    }

    /// The name of the command that the walk is in.
    pub fn command_name(&self) -> (name: &String)
        ensures
            name@ == self.notes().command_name,
    {
        &self.command_name
    }

    /// The references noted, in the order in which they were met.
    pub fn references(&self) -> (references: &Vec<String>)
        ensures
            texts(references@) == self.notes().references,
    {
        &self.input_vector
    }

    /// The names of the unknown commands met since the warnings were last
    /// handed out.
    pub fn unknown(&self) -> (unknown: &Vec<String>)
        ensures
            texts(unknown@) == self.notes().unknown,
    {
        &self.unknown
    }

    /// How far this reader is with its project.
    pub fn stage(&self) -> (stage: Stage)
        ensures
            stage == self.session().stage,
    {
        self.stage
    }

    /// The short name of the project that this reader works on.
    pub fn project_name(&self) -> (name: &String)
        ensures
            name@ == self.session().project,
    {
        &self.project
    }

    /// The files that are still to be asked for.
    pub fn pending(&self) -> (pending: &Vec<String>)
        ensures
            texts(pending@) == self.session().pending,
    {
        &self.pending
    }

    /// Hands out the warnings about the unknown commands met since the last
    /// time, oldest first.
    pub fn take_warnings(&mut self) -> (warnings: Vec<String>)
        ensures
            texts(warnings@) == warnings_text(old(self).notes().unknown),
            final(self).notes() == (Notes { unknown: Seq::empty(), ..old(self).notes() }),
            final(self).session() == old(self).session(),
    {
        let mut warnings: Vec<String> = Vec::new();
        let mut index: usize = 0;
        while index < self.unknown.len()
            invariant
                index <= self.unknown.len(),
                *self == *old(self),
                warnings@.len() == index,
                forall|k: int|
                    0 <= k < index ==> (#[trigger] warnings@[k])@ == warning_line_text(
                        self.unknown@[k]@,
                    ),
            decreases self.unknown.len() - index,
        {
            warnings.push(warning_line(self.unknown[index].as_str()));
            index += 1;
        }
        self.unknown = Vec::new();
        assert(texts(warnings@) =~= warnings_text(old(self).notes().unknown));
        assert(final(self).notes().unknown =~= Seq::empty());
        warnings
    }

    /// The files to go through after the root document: one for each
    /// reference noted so far, in order.
    pub fn snapshot(&self) -> (work: Vec<String>)
        ensures
            texts(work@) == work_list(self.session().source_root, self.notes().references),
    {
        let mut work: Vec<String> = Vec::new();
        let mut index: usize = 0;
        while index < self.input_vector.len()
            invariant
                index <= self.input_vector.len(),
                work@.len() == index,
                forall|k: int|
                    0 <= k < index ==> (#[trigger] work@[k])@ == reference_path_text(
                        self.source_root@,
                        self.input_vector@[k]@,
                    ),
            decreases self.input_vector.len() - index,
        {
            work.push(reference_path(self.source_root.as_str(), self.input_vector[index].as_str()));
            index += 1;
        }
        assert(texts(work@) =~= work_list(self.session().source_root, self.notes().references));
        work
    }

    /// Begins the project whose root document is at `path`, and asks for
    /// that document.
    pub fn project(&mut self, path: &str) -> (request: Request)
        requires
            old(self).session().stage == Stage::Idle,
        ensures
            final(self).notes() == old(self).notes(),
            final(self).session() == begun(path@),
            request@ == opening(path@),
    {
        let project = project_name(path);
        let mut lines: Vec<String> = Vec::new();
        lines.push(project_line(project.as_str()));
        lines.push(parsing_line(display_name(project.as_str(), path).as_str()));
        self.stage = Stage::Root;
        self.project = project;
        self.source_root = source_root(path);
        self.loading = path.to_owned();
        self.pending = Vec::new();
        let request = Request { warnings: Vec::new(), lines, next: Next::Load { path: path.to_owned() } };
        assert(final(self).session().pending =~= Seq::empty());
        assert(request@.warnings =~= Seq::empty());
        assert(request@.lines =~= opening(path@).lines);
        request
    }

    /// Takes in what came of loading the file that was asked for, and says
    /// what is next.
    pub fn parse(&mut self, loaded: Result<ParseNode, LoadError>) -> (request: Request)
        requires
            old(self).session().stage == Stage::Root || old(self).session().stage
                == Stage::Draining,
        ensures
            final(self).notes() == turn(old(self).notes(), old(self).session(), loaded).notes,
            final(self).session() == turn(old(self).notes(), old(self).session(), loaded).session,
            request@ == turn(old(self).notes(), old(self).session(), loaded).request,
    {
        match loaded {
            Err(error) => {
                self.stage = Stage::Failed;
                let path = self.loading.clone();
                let failure = match error {
                    LoadError::Unreadable { detail } => Failure::Unreadable { path, detail },
                    LoadError::Syntax { detail } => Failure::Syntax { path, detail },
                };
                let request = Request {
                    warnings: Vec::new(),
                    lines: Vec::new(),
                    next: Next::Abort { failure },
                };
                assert(request@.warnings =~= Seq::empty());
                assert(request@.lines =~= Seq::empty());
                request
            },
            Ok(tree) => {
                let walked = self.parse_content(&tree);
                let warnings = self.take_warnings();
                match walked {
                    Err(mismatch) => {
                        self.stage = Stage::Failed;
                        let failure = Failure::Mismatch { path: self.loading.clone(), mismatch };
                        let request = Request {
                            warnings,
                            lines: Vec::new(),
                            next: Next::Abort { failure },
                        };
                        assert(request@.lines =~= Seq::empty());
                        request
                    },
                    Ok(()) => {
                        if self.stage == Stage::Root {
                            self.pending = self.snapshot();
                        }
                        if self.pending.len() > 0 {
                            let ghost before = texts(self.pending@);
                            let path = self.pending.remove(0);
                            assert(texts(self.pending@) =~= before.drop_first());
                            assert(path@ == before[0]);
                            let mut lines: Vec<String> = Vec::new();
                            lines.push(
                                parsing_line(
                                    display_name(self.project.as_str(), path.as_str()).as_str(),
                                ),
                            );
                            self.stage = Stage::Draining;
                            self.loading = path.clone();
                            let request = Request { warnings, lines, next: Next::Load { path } };
                            assert(request@.lines =~= seq![
                                parsing_line_text(
                                    display_name_text(old(self).session().project, before[0]),
                                ),
                            ]);
                            request
                        } else {
                            let mut references: Vec<String> = Vec::new();
                            core::mem::swap(&mut references, &mut self.input_vector);
                            self.stage = Stage::Idle;
                            self.project = String::new();
                            self.source_root = String::new();
                            self.loading = String::new();
                            self.pending = Vec::new();
                            let request = Request {
                                warnings,
                                lines: Vec::new(),
                                next: Next::Done { references },
                            };
                            assert(final(self).notes().references =~= Seq::empty());
                            assert(final(self).session().pending =~= Seq::empty());
                            assert(request@.lines =~= Seq::empty());
                            request
                        }
                    },
                }
            },
        }
    }
}

impl Failure {
    /// The line that tells the user why the run is over.
    pub fn message(&self) -> (line: String)
        ensures
            line@ == failure_message_text(self@),
    {
        match self {
            Failure::Unreadable { path, detail } => "Failed to read file ".to_owned().concat(
                path.as_str(),
            ).concat(": ").concat(detail.as_str()),
            Failure::Syntax { path, detail } => "Failed to parse file ".to_owned().concat(
                path.as_str(),
            ).concat(": ").concat(detail.as_str()),
            Failure::Mismatch { path, mismatch } => "Failed to walk file ".to_owned().concat(
                path.as_str(),
            ),
        }
    }
}

/// The short name of the project whose root document is at `path`.
pub fn project_name(path: &str) -> (name: String)
    ensures
        name@ == project_name_text(path@),
{
    crate::text::split_last(crate::text::strip_all(path, "/src/manifest.tex").as_str(), "/")
}

/// The directory that holds the sources of the project whose root document
/// is at `path`.
pub fn source_root(path: &str) -> (dir: String)
    ensures
        dir@ == source_root_text(path@),
{
    crate::text::strip_all(path, "/manifest.tex")
}

/// How the file at `path` is shown to the user.
pub fn display_name(project: &str, path: &str) -> (file: String)
    ensures
        file@ == display_name_text(project@, path@),
{
    crate::text::strip_all(crate::text::split_last(path, project).as_str(), "/src/")
}

/// Where the file that `reference` refers to is looked for.
pub fn reference_path(source_root: &str, reference: &str) -> (path: String)
    ensures
        path@ == reference_path_text(source_root@, reference@),
{
    source_root.to_owned().concat("/").concat(
        crate::text::split_last(reference, "/src/").as_str(),
    ).concat(".tex")
}

/// The line that opens a project.
pub fn project_line(project: &str) -> (line: String)
    ensures
        line@ == project_line_text(project@),
{
    " -> Generating documentation for ".to_owned().concat(project).concat("...")
}

/// The line that opens a file.
pub fn parsing_line(file: &str) -> (line: String)
    ensures
        line@ == parsing_line_text(file@),
{
    "  => Parsing ".to_owned().concat(file)
}

/// The warning about the unknown command `name`.
pub fn warning_line(name: &str) -> (line: String)
    ensures
        line@ == warning_line_text(name@),
{
    "[WARNING] Unknown command: ".to_owned().concat(name)
}

/// A documentation run over the projects in some directories.
pub struct Generation {
    /// The line that opens the run.
    pub line: String,
    /// The reader that goes through the projects, one after the other.
    pub doc: Doc,
    /// The root documents of the projects, in the order of the directories.
    pub roots: Vec<String>,
}

/// Sets a documentation run up over the projects in `dirs`: each has its
/// root document directly in its directory.
pub fn generate(dirs: &[String]) -> (run: Generation)
    ensures
        run.line@ == banner_text(),
        run.doc.notes() == nothing(),
        run.doc.session() == rest(),
        texts(run.roots@) == roots_text(texts(dirs@)),
{
    let mut roots: Vec<String> = Vec::new();
    let mut index: usize = 0;
    while index < dirs.len()
        invariant
            index <= dirs.len(),
            roots@.len() == index,
            forall|k: int|
                0 <= k < index ==> (#[trigger] roots@[k])@ == dirs@[k]@ + "/manifest.tex"@,
        decreases dirs.len() - index,
    {
        roots.push(dirs[index].clone().concat("/manifest.tex"));
        index += 1;
    }
    assert(texts(roots@) =~= roots_text(texts(dirs@)));
    Generation { line: "Generating documentation...".to_owned(), doc: Doc::new(), roots }
}

/// The name of the command that the walk is in when it comes to the token
/// at index `at`: the last name among the tokens before it, or `start`, the
/// name that the walk came with, when there is none.
pub open spec fn name_before(start: Seq<char>, tokens: Seq<Token>, at: int) -> Seq<char>
    decreases at,
{
    if at <= 0 || at > tokens.len() {
        start
    } else {
        match tokens[at - 1] {
            Token::Name(name) => name,
            Token::Text(_) => name_before(start, tokens, at - 1),
        }
    }
}

/// The arguments of the `input` commands among `tokens`, in order: each text
/// that the walk comes to while it is in a command named `input`.
pub open spec fn input_texts(start: Seq<char>, tokens: Seq<Token>) -> Seq<Seq<char>>
    decreases tokens.len(),
{
    if tokens.len() == 0 {
        Seq::empty()
    } else {
        let before = input_texts(start, tokens.drop_last());
        match tokens.last() {
            Token::Text(text) => if handler(name_before(start, tokens, tokens.len() - 1))
                == Handler::RecordInclude {
                before.push(text)
            } else {
                before
            },
            Token::Name(_) => before,
        }
    }
}

/// The unknown commands among `tokens`, in order: the name of the command
/// that the walk is in, once for each text that it comes to while that name
/// is not in the table.
pub open spec fn unknown_names(start: Seq<char>, tokens: Seq<Token>) -> Seq<Seq<char>>
    decreases tokens.len(),
{
    if tokens.len() == 0 {
        Seq::empty()
    } else {
        let before = unknown_names(start, tokens.drop_last());
        let name = name_before(start, tokens, tokens.len() - 1);
        match tokens.last() {
            Token::Text(_) => if handler(name) == Handler::Unknown {
                before.push(name)
            } else {
                before
            },
            Token::Name(_) => before,
        }
    }
}

/// Whether every text among `tokens` belongs to a command of the table.
pub open spec fn all_known(start: Seq<char>, tokens: Seq<Token>) -> bool {
    forall|at: int|
        0 <= at < tokens.len() && tokens[at] is Text ==> handler(
            #[trigger] name_before(start, tokens, at),
        ) != Handler::Unknown
}

/// The command that the walk is in depends on the tokens before it only.
pub proof fn lemma_name_before_prefix(start: Seq<char>, tokens: Seq<Token>, at: int)
    requires
        tokens.len() > 0,
        at < tokens.len(),
    ensures
        name_before(start, tokens.drop_last(), at) == name_before(start, tokens, at),
    decreases at,
{
    if at > 0 {
        lemma_name_before_prefix(start, tokens, at - 1);
    }
}

/// What taking tokens in comes to, said command by command: the walk ends
/// in the command named last, the references noted are the arguments of the
/// `input` commands, and the names noted as unknown are those of the commands
/// outside the table, each once for each of its argument texts.
pub proof fn lemma_notes_by_command(notes: Notes, tokens: Seq<Token>)
    ensures
        note_all(notes, tokens) == (Notes {
            command_name: name_before(notes.command_name, tokens, tokens.len() as int),
            references: notes.references + input_texts(notes.command_name, tokens),
            unknown: notes.unknown + unknown_names(notes.command_name, tokens),
        }),
    decreases tokens.len(),
{
    let start = notes.command_name;
    if tokens.len() == 0 {
        assert(notes.references + Seq::<Seq<char>>::empty() == notes.references);
        assert(notes.unknown + Seq::<Seq<char>>::empty() == notes.unknown);
    } else {
        let front = tokens.drop_last();
        lemma_notes_by_command(notes, front);
        lemma_name_before_prefix(start, tokens, tokens.len() - 1);
        let before = note_all(notes, front);
        assert(before.command_name == name_before(start, tokens, tokens.len() - 1));
        match tokens.last() {
            Token::Name(name) => {},
            Token::Text(text) => {
                assert((notes.references + input_texts(start, front)).push(text)
                    == notes.references + input_texts(start, front).push(text));
                assert((notes.unknown + unknown_names(start, front)).push(before.command_name)
                    == notes.unknown + unknown_names(start, front).push(before.command_name));
            },
        }
    }
}

/// Where every text belongs to a command of the table, no name is noted as
/// unknown.
pub proof fn lemma_all_known_none_unknown(start: Seq<char>, tokens: Seq<Token>)
    requires
        all_known(start, tokens),
    ensures
        unknown_names(start, tokens) == Seq::<Seq<char>>::empty(),
    decreases tokens.len(),
{
    if tokens.len() > 0 {
        let front = tokens.drop_last();
        assert forall|at: int| 0 <= at < front.len() && front[at] is Text implies handler(
            #[trigger] name_before(start, front, at),
        ) != Handler::Unknown by {
            lemma_name_before_prefix(start, tokens, at);
            assert(tokens[at] == front[at]);
            assert(handler(name_before(start, tokens, at)) != Handler::Unknown);
        }
        lemma_all_known_none_unknown(start, front);
        let last = tokens.len() - 1;
        if tokens[last] is Text {
            assert(handler(name_before(start, tokens, last)) != Handler::Unknown);
        }
    }
}

/// A document that can be walked and holds commands of the table only is read
/// without a warning, and the references noted from it are the arguments of
/// its `input` commands, in source order, each as often as it stands there.
pub proof fn law_known_commands(notes: Notes, tree: ParseNode)
    requires
        read(Place::Content, tree).stop is None,
        all_known(notes.command_name, read(Place::Content, tree).tokens),
    ensures
        note_all(notes, read(Place::Content, tree).tokens).unknown == notes.unknown,
        note_all(notes, read(Place::Content, tree).tokens).references == notes.references
            + input_texts(notes.command_name, read(Place::Content, tree).tokens),
        notes.references.len() == 0 ==> note_all(
            notes,
            read(Place::Content, tree).tokens,
        ).references == input_texts(notes.command_name, read(Place::Content, tree).tokens),
{
    let tokens = read(Place::Content, tree).tokens;
    lemma_notes_by_command(notes, tokens);
    lemma_all_known_none_unknown(notes.command_name, tokens);
    assert(notes.unknown + Seq::<Seq<char>>::empty() == notes.unknown);
    if notes.references.len() == 0 {
        assert(notes.references + input_texts(notes.command_name, tokens) == input_texts(
            notes.command_name,
            tokens,
        ));
    }
}

/// An argument of a command that is not in the table is answered by exactly
/// one warning, which names the command. Nothing else changes, and nothing
/// fails: the walk goes on.
pub proof fn law_unknown_command(notes: Notes, text: Seq<char>)
    requires
        notes.command_name != "input"@,
        notes.command_name != "NewDocumentCommand"@,
        notes.command_name != "usepackage"@,
        notes.command_name != "documentclass"@,
    ensures
        note(notes, Token::Text(text)) == (Notes {
            unknown: notes.unknown.push(notes.command_name),
            ..notes
        }),
        warnings_text(note(notes, Token::Text(text)).unknown) == warnings_text(notes.unknown).push(
            warning_line_text(notes.command_name),
        ),
{
    assert(warnings_text(notes.unknown.push(notes.command_name)) =~= warnings_text(
        notes.unknown,
    ).push(warning_line_text(notes.command_name)));
}

/// When a project is through, the resolver is between projects and no
/// reference is left in it: the next project starts from none.
pub proof fn law_clean_between_projects(
    notes: Notes,
    session: Session,
    loaded: Result<ParseNode, LoadError>,
)
    ensures
        turn(notes, session, loaded).request.next is Done <==> turn(
            notes,
            session,
            loaded,
        ).session.stage == Stage::Idle,
        turn(notes, session, loaded).request.next is Done ==> turn(
            notes,
            session,
            loaded,
        ).notes.references == Seq::<Seq<char>>::empty() && turn(notes, session, loaded).session
            == rest(),
{
}

/// The files to go through are settled when the root document has been
/// read. What such a file refers to is noted, and handed out at the end, but
/// never gone through: while the files are gone through, the next one asked
/// for is the first of those pending, and the rest stay pending as they are.
pub proof fn law_one_level(notes: Notes, session: Session, tree: ParseNode)
    requires
        session.stage == Stage::Draining,
        read(Place::Content, tree).stop is None,
    ensures
        ({
            let after = turn(notes, session, Ok(tree));
            let noted = notes.references + input_texts(
                notes.command_name,
                read(Place::Content, tree).tokens,
            );
            if session.pending.len() > 0 {
                &&& after.request.next == (NextView::Load { path: session.pending[0] })
                &&& after.session.pending == session.pending.drop_first()
                &&& after.notes.references == noted
            } else {
                after.request.next == (NextView::Done { references: noted })
            }
        }),
{
    lemma_notes_by_command(notes, read(Place::Content, tree).tokens);
}

/// A file that does not arrive as a tree ends the run: the failure is handed
/// out, and no reference is noted.
pub proof fn law_failed_load(notes: Notes, session: Session, error: LoadError)
    ensures
        turn(notes, session, Err(error)).request.next == (NextView::Abort {
            failure: load_failure(session.loading, error),
        }),
        turn(notes, session, Err(error)).notes == notes,
        turn(notes, session, Err(error)).session.stage == Stage::Failed,
{
}

/// Taking one token in.
pub proof fn lemma_note_one(notes: Notes, token: Token)
    ensures
        note_all(notes, seq![token]) == note(notes, token),
        note_all(notes, Seq::empty()) == notes,
{
    assert(note_all(notes, Seq::empty()) == notes);
    assert(seq![token].drop_last() == Seq::<Token>::empty());
    assert(seq![token].last() == token);
}

/// Once the walk has stopped among the nodes below `parent`, the reading of
/// more of them is the same.
pub proof fn lemma_stop_stays(place: Place, parent: ParseNode, count: nat, more: nat)
    requires
        count <= more <= parent.children@.len(),
        read_children(place, parent, count).stop is Some,
    ensures
        read_children(place, parent, more) == read_children(place, parent, count),
    decreases more,
{
    if more > count {
        lemma_stop_stays(place, parent, count, (more - 1) as nat);
    }
}

} // verus!
