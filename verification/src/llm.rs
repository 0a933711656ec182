//! The conversation as the model sees it: who said what, and which tools were
//! called with which arguments and gave which results.

use vstd::prelude::*;
use crate::text::owned;

verus! {

broadcast use vstd::string::group_string_axioms;

/// One part of a message.
pub enum ContentPart {
    Text(String),
    /// A tool call of the model; `args` is the compact JSON text of its
    /// arguments.
    FunctionCall { name: String, args: String },
    /// A tool's result, sent back as `{"result": result}`.
    FunctionResponse { name: String, result: String },
}

/// A message of the conversation.
pub struct Message {
    pub role: String,
    pub parts: Vec<ContentPart>,
}

/// A message with its texts as character sequences.
pub enum PartView {
    Text(Seq<char>),
    FunctionCall(Seq<char>, Seq<char>),
    FunctionResponse(Seq<char>, Seq<char>),
}

impl ContentPart {
    pub open spec fn view(&self) -> PartView {
        match self {
            ContentPart::Text(t) => PartView::Text(t@),
            ContentPart::FunctionCall { name, args } => PartView::FunctionCall(name@, args@),
            ContentPart::FunctionResponse { name, result } => PartView::FunctionResponse(
                name@,
                result@,
            ),
        }
    }
}

impl Message {
    /// The role and the views of the parts.
    pub open spec fn view(&self) -> (Seq<char>, Seq<PartView>) {
        (self.role@, self.parts@.map_values(|p: ContentPart| p.view()))
    }

    /// A text from the user.
    pub fn user_text(text: &str) -> (m: Message)
        ensures
            m.view() == ("user"@, seq![PartView::Text(text@)]),
    {
        let m = Message { role: owned("user"), parts: vec![ContentPart::Text(owned(text))] };
        assert(m.view().1 =~= seq![PartView::Text(text@)]);
        m
    }

    /// A text from the model.
    pub fn model_text(text: &str) -> (m: Message)
        ensures
            m.view() == ("model"@, seq![PartView::Text(text@)]),
    {
        let m = Message { role: owned("model"), parts: vec![ContentPart::Text(owned(text))] };
        assert(m.view().1 =~= seq![PartView::Text(text@)]);
        m
    }

    /// A tool call of the model.
    pub fn model_function_call(name: String, args: String) -> (m: Message)
        ensures
            m.view() == ("model"@, seq![PartView::FunctionCall(name@, args@)]),
    {
        let ghost v = PartView::FunctionCall(name@, args@);
        let m = Message { role: owned("model"), parts: vec![ContentPart::FunctionCall { name, args }] };
        assert(m.view().1 =~= seq![v]);
        m
    }

    /// A tool's result, sent back in the user's turn.
    pub fn tool_result(name: &str, result: &str) -> (m: Message)
        ensures
            m.view() == ("user"@, seq![PartView::FunctionResponse(name@, result@)]),
    {
        let m = Message {
            role: owned("user"),
            parts: vec![ContentPart::FunctionResponse { name: owned(name), result: owned(result) }],
        };
        assert(m.view().1 =~= seq![PartView::FunctionResponse(name@, result@)]);
        m
    }
}

/// The views of a conversation.
pub open spec fn conversation(h: Seq<Message>) -> Seq<(Seq<char>, Seq<PartView>)> {
    h.map_values(|m: Message| m.view())
}


// ---------------------------------------------------------------------------
// The tools the model is told of
// ---------------------------------------------------------------------------

/// The JSON type of a tool parameter.
#[derive(Clone, Copy, PartialEq, Eq, Structural, Debug)]
pub enum ParamKind {
    Text,
    Integer,
    Boolean,
}

/// A parameter of a declared tool.
pub struct ParamDecl {
    pub name: &'static str,
    pub kind: ParamKind,
    pub description: Option<&'static str>,
    pub required: bool,
}

/// A tool as the model is told of it: its name, what it does, and its
/// parameters.
pub struct ToolDecl {
    pub name: &'static str,
    pub description: &'static str,
    pub params: Vec<ParamDecl>,
}

/// A parameter: its name, type, description (if any), and whether the model
/// must give it.
pub type ParamView = (Seq<char>, ParamKind, Option<Seq<char>>, bool);

/// A tool: its name, description and parameters.
pub type DeclView = (Seq<char>, Seq<char>, Seq<ParamView>);

impl ParamDecl {
    pub open spec fn view(&self) -> ParamView {
        (
            self.name@,
            self.kind,
            match self.description {
                Some(d) => Some(d@),
                None => None,
            },
            self.required,
        )
    }
}

impl ToolDecl {
    pub open spec fn view(&self) -> DeclView {
        (self.name@, self.description@, self.params@.map_values(|p: ParamDecl| p.view()))
    }
}

/// The views of a list of declarations.
pub open spec fn decl_views(ds: Seq<ToolDecl>) -> Seq<DeclView> {
    ds.map_values(|d: ToolDecl| d.view())
}

/// A required parameter.
pub open spec fn needed(name: Seq<char>, kind: ParamKind, description: Option<Seq<char>>) -> ParamView {
    (name, kind, description, true)
}

/// A parameter the model may leave out.
pub open spec fn optional(name: Seq<char>, kind: ParamKind, description: Option<Seq<char>>) -> ParamView {
    (name, kind, description, false)
}

/// The twelve tools, in the order the model is told of them.
pub open spec fn declared_tools() -> Seq<DeclView> {
    seq![
        ("run_shell"@, "Runs a shell command and returns stdout/stderr."@, seq![
            needed("command"@, ParamKind::Text, Some("Shell command to execute"@)),
        ]),
        ("read_file"@, "Reads a file and returns its contents."@, seq![
            needed("path"@, ParamKind::Text, Some("Full file path"@)),
        ]),
        ("write_file"@, "Writes content to a file (create or overwrite)."@, seq![
            needed("path"@, ParamKind::Text, None),
            needed("content"@, ParamKind::Text, None),
        ]),
        ("list_dir"@, "Lists files and directories at a path."@, seq![
            needed("path"@, ParamKind::Text, None),
        ]),
        ("search_files"@, "Find files by glob pattern under a root directory."@, seq![
            needed("root"@, ParamKind::Text, Some("Directory to search under"@)),
            needed("pattern"@, ParamKind::Text, Some("Glob pattern e.g. *.rs"@)),
            optional("max_depth"@, ParamKind::Integer, Some("Max depth (default 8)"@)),
        ]),
        ("grep"@, "Search for a text pattern in a file or directory."@, seq![
            needed("path"@, ParamKind::Text, Some("File or directory path"@)),
            needed("pattern"@, ParamKind::Text, Some("Text to search for"@)),
            optional("ignore_case"@, ParamKind::Boolean, Some("Case insensitive (default false)"@)),
        ]),
        ("edit_file"@, "Replace text in a file without rewriting the whole file."@, seq![
            needed("path"@, ParamKind::Text, None),
            needed("old_text"@, ParamKind::Text, Some("Text to find"@)),
            needed("new_text"@, ParamKind::Text, Some("Replacement text"@)),
            optional("replace_all"@, ParamKind::Boolean, Some("Replace all occurrences (default false)"@)),
        ]),
        ("delete_file"@, "Delete a file or directory."@, seq![
            needed("path"@, ParamKind::Text, None),
        ]),
        ("create_dir"@, "Create a directory (mkdir -p)."@, seq![
            needed("path"@, ParamKind::Text, None),
        ]),
        ("move_file"@, "Move or rename a file or directory."@, seq![
            needed("from"@, ParamKind::Text, None),
            needed("to"@, ParamKind::Text, None),
        ]),
        ("http_get"@, "Fetch a URL and return status, headers, and body."@, seq![
            needed("url"@, ParamKind::Text, Some("http:// or https:// URL"@)),
        ]),
        ("env_info"@, "Return structured OS, user, memory, and disk info."@, seq![]),
    ]
}

/// A parameter declaration.
fn param(
    name: &'static str,
    kind: ParamKind,
    description: Option<&'static str>,
    required: bool,
) -> (p: ParamDecl)
    ensures
        p.view() == (name@, kind, match description {
            Some(d) => Some(d@),
            None => None::<Seq<char>>,
        }, required),
{
    ParamDecl { name, kind, description, required }
}

/// A tool declaration.
fn tool(name: &'static str, description: &'static str, params: Vec<ParamDecl>) -> (d: ToolDecl)
    ensures
        d.view() == (name@, description@, params@.map_values(|p: ParamDecl| p.view())),
{
    ToolDecl { name, description, params }
}

/// The tools the model may call, as it is told of them.
pub fn tool_declarations() -> (r: Vec<ToolDecl>)
    ensures
        decl_views(r@) == declared_tools(),
{
    let mut r: Vec<ToolDecl> = Vec::new();
    let p = vec![
        param("command", ParamKind::Text, Some("Shell command to execute"), true),
    ];
    assert(p@.map_values(|q: ParamDecl| q.view()) =~= declared_tools()[0].2);
    r.push(tool("run_shell", "Runs a shell command and returns stdout/stderr.", p));
    let p = vec![
        param("path", ParamKind::Text, Some("Full file path"), true),
    ];
    assert(p@.map_values(|q: ParamDecl| q.view()) =~= declared_tools()[1].2);
    r.push(tool("read_file", "Reads a file and returns its contents.", p));
    let p = vec![
        param("path", ParamKind::Text, None, true),
        param("content", ParamKind::Text, None, true),
    ];
    assert(p@.map_values(|q: ParamDecl| q.view()) =~= declared_tools()[2].2);
    r.push(tool("write_file", "Writes content to a file (create or overwrite).", p));
    let p = vec![
        param("path", ParamKind::Text, None, true),
    ];
    assert(p@.map_values(|q: ParamDecl| q.view()) =~= declared_tools()[3].2);
    r.push(tool("list_dir", "Lists files and directories at a path.", p));
    let p = vec![
        param("root", ParamKind::Text, Some("Directory to search under"), true),
        param("pattern", ParamKind::Text, Some("Glob pattern e.g. *.rs"), true),
        param("max_depth", ParamKind::Integer, Some("Max depth (default 8)"), false),
    ];
    assert(p@.map_values(|q: ParamDecl| q.view()) =~= declared_tools()[4].2);
    r.push(tool("search_files", "Find files by glob pattern under a root directory.", p));
    let p = vec![
        param("path", ParamKind::Text, Some("File or directory path"), true),
        param("pattern", ParamKind::Text, Some("Text to search for"), true),
        param("ignore_case", ParamKind::Boolean, Some("Case insensitive (default false)"), false),
    ];
    assert(p@.map_values(|q: ParamDecl| q.view()) =~= declared_tools()[5].2);
    r.push(tool("grep", "Search for a text pattern in a file or directory.", p));
    let p = vec![
        param("path", ParamKind::Text, None, true),
        param("old_text", ParamKind::Text, Some("Text to find"), true),
        param("new_text", ParamKind::Text, Some("Replacement text"), true),
        param("replace_all", ParamKind::Boolean, Some("Replace all occurrences (default false)"), false),
    ];
    assert(p@.map_values(|q: ParamDecl| q.view()) =~= declared_tools()[6].2);
    r.push(tool("edit_file", "Replace text in a file without rewriting the whole file.", p));
    let p = vec![
        param("path", ParamKind::Text, None, true),
    ];
    assert(p@.map_values(|q: ParamDecl| q.view()) =~= declared_tools()[7].2);
    r.push(tool("delete_file", "Delete a file or directory.", p));
    let p = vec![
        param("path", ParamKind::Text, None, true),
    ];
    assert(p@.map_values(|q: ParamDecl| q.view()) =~= declared_tools()[8].2);
    r.push(tool("create_dir", "Create a directory (mkdir -p).", p));
    let p = vec![
        param("from", ParamKind::Text, None, true),
        param("to", ParamKind::Text, None, true),
    ];
    assert(p@.map_values(|q: ParamDecl| q.view()) =~= declared_tools()[9].2);
    r.push(tool("move_file", "Move or rename a file or directory.", p));
    let p = vec![
        param("url", ParamKind::Text, Some("http:// or https:// URL"), true),
    ];
    assert(p@.map_values(|q: ParamDecl| q.view()) =~= declared_tools()[10].2);
    r.push(tool("http_get", "Fetch a URL and return status, headers, and body.", p));
    let p: Vec<ParamDecl> = Vec::new();
    assert(p@.map_values(|q: ParamDecl| q.view()) =~= declared_tools()[11].2);
    r.push(tool("env_info", "Return structured OS, user, memory, and disk info.", p));
    assert(decl_views(r@) =~= declared_tools());
    r
}

} // verus!
