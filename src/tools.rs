//! The tool catalogue that the coding agent offers to models, and the
//! argument records of those tools.
use vstd::prelude::*;
use vstd::string::*;
use crate::contracts::{GaiseTool, GaiseToolParameter};
use crate::named_map::NamedMap;

verus! {

/// Arguments of `todo_add`.
#[derive(Debug)]
pub struct TodoAddArgs {
    pub tasks: Vec<String>,
}

/// Arguments of `todo_insert`.
#[derive(Debug)]
pub struct TodoInsertArgs {
    pub before_id: usize,
    pub task: String,
}

/// Arguments of `todo_complete`.
#[derive(Debug)]
pub struct TodoCompleteArgs {
    pub ids: Vec<usize>,
}

/// Arguments of `execute_command`.
#[derive(Debug)]
pub struct ExecuteCommandArgs {
    pub command: String,
}

/// Arguments of `read_file`.
#[derive(Debug)]
pub struct ReadFileArgs {
    pub path: String,
    pub offset: Option<usize>,
    pub limit: Option<usize>,
}

/// Arguments of `edit_file`.
#[derive(Debug)]
pub struct EditFileArgs {
    pub path: String,
    pub old_text: String,
    pub new_text: String,
}

/// Arguments of `create_file`.
#[derive(Debug)]
pub struct CreateFileArgs {
    pub path: String,
    pub content: String,
}

/// The names of the catalogue's tools, in order.
pub open spec fn tool_names() -> Seq<Seq<char>> {
    seq!["todo_add"@, "todo_insert"@, "todo_complete"@, "todo_list"@, "execute_command"@, "read_file"@, "edit_file"@, "create_file"@]
}

/// Every array-typed property says what its items are.
pub open spec fn arrays_have_items(props: Map<Seq<char>, GaiseToolParameter>) -> bool {
    forall|k: Seq<char>| #[trigger] props.contains_key(k) ==> (props[k].kind matches Some(t) && t@ == "array"@ ==> props[k].items is Some)
}

/// A parameter schema that is an object whose required names are all
/// among its properties, and whose array-typed properties have items.
pub open spec fn object_schema(p: GaiseToolParameter) -> bool {
    &&& p.kind matches Some(k) && k@ == "object"@
    &&& p.properties matches Some(props) && props.wf() && arrays_have_items(props@)
    &&& p.required matches Some(req) ==> forall|i: int| 0 <= i < req@.len() ==> p.properties->Some_0@.contains_key(
        #[trigger] req@[i]@,
    )
}

fn leaf(kind: &str, description: &str) -> (r: GaiseToolParameter)
    ensures
        r.kind matches Some(k) && k@ == kind@,
        r.description matches Some(d) && d@ == description@,
        r.properties is None && r.items is None && r.required is None,
{
    GaiseToolParameter {
        kind: Some(kind.to_owned()),
        description: Some(description.to_owned()),
        properties: None,
        items: None,
        required: None,
    }
}

fn array_of(item_kind: &str, description: &str) -> (r: GaiseToolParameter)
    ensures
        r.kind matches Some(k) && k@ == "array"@,
        r.description matches Some(d) && d@ == description@,
        r.items matches Some(i) && (i.kind matches Some(k) && k@ == item_kind@),
        r.properties is None && r.required is None,
{
    let item = GaiseToolParameter {
        kind: Some(item_kind.to_owned()),
        description: None,
        properties: None,
        items: None,
        required: None,
    };
    GaiseToolParameter {
        kind: Some(String::from_str("array")),
        description: Some(description.to_owned()),
        properties: None,
        items: Some(Box::new(item)),
        required: None,
    }
}

fn object_of(props: NamedMap<GaiseToolParameter>, required: Option<Vec<String>>) -> (r: GaiseToolParameter)
    requires
        props.wf(),
        arrays_have_items(props@),
        required matches Some(req) ==> forall|i: int| 0 <= i < req@.len() ==> props@.contains_key(#[trigger] req@[i]@),
    ensures
        object_schema(r),
{
    GaiseToolParameter {
        kind: Some(String::from_str("object")),
        description: None,
        properties: Some(props),
        items: None,
        required,
    }
}

fn named(name: &str, description: &str, parameters: GaiseToolParameter) -> (r: GaiseTool)
    ensures
        r.name@ == name@,
        r.description matches Some(d) && d@ == description@,
        r.parameters == Some(parameters),
{
    GaiseTool { name: name.to_owned(), description: Some(description.to_owned()), parameters: Some(parameters) }
}

/// The catalogue: each tool's parameters are an object schema whose
/// required names are among its properties.
pub fn get_tools() -> (r: Vec<GaiseTool>)
    ensures
        r@.len() == tool_names().len(),
        forall|i: int| 0 <= i < r@.len() ==> (#[trigger] r@[i]).name@ == tool_names()[i],
        forall|i: int| 0 <= i < r@.len() ==> ((#[trigger] r@[i]).parameters matches Some(p) && object_schema(p)),
{
    proof {
        reveal_strlit("array");
        reveal_strlit("string");
        reveal_strlit("integer");
        assert("array"@.len() == 5 && "string"@.len() == 6 && "integer"@.len() == 7);
    }
    let mut tools: Vec<GaiseTool> = Vec::new();
    {
        let mut p: NamedMap<GaiseToolParameter> = NamedMap::new();
        p.insert(String::from_str("tasks"), array_of("string", "Array of task descriptions"));
        let required = Some(vec![String::from_str("tasks")]);
        tools.push(named("todo_add", "Adds items to the todo list.", object_of(p, required)));
    }
    {
        let mut p: NamedMap<GaiseToolParameter> = NamedMap::new();
        p.insert(String::from_str("before_id"), leaf("integer", "The ID of the task before which to insert the new task."));
        p.insert(String::from_str("task"), leaf("string", "The task to insert."));
        let required = Some(vec![String::from_str("before_id"), String::from_str("task")]);
        tools.push(named("todo_insert", "Insert a task before another task in the todo list. Returns the updated list.", object_of(p, required)));
    }
    {
        let mut p: NamedMap<GaiseToolParameter> = NamedMap::new();
        p.insert(String::from_str("ids"), array_of("integer", "Array of task IDs (1-based)"));
        let required = Some(vec![String::from_str("ids")]);
        tools.push(named("todo_complete", "Marks tasks as complete by ID.", object_of(p, required)));
    }
    {
        let mut p: NamedMap<GaiseToolParameter> = NamedMap::new();
        let required: Option<Vec<String>> = None;
        tools.push(named("todo_list", "Lists all tasks in the todo list.", object_of(p, required)));
    }
    {
        let mut p: NamedMap<GaiseToolParameter> = NamedMap::new();
        p.insert(String::from_str("command"), leaf("string", "The command to execute"));
        let required = Some(vec![String::from_str("command")]);
        tools.push(named("execute_command", "Executes a shell command.", object_of(p, required)));
    }
    {
        let mut p: NamedMap<GaiseToolParameter> = NamedMap::new();
        p.insert(String::from_str("path"), leaf("string", "Path to the file"));
        p.insert(String::from_str("offset"), leaf("integer", "Line number to start reading from (1-based). Defaults to 1."));
        p.insert(String::from_str("limit"), leaf("integer", "Maximum number of lines to return. Defaults to 2000."));
        let required = Some(vec![String::from_str("path")]);
        tools.push(named("read_file", "Reads a file's content with line numbers. Returns at most 2000 lines. Use offset and limit to read specific line ranges of large files.", object_of(p, required)));
    }
    {
        let mut p: NamedMap<GaiseToolParameter> = NamedMap::new();
        p.insert(String::from_str("path"), leaf("string", "Path to the file to edit"));
        p.insert(String::from_str("old_text"), leaf("string", "The exact text to find and replace. Must match the file content exactly."));
        p.insert(String::from_str("new_text"), leaf("string", "The replacement text."));
        let required = Some(vec![String::from_str("path"), String::from_str("old_text"), String::from_str("new_text")]);
        tools.push(named("edit_file", "Performs a search-and-replace edit on an existing file. The old_text must match exactly (including whitespace and indentation). For multiple edits to the same file, call this tool multiple times.", object_of(p, required)));
    }
    {
        let mut p: NamedMap<GaiseToolParameter> = NamedMap::new();
        p.insert(String::from_str("path"), leaf("string", "Path for the new file"));
        p.insert(String::from_str("content"), leaf("string", "Content of the new file"));
        let required = Some(vec![String::from_str("path"), String::from_str("content")]);
        tools.push(named("create_file", "Creates a new file with the given content. Fails if the file already exists.", object_of(p, required)));
    }
    tools
}

} // verus!
