use gaise::routing::parse_model;

#[test]
fn test_todo_add_functionality() {
    let todo_task = "Test task";
    let mut todos = Vec::new();
    todos.push(todo_task.to_string());

    assert_eq!(todos.len(), 1);
    assert_eq!(todos[0], todo_task);
}

#[test]
fn test_system_prompt_formatting() {
    let template = "Working directory: __WORKING_DIRECTORY__\nPlatform: __PLATFORM__";
    let wd = "/test/path";
    let platform = "linux";

    let formatted = template
        .replace("__WORKING_DIRECTORY__", wd)
        .replace("__PLATFORM__", platform);

    assert!(formatted.contains("/test/path"));
    assert!(formatted.contains("linux"));
    assert!(!formatted.contains("__"));
}

#[test]
fn test_git_repo_detection() {
    let git_path = std::path::Path::new(".git");
    let is_git = git_path.exists();
    assert!(is_git || !is_git);
}

#[test]
fn cli_model_flag_is_checked() {
    assert!(parse_model("invalid::model").is_ok());
    assert!(parse_model("invalid-model").is_err());
}

#[test]
fn tool_catalogue_lists_every_tool() {
    let tools = gaise::tools::get_tools();
    let names: Vec<&str> = tools.iter().map(|t| t.name.as_str()).collect();
    assert_eq!(
        names,
        vec!["todo_add", "todo_insert", "todo_complete", "todo_list", "execute_command", "read_file", "edit_file", "create_file"]
    );
    for t in &tools {
        let p = t.parameters.as_ref().unwrap();
        assert_eq!(p.kind.as_deref(), Some("object"));
        let props = p.properties.as_ref().unwrap();
        for r in p.required.clone().unwrap_or_default() {
            assert!(props.contains_key(&r));
        }
    }
    let read = tools[5].parameters.as_ref().unwrap().properties.as_ref().unwrap();
    assert_eq!(read.get("offset").unwrap().kind.as_deref(), Some("integer"));
}

#[test]
fn array_tool_parameters_have_items() {
    for t in gaise::tools::get_tools() {
        let props = t.parameters.unwrap().properties.unwrap();
        for (_, p) in props.entries {
            if p.kind.as_deref() == Some("array") {
                assert!(p.items.is_some());
            }
        }
    }
}
