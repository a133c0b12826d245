use orcs::slash_command::{
    builtin_commands, find_builtin_command, ActionConfig, BuiltinSlashCommand, CommandType,
    CreateSlashCommandRequest, SlashCommand,
};

fn request(name: &str, icon: &str, description: &str, command_type: CommandType, content: &str) -> CreateSlashCommandRequest {
    CreateSlashCommandRequest {
        name: name.to_string(),
        icon: icon.to_string(),
        description: description.to_string(),
        command_type,
        content: content.to_string(),
        working_dir: None,
        args_description: None,
        task_blueprint: None,
        action_config: None,
        include_in_system_prompt: None,
        is_favorite: None,
        sort_order: None,
    }
}

#[test]
fn test_builtin_commands_initialized() {
    let commands = builtin_commands();
    assert!(!commands.is_empty());
    assert!(commands.iter().any(|c| c.name == "help"));
    assert!(commands.iter().any(|c| c.name == "search"));
}

#[test]
fn test_find_builtin_command() {
    assert!(find_builtin_command("help").is_some());
    assert!(find_builtin_command("nonexistent").is_none());
}

#[test]
fn find_builtin_command_returns_the_named_command() {
    let c = find_builtin_command("create-workspace").unwrap();
    assert_eq!(c.name, "create-workspace");
    assert_eq!(c.usage, "/create-workspace <json>");
    assert!(find_builtin_command("").is_none());
    assert!(find_builtin_command("Help").is_none());
    assert_eq!(builtin_commands().len(), 13);
}

#[test]
fn builtin_commands_table_shape() {
    let c = builtin_commands();
    let names: Vec<&str> = c.iter().map(|x| x.name).collect();
    assert_eq!(
        names,
        vec![
            "help", "status", "task", "expert", "blueprint", "workspace", "files", "search", "mode",
            "talk", "create-persona", "create-slash-command", "create-workspace"
        ]
    );
    for (i, cmd) in c.iter().enumerate() {
        assert_eq!(cmd.args.is_none(), i == 1 || i == 6);
        assert!(!cmd.name.starts_with('/'));
        assert!(cmd.usage.starts_with(&format!("/{}", cmd.name)));
    }
    assert_eq!(c[0].usage, "/help [command]");
    assert_eq!(c[0].description, "Show available commands and their usage");
    assert_eq!(c[0].args, Some("Optional command name to show detailed help"));
}

#[test]
fn find_builtin_command_gives_the_listed_entry() {
    for cmd in builtin_commands() {
        let found = find_builtin_command(cmd.name).unwrap();
        assert_eq!(found.name, cmd.name);
        assert_eq!(found.usage, cmd.usage);
        assert_eq!(found.description, cmd.description);
        assert_eq!(found.args, cmd.args);
    }
    assert!(find_builtin_command("HELP").is_none());
}

#[test]
fn builtin_new_keeps_fields() {
    let c = BuiltinSlashCommand::new("a", "/a", "desc", None);
    assert_eq!(c.name, "a");
    assert_eq!(c.usage, "/a");
    assert_eq!(c.description, "desc");
    assert!(c.args.is_none());
}

#[test]
fn test_validate_success() {
    let req = request("test", "🔧", "Test command", CommandType::Prompt, "Test prompt");
    assert!(req.validate().is_ok());
}

#[test]
fn test_validate_empty_name() {
    let req = request("", "⚡", "Test", CommandType::Prompt, "Test");
    assert!(req.validate().is_err());
}

#[test]
fn test_validate_name_with_spaces() {
    let req = request("test command", "⚡", "Test", CommandType::Prompt, "Test");
    assert!(req.validate().is_err());
}

#[test]
fn test_validate_name_with_slash() {
    let req = request("/test", "⚡", "Test", CommandType::Prompt, "Test");
    assert!(req.validate().is_err());
}

#[test]
fn test_validate_action_requires_content() {
    let req = request("summary", "📝", "Generate summary", CommandType::Action, "");
    assert!(req.validate().is_err());
}

#[test]
fn test_validate_action_success() {
    let req = request(
        "summary",
        "📝",
        "Generate summary",
        CommandType::Action,
        "{session_all}\n\nSummarize the above conversation.",
    );
    assert!(req.validate().is_ok());
}

#[test]
fn validate_error_messages() {
    assert_eq!(
        request("  \t", "⚡", "d", CommandType::Prompt, "c").validate(),
        Err("Name is required and cannot be empty".to_string())
    );
    assert_eq!(
        request("a b", "⚡", "d", CommandType::Prompt, "c").validate(),
        Err("Command name cannot contain spaces".to_string())
    );
    assert_eq!(
        request("/a", "⚡", "d", CommandType::Prompt, "c").validate(),
        Err("Command name should not start with '/' (it will be added automatically)".to_string())
    );
    assert_eq!(
        request("a", "⚡", "\u{3000}", CommandType::Prompt, "c").validate(),
        Err("Description is required and cannot be empty".to_string())
    );
    assert_eq!(
        request("a", "⚡", "d", CommandType::Prompt, "\n").validate(),
        Err("Content is required and cannot be empty".to_string())
    );
    // A tab inside the name is whitespace but not a space.
    assert!(request("a\tb", "⚡", "d", CommandType::Prompt, "c").validate().is_ok());
}

#[test]
fn test_into_slash_command() {
    let mut req = request("test", "🔧", "Test command", CommandType::Shell, "echo hello");
    req.working_dir = Some("/tmp".to_string());
    req.args_description = Some("args".to_string());
    let cmd = req.into_slash_command();
    assert_eq!(cmd.name, "test");
    assert_eq!(cmd.icon, "🔧");
    assert_eq!(cmd.command_type, CommandType::Shell);
    assert!(cmd.include_in_system_prompt);
    assert!(!cmd.is_favorite);
    assert!(cmd.sort_order.is_none());
}

#[test]
fn test_into_slash_command_task_default() {
    let req = request("build", "🔨", "Build project", CommandType::Task, "Build the project");
    let cmd = req.into_slash_command();
    assert!(!cmd.include_in_system_prompt);
}

#[test]
fn test_into_slash_command_explicit_override() {
    let mut req = request("build", "🔨", "Build project", CommandType::Task, "Build the project");
    req.include_in_system_prompt = Some(true);
    let cmd = req.into_slash_command();
    assert!(cmd.include_in_system_prompt);
}

#[test]
fn test_into_slash_command_with_favorite() {
    let mut req = request("fav-cmd", "⭐", "Favorite command", CommandType::Prompt, "Test");
    req.is_favorite = Some(true);
    req.sort_order = Some(1);
    let cmd = req.into_slash_command();
    assert!(cmd.is_favorite);
    assert_eq!(cmd.sort_order, Some(1));
}

#[test]
fn edit_request_round_trip() {
    let mut cmd = SlashCommand::new_action_with_args(
        "sum".to_string(),
        "📝".to_string(),
        "Summary".to_string(),
        "{session_all}".to_string(),
        Some(ActionConfig {
            backend: Some("gemini_api".to_string()),
            model_name: None,
            persona_id: None,
            gemini_thinking_level: Some("LOW".to_string()),
            gemini_google_search: Some(true),
        }),
        Some("none".to_string()),
    );
    cmd.is_favorite = true;
    cmd.sort_order = Some(3);
    let req = CreateSlashCommandRequest::from_slash_command(&cmd);
    assert_eq!(req.include_in_system_prompt, Some(true));
    assert_eq!(req.is_favorite, Some(true));
    let back = req.into_slash_command();
    assert_eq!(back.name, cmd.name);
    assert_eq!(back.content, cmd.content);
    assert_eq!(back.command_type, CommandType::Action);
    assert_eq!(back.action_config, cmd.action_config);
    assert_eq!(back.args_description, cmd.args_description);
    assert!(back.is_favorite);
    assert_eq!(back.sort_order, Some(3));
}

#[test]
fn constructors_set_type_and_prompt_default() {
    let s = |x: &str| x.to_string();
    let p = SlashCommand::new_prompt(s("p"), s("i"), s("d"), s("c"));
    assert_eq!(p.command_type, CommandType::Prompt);
    assert!(p.include_in_system_prompt);
    let sh = SlashCommand::new_shell_with_args(s("s"), s("i"), s("d"), s("ls"), Some(s("/tmp")), Some(s("a")));
    assert_eq!(sh.command_type, CommandType::Shell);
    assert_eq!(sh.working_dir, Some(s("/tmp")));
    assert_eq!(sh.args_description, Some(s("a")));
    let t = SlashCommand::new_task_with_args(s("t"), s("i"), s("d"), s("c"), Some(s("{}")), None);
    assert_eq!(t.command_type, CommandType::Task);
    assert!(!t.include_in_system_prompt);
    assert_eq!(t.task_blueprint, Some(s("{}")));
    let a = SlashCommand::new_action(s("a"), s("i"), s("d"), s("c"), None);
    assert_eq!(a.command_type, CommandType::Action);
    assert!(a.include_in_system_prompt);
    assert!(!a.is_favorite);
    let pa = SlashCommand::new_prompt_with_args(s("p"), s("i"), s("d"), s("c"), Some(s("x")));
    assert_eq!(pa.args_description, Some(s("x")));
    let shn = SlashCommand::new_shell(s("s"), s("i"), s("d"), s("ls"), None);
    assert!(shn.working_dir.is_none());
    let tn = SlashCommand::new_task(s("t"), s("i"), s("d"), s("c"), None);
    assert!(tn.task_blueprint.is_none());
}

#[test]
fn defaults() {
    assert_eq!(orcs::slash_command::default_icon(), "⚡");
    assert!(orcs::slash_command::default_include_in_system_prompt());
    assert!(!orcs::slash_command::default_include_for_type(&CommandType::Task));
    assert!(orcs::slash_command::default_include_for_type(&CommandType::Shell));
}

