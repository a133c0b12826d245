//! Slash commands: builtin commands, user-defined command definitions and the
//! request model that creates or edits them.

use vstd::prelude::*;
use crate::text::{spec_is_blank, str_eq, is_blank, contains_char, starts_with_char, clone_opt_string};

verus! {

// ============================================================================
// Builtin commands
// ============================================================================

/// A builtin slash command provided by the system.
#[derive(Debug, Clone, Copy)]
pub struct BuiltinSlashCommand {
    /// Command name (without the leading /)
    pub name: &'static str,
    /// Usage format (e.g., "/help [command]")
    pub usage: &'static str,
    /// Human-readable description
    pub description: &'static str,
    /// Optional description of expected arguments
    pub args: Option<&'static str>,
}

impl BuiltinSlashCommand {
    /// Creates a new builtin slash command.
    pub fn new(
        name: &'static str,
        usage: &'static str,
        description: &'static str,
        args: Option<&'static str>,
    ) -> (r: Self)
        ensures
            r.name == name,
            r.usage == usage,
            r.description == description,
            r.args == args,
    {
        BuiltinSlashCommand { name, usage, description, args }
    }
}

/// A builtin command as plain text: name, usage, description and the
/// description of its arguments, if it takes any.
pub open spec fn command_view(c: BuiltinSlashCommand) -> (Seq<char>, Seq<char>, Seq<char>, Option<Seq<char>>) {
    (c.name@, c.usage@, c.description@, match c.args {
        Some(a) => Some(a@),
        None => None,
    })
}

/// The builtin commands, in the order `builtin_commands` lists them.
pub open spec fn builtin_table() -> Seq<(Seq<char>, Seq<char>, Seq<char>, Option<Seq<char>>)> {
    seq![
        ("help"@, "/help [command]"@, "Show available commands and their usage"@, Some("Optional command name to show detailed help"@)),
        ("status"@, "/status"@, "Display current system status and active tasks"@, None),
        ("task"@, "/task <description>"@, "Create an orchestrated task from the provided description"@, Some("Describe the work you want executed"@)),
        ("expert"@, "/expert <expertise>"@, "Create an adhoc expert persona for immediate collaboration"@, Some("Expertise area or domain knowledge"@)),
        ("blueprint"@, "/blueprint <task description>"@, "Convert a task or topic into the BlueprintWorkflow format"@, Some("Task or discussion context to convert"@)),
        ("workspace"@, "/workspace [name]"@, "Switch to a different workspace or list all available workspaces"@, Some("Workspace name (optional)"@)),
        ("files"@, "/files"@, "List files saved to workspace storage (not project source files)"@, None),
        ("search"@, "/search <query> [-p|-a|-f]"@, "Search workspace sessions and files for the provided query"@, Some("(default) current workspace, -p +project files, -a all workspaces, -f full (all + project)"@)),
        ("mode"@, "/mode [normal|concise|brief|discussion]"@, "Change conversation mode to control agent verbosity"@, Some("normal / concise / brief / discussion"@)),
        ("talk"@, "/talk [brainstorm|casual|decision_making|debate|problem_solving|review|planning|none]"@, "Set dialogue style for multi-agent collaboration"@, Some("brainstorm / casual / decision_making / debate / problem_solving / review / planning / none"@)),
        ("create-persona"@, "/create-persona <json>"@, "Create a new persona from JSON definition (UUID auto-generated)"@, Some("JSON with required fields: name, role, background (min 10 chars), communication_style (min 10 chars), backend (claude_cli/claude_api/gemini_cli/gemini_api/open_ai_api/codex_cli). Optional: model_name, default_participant (bool), icon, base_color. NOTE: ID is always auto-generated as UUID (not accepted in request)"@)),
        ("create-slash-command"@, "/create-slash-command <json>"@, "Create a new slash command (not yet implemented)"@, Some("JSON slash command definition"@)),
        ("create-workspace"@, "/create-workspace <json>"@, "Create a new workspace (not yet implemented)"@, Some("JSON workspace definition"@))
    ]
}

/// Names of the builtin commands, in the order `builtin_commands` lists them.
pub open spec fn builtin_command_names() -> Seq<Seq<char>> {
    builtin_table().map_values(|e: (Seq<char>, Seq<char>, Seq<char>, Option<Seq<char>>)| e.0)
}

/// Returns all builtin slash commands, in their fixed order.
pub fn builtin_commands() -> (r: Vec<BuiltinSlashCommand>)
    ensures
        r@.len() == builtin_table().len(),
        forall|i: int| 0 <= i < r@.len() ==> command_view(#[trigger] r@[i]) == builtin_table()[i],
{
    let mut v: Vec<BuiltinSlashCommand> = Vec::new();
    v.push(BuiltinSlashCommand::new(
        "help",
        "/help [command]",
        "Show available commands and their usage",
        Some("Optional command name to show detailed help"),
    ));
    v.push(BuiltinSlashCommand::new(
        "status",
        "/status",
        "Display current system status and active tasks",
        None,
    ));
    v.push(BuiltinSlashCommand::new(
        "task",
        "/task <description>",
        "Create an orchestrated task from the provided description",
        Some("Describe the work you want executed"),
    ));
    v.push(BuiltinSlashCommand::new(
        "expert",
        "/expert <expertise>",
        "Create an adhoc expert persona for immediate collaboration",
        Some("Expertise area or domain knowledge"),
    ));
    v.push(BuiltinSlashCommand::new(
        "blueprint",
        "/blueprint <task description>",
        "Convert a task or topic into the BlueprintWorkflow format",
        Some("Task or discussion context to convert"),
    ));
    v.push(BuiltinSlashCommand::new(
        "workspace",
        "/workspace [name]",
        "Switch to a different workspace or list all available workspaces",
        Some("Workspace name (optional)"),
    ));
    v.push(BuiltinSlashCommand::new(
        "files",
        "/files",
        "List files saved to workspace storage (not project source files)",
        None,
    ));
    v.push(BuiltinSlashCommand::new(
        "search",
        "/search <query> [-p|-a|-f]",
        "Search workspace sessions and files for the provided query",
        Some("(default) current workspace, -p +project files, -a all workspaces, -f full (all + project)"),
    ));
    v.push(BuiltinSlashCommand::new(
        "mode",
        "/mode [normal|concise|brief|discussion]",
        "Change conversation mode to control agent verbosity",
        Some("normal / concise / brief / discussion"),
    ));
    v.push(BuiltinSlashCommand::new(
        "talk",
        "/talk [brainstorm|casual|decision_making|debate|problem_solving|review|planning|none]",
        "Set dialogue style for multi-agent collaboration",
        Some("brainstorm / casual / decision_making / debate / problem_solving / review / planning / none"),
    ));
    v.push(BuiltinSlashCommand::new(
        "create-persona",
        "/create-persona <json>",
        "Create a new persona from JSON definition (UUID auto-generated)",
        Some("JSON with required fields: name, role, background (min 10 chars), communication_style (min 10 chars), backend (claude_cli/claude_api/gemini_cli/gemini_api/open_ai_api/codex_cli). Optional: model_name, default_participant (bool), icon, base_color. NOTE: ID is always auto-generated as UUID (not accepted in request)"),
    ));
    v.push(BuiltinSlashCommand::new(
        "create-slash-command",
        "/create-slash-command <json>",
        "Create a new slash command (not yet implemented)",
        Some("JSON slash command definition"),
    ));
    v.push(BuiltinSlashCommand::new(
        "create-workspace",
        "/create-workspace <json>",
        "Create a new workspace (not yet implemented)",
        Some("JSON workspace definition"),
    ));
    proof {
        assert(v@.len() == builtin_table().len());
        assert forall|i: int| 0 <= i < v@.len() implies command_view(#[trigger] v@[i]) == builtin_table()[i] by {
        }
    }
    v
}

/// No two builtin commands share a name.
pub proof fn lemma_builtin_names_distinct()
    ensures
        forall|i: int, j: int|
            0 <= i < builtin_table().len() && 0 <= j < builtin_table().len() && i != j
                ==> (#[trigger] builtin_table()[i]).0 != (#[trigger] builtin_table()[j]).0,
{
    reveal_strlit("help");
    reveal_strlit("status");
    reveal_strlit("task");
    reveal_strlit("expert");
    reveal_strlit("blueprint");
    reveal_strlit("workspace");
    reveal_strlit("files");
    reveal_strlit("search");
    reveal_strlit("mode");
    reveal_strlit("talk");
    reveal_strlit("create-persona");
    reveal_strlit("create-slash-command");
    reveal_strlit("create-workspace");
    assert forall|i: int, j: int|
        0 <= i < builtin_table().len() && 0 <= j < builtin_table().len() && i != j
        implies (#[trigger] builtin_table()[i]).0 != (#[trigger] builtin_table()[j]).0 by {
        let a = builtin_table()[i].0;
        let b = builtin_table()[j].0;
        if a == b {
            assert(a.len() == b.len());
            assert(a[0] == b[0] && a[1] == b[1] && a[2] == b[2]);
        }
    }
}

/// Each usage text starts with "/" and the command's name, and no name starts
/// with "/".
pub proof fn lemma_builtin_usage_starts_with_name()
    ensures
        forall|i: int| 0 <= i < builtin_table().len() ==> {
            &&& ("/"@ + (#[trigger] builtin_table()[i]).0).is_prefix_of(builtin_table()[i].1)
            &&& builtin_table()[i].0.len() > 0
            &&& builtin_table()[i].0[0] != '/'
        },
{
    reveal_strlit("/");
        reveal_strlit("help");
        reveal_strlit("status");
        reveal_strlit("task");
        reveal_strlit("expert");
        reveal_strlit("blueprint");
        reveal_strlit("workspace");
        reveal_strlit("files");
        reveal_strlit("search");
        reveal_strlit("mode");
        reveal_strlit("talk");
        reveal_strlit("create-persona");
        reveal_strlit("create-slash-command");
        reveal_strlit("create-workspace");
        reveal_strlit("/help [command]");
        reveal_strlit("/status");
        reveal_strlit("/task <description>");
        reveal_strlit("/expert <expertise>");
        reveal_strlit("/blueprint <task description>");
        reveal_strlit("/workspace [name]");
        reveal_strlit("/files");
        reveal_strlit("/search <query> [-p|-a|-f]");
        reveal_strlit("/mode [normal|concise|brief|discussion]");
        reveal_strlit("/talk [brainstorm|casual|decision_making|debate|problem_solving|review|planning|none]");
        reveal_strlit("/create-persona <json>");
        reveal_strlit("/create-slash-command <json>");
        reveal_strlit("/create-workspace <json>");
    assert(("/"@ + builtin_table()[0].0) =~= builtin_table()[0].1.subrange(0, builtin_table()[0].0.len() as int + 1));
    assert(("/"@ + builtin_table()[1].0) =~= builtin_table()[1].1.subrange(0, builtin_table()[1].0.len() as int + 1));
    assert(("/"@ + builtin_table()[2].0) =~= builtin_table()[2].1.subrange(0, builtin_table()[2].0.len() as int + 1));
    assert(("/"@ + builtin_table()[3].0) =~= builtin_table()[3].1.subrange(0, builtin_table()[3].0.len() as int + 1));
    assert(("/"@ + builtin_table()[4].0) =~= builtin_table()[4].1.subrange(0, builtin_table()[4].0.len() as int + 1));
    assert(("/"@ + builtin_table()[5].0) =~= builtin_table()[5].1.subrange(0, builtin_table()[5].0.len() as int + 1));
    assert(("/"@ + builtin_table()[6].0) =~= builtin_table()[6].1.subrange(0, builtin_table()[6].0.len() as int + 1));
    assert(("/"@ + builtin_table()[7].0) =~= builtin_table()[7].1.subrange(0, builtin_table()[7].0.len() as int + 1));
    assert(("/"@ + builtin_table()[8].0) =~= builtin_table()[8].1.subrange(0, builtin_table()[8].0.len() as int + 1));
    assert(("/"@ + builtin_table()[9].0) =~= builtin_table()[9].1.subrange(0, builtin_table()[9].0.len() as int + 1));
    assert(("/"@ + builtin_table()[10].0) =~= builtin_table()[10].1.subrange(0, builtin_table()[10].0.len() as int + 1));
    assert(("/"@ + builtin_table()[11].0) =~= builtin_table()[11].1.subrange(0, builtin_table()[11].0.len() as int + 1));
    assert(("/"@ + builtin_table()[12].0) =~= builtin_table()[12].1.subrange(0, builtin_table()[12].0.len() as int + 1));
    assert forall|i: int| 0 <= i < builtin_table().len() implies {
        &&& ("/"@ + (#[trigger] builtin_table()[i]).0).is_prefix_of(builtin_table()[i].1)
        &&& builtin_table()[i].0.len() > 0
        &&& builtin_table()[i].0[0] != '/'
    } by {
        assert(0 <= i < 13);
    }
}

/// `status` and `files` take no arguments; every other command takes one.
pub proof fn lemma_builtin_args()
    ensures
        forall|i: int| 0 <= i < builtin_table().len() ==> ((#[trigger] builtin_table()[i]).3 is None
            <==> (builtin_table()[i].0 == "status"@ || builtin_table()[i].0 == "files"@)),
{
    lemma_builtin_names_distinct();
    assert(builtin_table()[1].0 == "status"@);
    assert(builtin_table()[6].0 == "files"@);
    assert forall|i: int| 0 <= i < builtin_table().len() implies ((#[trigger] builtin_table()[i]).3 is None
        <==> (builtin_table()[i].0 == "status"@ || builtin_table()[i].0 == "files"@)) by {
        assert(0 <= i < 13);
        if i != 1 {
            assert(builtin_table()[i].0 != builtin_table()[1].0);
        }
        if i != 6 {
            assert(builtin_table()[i].0 != builtin_table()[6].0);
        }
    }
}

/// `i` is the first builtin command named `name`.
pub open spec fn is_first_builtin(name: Seq<char>, i: int) -> bool {
    &&& 0 <= i < builtin_table().len()
    &&& builtin_table()[i].0 == name
    &&& forall|j: int| 0 <= j < i ==> (#[trigger] builtin_table()[j]).0 != name
}

/// Finds the first builtin command whose name equals `name`.
pub fn find_builtin_command(name: &str) -> (r: Option<BuiltinSlashCommand>)
    ensures
        r is None <==> !builtin_command_names().contains(name@),
        r matches Some(c) ==> exists|i: int| #[trigger] is_first_builtin(name@, i) && command_view(c) == builtin_table()[i],
{
    let cmds = builtin_commands();
    let n = cmds.len();
    let mut i: usize = 0;
    while i < n
        invariant
            n == cmds@.len(),
            n == builtin_table().len(),
            i <= n,
            forall|j: int| 0 <= j < cmds@.len() ==> command_view(#[trigger] cmds@[j]) == builtin_table()[j],
            forall|j: int| 0 <= j < i ==> (#[trigger] builtin_table()[j]).0 != name@,
        decreases n - i,
    {
        if str_eq(cmds[i].name, name) {
            let c = cmds[i];
            proof {
                assert(command_view(cmds@[i as int]) == builtin_table()[i as int]);
                assert(is_first_builtin(name@, i as int));
                assert(builtin_command_names()[i as int] == name@);
                assert(builtin_command_names().contains(name@));
            }
            return Some(c);
        }
        proof {
            assert(command_view(cmds@[i as int]) == builtin_table()[i as int]);
        }
        i = i + 1;
    }
    assert(!builtin_command_names().contains(name@)) by {
        if builtin_command_names().contains(name@) {
            let k = choose|k: int| 0 <= k < builtin_command_names().len() && builtin_command_names()[k] == name@;
            assert(builtin_table()[k].0 == name@);
        }
    }
    None
}


// ============================================================================
// Command definitions
// ============================================================================

/// Type of slash command execution.
#[derive(Debug, Clone, Copy, PartialEq, Eq, Structural)]
pub enum CommandType {
    /// Expands into a prompt template and sends to AI
    Prompt,
    /// Executes a shell command and shows output
    Shell,
    /// Executes a long-running orchestration task workflow
    Task,
    /// Executes a predefined action directly and returns result (e.g., generate_summary)
    Action,
}

/// Configuration for Action type commands.
#[derive(Debug, Clone, PartialEq)]
pub struct ActionConfig {
    /// Backend to use for execution (e.g., "gemini_api", "claude_api", "open_ai_api")
    pub backend: Option<String>,
    /// Model name override
    pub model_name: Option<String>,
    /// Persona ID to use for execution
    pub persona_id: Option<String>,
    /// Gemini thinking level (LOW/MEDIUM/HIGH)
    pub gemini_thinking_level: Option<String>,
    /// Enable Gemini Google Search
    pub gemini_google_search: Option<bool>,
}

impl ActionConfig {
    /// Copies the configuration field by field.
    pub fn copy(&self) -> (r: ActionConfig)
        ensures
            r == *self,
    {
        ActionConfig {
            backend: clone_opt_string(&self.backend),
            model_name: clone_opt_string(&self.model_name),
            persona_id: clone_opt_string(&self.persona_id),
            gemini_thinking_level: clone_opt_string(&self.gemini_thinking_level),
            gemini_google_search: self.gemini_google_search,
        }
    }
}

/// Copies an optional action configuration.
pub fn clone_opt_action_config(o: &Option<ActionConfig>) -> (r: Option<ActionConfig>)
    ensures
        r == *o,
{
    match o {
        Some(c) => Some(c.copy()),
        None => None,
    }
}

/// A custom slash command definition.
#[derive(Debug, Clone)]
pub struct SlashCommand {
    /// Command name (used as /name in chat)
    pub name: String,
    /// Icon to display in UI
    pub icon: String,
    /// Human-readable description
    pub description: String,
    /// Type of command (prompt, shell, task or action)
    pub command_type: CommandType,
    /// Command content (prompt template, shell command, or task description)
    pub content: String,
    /// Working directory for shell commands (supports variables like {workspace_path})
    pub working_dir: Option<String>,
    /// Optional description of expected arguments (displayed in UI)
    pub args_description: Option<String>,
    /// Task execution strategy blueprint (JSON serialized StrategyMap) for Task type commands
    pub task_blueprint: Option<String>,
    /// Configuration for Action type commands (backend, model, etc.)
    pub action_config: Option<ActionConfig>,
    /// Whether to include this command in system prompts for personas.
    pub include_in_system_prompt: bool,
    /// Whether this command is marked as favorite.
    pub is_favorite: bool,
    /// Sort order within favorites (lower = higher priority).
    pub sort_order: Option<u32>,
}

/// Default value for `include_in_system_prompt` when a stored command omits it.
pub fn default_include_in_system_prompt() -> (r: bool)
    ensures
        r,
{
    true
}

/// The command every constructor builds: the given fields, no optional extras,
/// not a favorite, no sort order.
pub open spec fn spec_new_command(
    name: String,
    icon: String,
    description: String,
    command_type: CommandType,
    content: String,
    working_dir: Option<String>,
    task_blueprint: Option<String>,
    action_config: Option<ActionConfig>,
    args_description: Option<String>,
) -> SlashCommand {
    SlashCommand {
        name,
        icon,
        description,
        command_type,
        content,
        working_dir,
        args_description,
        task_blueprint,
        action_config,
        include_in_system_prompt: command_type != CommandType::Task,
        is_favorite: false,
        sort_order: None,
    }
}

impl SlashCommand {
    /// Creates a new prompt-type slash command.
    pub fn new_prompt(name: String, icon: String, description: String, content: String) -> (r:
        Self)
        ensures
            r == spec_new_command(name, icon, description, CommandType::Prompt, content, None, None, None, None),
    {
        SlashCommand {
            name,
            icon,
            description,
            command_type: CommandType::Prompt,
            content,
            working_dir: None,
            args_description: None,
            task_blueprint: None,
            action_config: None,
            include_in_system_prompt: true,
            is_favorite: false,
            sort_order: None,
        }
    }

    /// Creates a new prompt-type slash command with an argument description.
    pub fn new_prompt_with_args(
        name: String,
        icon: String,
        description: String,
        content: String,
        args_description: Option<String>,
    ) -> (r: Self)
        ensures
            r == spec_new_command(name, icon, description, CommandType::Prompt, content, None, None, None, args_description),
    {
        let mut cmd = Self::new_prompt(name, icon, description, content);
        cmd.args_description = args_description;
        cmd
    }

    /// Creates a new shell-type slash command.
    pub fn new_shell(
        name: String,
        icon: String,
        description: String,
        content: String,
        working_dir: Option<String>,
    ) -> (r: Self)
        ensures
            r == spec_new_command(name, icon, description, CommandType::Shell, content, working_dir, None, None, None),
    {
        SlashCommand {
            name,
            icon,
            description,
            command_type: CommandType::Shell,
            content,
            working_dir,
            args_description: None,
            task_blueprint: None,
            action_config: None,
            include_in_system_prompt: true,
            is_favorite: false,
            sort_order: None,
        }
    }

    /// Creates a new shell-type slash command with an argument description.
    pub fn new_shell_with_args(
        name: String,
        icon: String,
        description: String,
        content: String,
        working_dir: Option<String>,
        args_description: Option<String>,
    ) -> (r: Self)
        ensures
            r == spec_new_command(name, icon, description, CommandType::Shell, content, working_dir, None, None, args_description),
    {
        let mut cmd = Self::new_shell(name, icon, description, content, working_dir);
        cmd.args_description = args_description;
        cmd
    }

    /// Creates a new task-type slash command; task commands are left out of
    /// system prompts by default.
    pub fn new_task(
        name: String,
        icon: String,
        description: String,
        content: String,
        task_blueprint: Option<String>,
    ) -> (r: Self)
        ensures
            r == spec_new_command(name, icon, description, CommandType::Task, content, None, task_blueprint, None, None),
    {
        SlashCommand {
            name,
            icon,
            description,
            command_type: CommandType::Task,
            content,
            working_dir: None,
            args_description: None,
            task_blueprint,
            action_config: None,
            include_in_system_prompt: false,
            is_favorite: false,
            sort_order: None,
        }
    }

    /// Creates a new task-type slash command with an argument description.
    pub fn new_task_with_args(
        name: String,
        icon: String,
        description: String,
        content: String,
        task_blueprint: Option<String>,
        args_description: Option<String>,
    ) -> (r: Self)
        ensures
            r == spec_new_command(name, icon, description, CommandType::Task, content, None, task_blueprint, None, args_description),
    {
        let mut cmd = Self::new_task(name, icon, description, content, task_blueprint);
        cmd.args_description = args_description;
        cmd
    }

    /// Creates a new action-type slash command; its content is a prompt template
    /// with variables like {session_all}, {session_recent}.
    pub fn new_action(
        name: String,
        icon: String,
        description: String,
        content: String,
        action_config: Option<ActionConfig>,
    ) -> (r: Self)
        ensures
            r == spec_new_command(name, icon, description, CommandType::Action, content, None, None, action_config, None),
    {
        SlashCommand {
            name,
            icon,
            description,
            command_type: CommandType::Action,
            content,
            working_dir: None,
            args_description: None,
            task_blueprint: None,
            action_config,
            include_in_system_prompt: true,
            is_favorite: false,
            sort_order: None,
        }
    }

    /// Creates a new action-type slash command with an argument description.
    pub fn new_action_with_args(
        name: String,
        icon: String,
        description: String,
        content: String,
        action_config: Option<ActionConfig>,
        args_description: Option<String>,
    ) -> (r: Self)
        ensures
            r == spec_new_command(name, icon, description, CommandType::Action, content, None, None, action_config, args_description),
    {
        let mut cmd = Self::new_action(name, icon, description, content, action_config);
        cmd.args_description = args_description;
        cmd
    }
}

// ============================================================================
// Creation request
// ============================================================================

/// Request to create a new slash command, used both by the
/// `/create-slash-command` command and by the editor form.
#[derive(Debug, Clone)]
pub struct CreateSlashCommandRequest {
    /// Command name (required, used as /name in chat)
    pub name: String,
    /// Icon to display in UI (defaults to ⚡)
    pub icon: String,
    /// Human-readable description (required)
    pub description: String,
    /// Type of command (required)
    pub command_type: CommandType,
    /// Command content (required)
    pub content: String,
    /// Working directory for shell commands
    pub working_dir: Option<String>,
    /// Optional description of expected arguments
    pub args_description: Option<String>,
    /// Task execution strategy blueprint (for task type)
    pub task_blueprint: Option<String>,
    /// Configuration for Action type commands
    pub action_config: Option<ActionConfig>,
    /// Whether to include this command in system prompts; when absent the
    /// command type decides (tasks excluded, everything else included).
    pub include_in_system_prompt: Option<bool>,
    /// Whether this command is marked as favorite.
    pub is_favorite: Option<bool>,
    /// Sort order within favorites (lower = higher priority).
    pub sort_order: Option<u32>,
}

/// Default icon of a created command.
pub fn default_icon() -> (r: String)
    ensures
        r@ == "\u{26a1}"@,
{
    String::from_str("\u{26a1}")
}

/// Whether a command of the given type goes into system prompts by default.
pub open spec fn spec_default_include_for_type(command_type: CommandType) -> bool {
    command_type != CommandType::Task
}

/// Default value of `include_in_system_prompt` for a command type.
pub fn default_include_for_type(command_type: &CommandType) -> (r: bool)
    ensures
        r == spec_default_include_for_type(*command_type),
{
    match command_type {
        CommandType::Task => false,
        _ => true,
    }
}

/// The validation error for a request, in the order the checks run; `None` when valid.
pub open spec fn spec_validation_error(
    name: Seq<char>,
    description: Seq<char>,
    content: Seq<char>,
) -> Option<Seq<char>> {
    if spec_is_blank(name) {
        Some("Name is required and cannot be empty"@)
    } else if name.contains(' ') {
        Some("Command name cannot contain spaces"@)
    } else if name[0] == '/' {
        Some("Command name should not start with '/' (it will be added automatically)"@)
    } else if spec_is_blank(description) {
        Some("Description is required and cannot be empty"@)
    } else if spec_is_blank(content) {
        Some("Content is required and cannot be empty"@)
    } else {
        None
    }
}

/// The command a request turns into.
pub open spec fn spec_request_to_command(req: CreateSlashCommandRequest) -> SlashCommand {
    SlashCommand {
        name: req.name,
        icon: req.icon,
        description: req.description,
        command_type: req.command_type,
        content: req.content,
        working_dir: req.working_dir,
        args_description: req.args_description,
        task_blueprint: req.task_blueprint,
        action_config: req.action_config,
        include_in_system_prompt: match req.include_in_system_prompt {
            Some(b) => b,
            None => spec_default_include_for_type(req.command_type),
        },
        is_favorite: match req.is_favorite {
            Some(b) => b,
            None => false,
        },
        sort_order: req.sort_order,
    }
}

/// The request that edits an existing command: every optional setting made explicit.
pub open spec fn spec_command_to_request(cmd: SlashCommand) -> CreateSlashCommandRequest {
    CreateSlashCommandRequest {
        name: cmd.name,
        icon: cmd.icon,
        description: cmd.description,
        command_type: cmd.command_type,
        content: cmd.content,
        working_dir: cmd.working_dir,
        args_description: cmd.args_description,
        task_blueprint: cmd.task_blueprint,
        action_config: cmd.action_config,
        include_in_system_prompt: Some(cmd.include_in_system_prompt),
        is_favorite: Some(cmd.is_favorite),
        sort_order: cmd.sort_order,
    }
}

impl CreateSlashCommandRequest {
    /// Validates the request: name, description and content must not be blank,
    /// the name has no spaces and does not start with '/'.
    pub fn validate(&self) -> (r: Result<(), String>)
        ensures
            match spec_validation_error(self.name@, self.description@, self.content@) {
                None => r is Ok,
                Some(msg) => r matches Err(e) && e@ == msg,
            },
    {
        if is_blank(self.name.as_str()) {
            return Err(String::from_str("Name is required and cannot be empty"));
        }
        if contains_char(self.name.as_str(), ' ') {
            return Err(String::from_str("Command name cannot contain spaces"));
        }
        if starts_with_char(self.name.as_str(), '/') {
            return Err(
                String::from_str(
                    "Command name should not start with '/' (it will be added automatically)",
                ),
            );
        }
        if is_blank(self.description.as_str()) {
            return Err(String::from_str("Description is required and cannot be empty"));
        }
        if is_blank(self.content.as_str()) {
            return Err(String::from_str("Content is required and cannot be empty"));
        }
        Ok(())
    }

    /// Converts this request into a command, filling the defaults.
    pub fn into_slash_command(self) -> (r: SlashCommand)
        ensures
            r == spec_request_to_command(self),
    {
        let include_in_system_prompt = match self.include_in_system_prompt {
            Some(b) => b,
            None => default_include_for_type(&self.command_type),
        };
        let is_favorite = match self.is_favorite {
            Some(b) => b,
            None => false,
        };
        SlashCommand {
            name: self.name,
            icon: self.icon,
            description: self.description,
            command_type: self.command_type,
            content: self.content,
            working_dir: self.working_dir,
            args_description: self.args_description,
            task_blueprint: self.task_blueprint,
            action_config: self.action_config,
            include_in_system_prompt,
            is_favorite,
            sort_order: self.sort_order,
        }
    }

    /// Creates a request from an existing command (for editing).
    pub fn from_slash_command(cmd: &SlashCommand) -> (r: Self)
        ensures
            r == spec_command_to_request(*cmd),
    {
        CreateSlashCommandRequest {
            name: cmd.name.clone(),
            icon: cmd.icon.clone(),
            description: cmd.description.clone(),
            command_type: cmd.command_type,
            content: cmd.content.clone(),
            working_dir: clone_opt_string(&cmd.working_dir),
            args_description: clone_opt_string(&cmd.args_description),
            task_blueprint: clone_opt_string(&cmd.task_blueprint),
            action_config: clone_opt_action_config(&cmd.action_config),
            include_in_system_prompt: Some(cmd.include_in_system_prompt),
            is_favorite: Some(cmd.is_favorite),
            sort_order: cmd.sort_order,
        }
    }
}

/// Editing a command and submitting the edit unchanged gives back the same command.
pub proof fn lemma_edit_request_round_trip(cmd: SlashCommand)
    ensures
        spec_request_to_command(spec_command_to_request(cmd)) == cmd,
{
}

/// A request that validates has a name that is neither blank, nor spaced, nor slash-prefixed,
/// and non-blank description and content.
pub proof fn lemma_valid_request_shape(name: Seq<char>, description: Seq<char>, content: Seq<char>)
    requires
        spec_validation_error(name, description, content) is None,
    ensures
        !spec_is_blank(name),
        name.len() > 0,
        !name.contains(' '),
        name[0] != '/',
        !spec_is_blank(description),
        !spec_is_blank(content),
{
}

/// Every constructor's command goes into system prompts exactly when it is not a task command.
pub proof fn lemma_constructor_include_default(
    name: String,
    icon: String,
    description: String,
    command_type: CommandType,
    content: String,
    working_dir: Option<String>,
    task_blueprint: Option<String>,
    action_config: Option<ActionConfig>,
    args_description: Option<String>,
)
    ensures
        spec_new_command(name, icon, description, command_type, content, working_dir, task_blueprint, action_config, args_description).include_in_system_prompt
            == spec_default_include_for_type(command_type),
{
}

} // verus!
