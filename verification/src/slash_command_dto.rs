//! Stored slash command records. Each schema adds fields to the one before;
//! migrating a record forward keeps every field it had and gives the new ones
//! their defaults. Schema 1.4.0 decides from the command type whether a
//! command is offered in persona system prompts: every type but task is.

use vstd::prelude::*;
use crate::slash_command::{ActionConfig, CommandType, SlashCommand, clone_opt_action_config};
use crate::text::clone_opt_string;

verus! {

/// Slash command record, schema 1.0.0.
#[derive(Debug, Clone)]
pub struct SlashCommandV1 {
    pub name: String,
    pub icon: String,
    pub description: String,
    pub command_type: CommandType,
    pub content: String,
    pub working_dir: Option<String>,
}

/// Slash command record, schema 1.1.0 (adds `args_description`).
#[derive(Debug, Clone)]
pub struct SlashCommandV1_1 {
    pub name: String,
    pub icon: String,
    pub description: String,
    pub command_type: CommandType,
    pub content: String,
    pub working_dir: Option<String>,
    pub args_description: Option<String>,
}

/// Slash command record, schema 1.2.0 (adds `task_blueprint`).
#[derive(Debug, Clone)]
pub struct SlashCommandV1_2 {
    pub name: String,
    pub icon: String,
    pub description: String,
    pub command_type: CommandType,
    pub content: String,
    pub working_dir: Option<String>,
    pub args_description: Option<String>,
    pub task_blueprint: Option<String>,
}

/// Slash command record, schema 1.3.0 (adds `action_config`).
#[derive(Debug, Clone)]
pub struct SlashCommandV1_3 {
    pub name: String,
    pub icon: String,
    pub description: String,
    pub command_type: CommandType,
    pub content: String,
    pub working_dir: Option<String>,
    pub args_description: Option<String>,
    pub task_blueprint: Option<String>,
    pub action_config: Option<ActionConfig>,
}

/// Slash command record, schema 1.4.0 (adds `include_in_system_prompt`).
#[derive(Debug, Clone)]
pub struct SlashCommandV1_4 {
    pub name: String,
    pub icon: String,
    pub description: String,
    pub command_type: CommandType,
    pub content: String,
    pub working_dir: Option<String>,
    pub args_description: Option<String>,
    pub task_blueprint: Option<String>,
    pub action_config: Option<ActionConfig>,
    pub include_in_system_prompt: bool,
}

/// Slash command record, schema 1.5.0 (adds `is_favorite` and `sort_order`).
#[derive(Debug, Clone)]
pub struct SlashCommandV1_5 {
    pub name: String,
    pub icon: String,
    pub description: String,
    pub command_type: CommandType,
    pub content: String,
    pub working_dir: Option<String>,
    pub args_description: Option<String>,
    pub task_blueprint: Option<String>,
    pub action_config: Option<ActionConfig>,
    pub include_in_system_prompt: bool,
    pub is_favorite: bool,
    pub sort_order: Option<u32>,
}

impl SlashCommandV1 {
    /// Migrates to 1.1.0: no argument description.
    pub fn migrate(self) -> (r: SlashCommandV1_1)
        ensures
            r == (SlashCommandV1_1 {
                name: self.name,
                icon: self.icon,
                description: self.description,
                command_type: self.command_type,
                content: self.content,
                working_dir: self.working_dir,
                args_description: None,
            }),
    {
        SlashCommandV1_1 {
            name: self.name,
            icon: self.icon,
            description: self.description,
            command_type: self.command_type,
            content: self.content,
            working_dir: self.working_dir,
            args_description: None,
        }
    }
}

impl SlashCommandV1_1 {
    /// Migrates to 1.2.0: no task blueprint.
    pub fn migrate(self) -> (r: SlashCommandV1_2)
        ensures
            r == (SlashCommandV1_2 {
                name: self.name,
                icon: self.icon,
                description: self.description,
                command_type: self.command_type,
                content: self.content,
                working_dir: self.working_dir,
                args_description: self.args_description,
                task_blueprint: None,
            }),
    {
        SlashCommandV1_2 {
            name: self.name,
            icon: self.icon,
            description: self.description,
            command_type: self.command_type,
            content: self.content,
            working_dir: self.working_dir,
            args_description: self.args_description,
            task_blueprint: None,
        }
    }
}

impl SlashCommandV1_2 {
    /// Migrates to 1.3.0: no action configuration.
    pub fn migrate(self) -> (r: SlashCommandV1_3)
        ensures
            r == (SlashCommandV1_3 {
                name: self.name,
                icon: self.icon,
                description: self.description,
                command_type: self.command_type,
                content: self.content,
                working_dir: self.working_dir,
                args_description: self.args_description,
                task_blueprint: self.task_blueprint,
                action_config: None,
            }),
    {
        SlashCommandV1_3 {
            name: self.name,
            icon: self.icon,
            description: self.description,
            command_type: self.command_type,
            content: self.content,
            working_dir: self.working_dir,
            args_description: self.args_description,
            task_blueprint: self.task_blueprint,
            action_config: None,
        }
    }
}

impl SlashCommandV1_3 {
    /// Migrates to 1.4.0: a task command is left out of system prompts, any
    /// other command is offered there.
    pub fn migrate(self) -> (r: SlashCommandV1_4)
        ensures
            r == (SlashCommandV1_4 {
                name: self.name,
                icon: self.icon,
                description: self.description,
                command_type: self.command_type,
                content: self.content,
                working_dir: self.working_dir,
                args_description: self.args_description,
                task_blueprint: self.task_blueprint,
                action_config: self.action_config,
                include_in_system_prompt: self.command_type != CommandType::Task,
            }),
    {
        let include_in_system_prompt = self.command_type != CommandType::Task;
        SlashCommandV1_4 {
            name: self.name,
            icon: self.icon,
            description: self.description,
            command_type: self.command_type,
            content: self.content,
            working_dir: self.working_dir,
            args_description: self.args_description,
            task_blueprint: self.task_blueprint,
            action_config: self.action_config,
            include_in_system_prompt,
        }
    }
}

impl SlashCommandV1_4 {
    /// Migrates to 1.5.0: not a favorite, no sort order.
    pub fn migrate(self) -> (r: SlashCommandV1_5)
        ensures
            r == (SlashCommandV1_5 {
                name: self.name,
                icon: self.icon,
                description: self.description,
                command_type: self.command_type,
                content: self.content,
                working_dir: self.working_dir,
                args_description: self.args_description,
                task_blueprint: self.task_blueprint,
                action_config: self.action_config,
                include_in_system_prompt: self.include_in_system_prompt,
                is_favorite: false,
                sort_order: None,
            }),
    {
        SlashCommandV1_5 {
            name: self.name,
            icon: self.icon,
            description: self.description,
            command_type: self.command_type,
            content: self.content,
            working_dir: self.working_dir,
            args_description: self.args_description,
            task_blueprint: self.task_blueprint,
            action_config: self.action_config,
            include_in_system_prompt: self.include_in_system_prompt,
            is_favorite: false,
            sort_order: None,
        }
    }
}

/// The domain command of a 1.5.0 record: every field carried over.
pub open spec fn spec_command_into_domain(d: SlashCommandV1_5) -> SlashCommand {
    SlashCommand {
        name: d.name,
        icon: d.icon,
        description: d.description,
        command_type: d.command_type,
        content: d.content,
        working_dir: d.working_dir,
        args_description: d.args_description,
        task_blueprint: d.task_blueprint,
        action_config: d.action_config,
        include_in_system_prompt: d.include_in_system_prompt,
        is_favorite: d.is_favorite,
        sort_order: d.sort_order,
    }
}

/// The 1.5.0 record of a domain command.
pub open spec fn spec_command_from_domain(c: SlashCommand) -> SlashCommandV1_5 {
    SlashCommandV1_5 {
        name: c.name,
        icon: c.icon,
        description: c.description,
        command_type: c.command_type,
        content: c.content,
        working_dir: c.working_dir,
        args_description: c.args_description,
        task_blueprint: c.task_blueprint,
        action_config: c.action_config,
        include_in_system_prompt: c.include_in_system_prompt,
        is_favorite: c.is_favorite,
        sort_order: c.sort_order,
    }
}

/// The record of the latest schema that a record of any schema becomes: a
/// 1.0.0 record migrated through every schema.
pub open spec fn spec_v1_to_latest(c: SlashCommandV1) -> SlashCommandV1_5 {
    SlashCommandV1_5 {
        name: c.name,
        icon: c.icon,
        description: c.description,
        command_type: c.command_type,
        content: c.content,
        working_dir: c.working_dir,
        args_description: None,
        task_blueprint: None,
        action_config: None,
        include_in_system_prompt: c.command_type != CommandType::Task,
        is_favorite: false,
        sort_order: None,
    }
}

impl SlashCommandV1_5 {
    /// The domain command.
    pub fn into_domain(self) -> (r: SlashCommand)
        ensures
            r == spec_command_into_domain(self),
    {
        SlashCommand {
            name: self.name,
            icon: self.icon,
            description: self.description,
            command_type: self.command_type,
            content: self.content,
            working_dir: self.working_dir,
            args_description: self.args_description,
            task_blueprint: self.task_blueprint,
            action_config: self.action_config,
            include_in_system_prompt: self.include_in_system_prompt,
            is_favorite: self.is_favorite,
            sort_order: self.sort_order,
        }
    }

    /// The record of a domain command, taken by value.
    pub fn from_domain(cmd: SlashCommand) -> (r: Self)
        ensures
            r == spec_command_from_domain(cmd),
    {
        SlashCommandV1_5 {
            name: cmd.name,
            icon: cmd.icon,
            description: cmd.description,
            command_type: cmd.command_type,
            content: cmd.content,
            working_dir: cmd.working_dir,
            args_description: cmd.args_description,
            task_blueprint: cmd.task_blueprint,
            action_config: cmd.action_config,
            include_in_system_prompt: cmd.include_in_system_prompt,
            is_favorite: cmd.is_favorite,
            sort_order: cmd.sort_order,
        }
    }

    /// The record of a domain command, copied from a reference.
    pub fn from_command(cmd: &SlashCommand) -> (r: Self)
        ensures
            r == spec_command_from_domain(*cmd),
    {
        SlashCommandV1_5 {
            name: cmd.name.clone(),
            icon: cmd.icon.clone(),
            description: cmd.description.clone(),
            command_type: cmd.command_type,
            content: cmd.content.clone(),
            working_dir: clone_opt_string(&cmd.working_dir),
            args_description: clone_opt_string(&cmd.args_description),
            task_blueprint: clone_opt_string(&cmd.task_blueprint),
            action_config: clone_opt_action_config(&cmd.action_config),
            include_in_system_prompt: cmd.include_in_system_prompt,
            is_favorite: cmd.is_favorite,
            sort_order: cmd.sort_order,
        }
    }
}

/// Migrates a 1.0.0 record through every schema to a domain command.
pub fn slash_command_v1_to_domain(c: SlashCommandV1) -> (r: SlashCommand)
    ensures
        r == spec_command_into_domain(spec_v1_to_latest(c)),
{
    c.migrate().migrate().migrate().migrate().migrate().into_domain()
}

/// Storing a domain command and loading it back gives the same command.
pub proof fn lemma_command_round_trip(c: SlashCommand)
    ensures
        spec_command_into_domain(spec_command_from_domain(c)) == c,
{
}

/// Loading a latest-schema record and storing it again gives the same record.
pub proof fn lemma_record_round_trip(d: SlashCommandV1_5)
    ensures
        spec_command_from_domain(spec_command_into_domain(d)) == d,
{
}

/// A command first stored under schema 1.0.0 is offered in system prompts
/// exactly when it is not a task command, and is never a favorite.
pub proof fn lemma_v1_prompt_inclusion(c: SlashCommandV1)
    ensures
        spec_command_into_domain(spec_v1_to_latest(c)).include_in_system_prompt
            <==> c.command_type != CommandType::Task,
        !spec_command_into_domain(spec_v1_to_latest(c)).is_favorite,
{
}

/// A stored slash command record of any schema.
pub enum SlashCommandRecord {
    V1(SlashCommandV1),
    V1_1(SlashCommandV1_1),
    V1_2(SlashCommandV1_2),
    V1_3(SlashCommandV1_3),
    V1_4(SlashCommandV1_4),
    V1_5(SlashCommandV1_5),
}

/// A slash command record brought to schema 1.5: fields a schema lacks take
/// their defaults, and a record from before 1.4 is included in the system
/// prompt unless it is a task command.
pub open spec fn spec_slash_command_latest(rec: SlashCommandRecord) -> SlashCommandV1_5 {
    match rec {
        SlashCommandRecord::V1(d) => SlashCommandV1_5 {
            name: d.name,
            icon: d.icon,
            description: d.description,
            command_type: d.command_type,
            content: d.content,
            working_dir: d.working_dir,
            args_description: None,
            task_blueprint: None,
            action_config: None,
            include_in_system_prompt: d.command_type != CommandType::Task,
            is_favorite: false,
            sort_order: None,
        },
        SlashCommandRecord::V1_1(d) => SlashCommandV1_5 {
            name: d.name,
            icon: d.icon,
            description: d.description,
            command_type: d.command_type,
            content: d.content,
            working_dir: d.working_dir,
            args_description: d.args_description,
            task_blueprint: None,
            action_config: None,
            include_in_system_prompt: d.command_type != CommandType::Task,
            is_favorite: false,
            sort_order: None,
        },
        SlashCommandRecord::V1_2(d) => SlashCommandV1_5 {
            name: d.name,
            icon: d.icon,
            description: d.description,
            command_type: d.command_type,
            content: d.content,
            working_dir: d.working_dir,
            args_description: d.args_description,
            task_blueprint: d.task_blueprint,
            action_config: None,
            include_in_system_prompt: d.command_type != CommandType::Task,
            is_favorite: false,
            sort_order: None,
        },
        SlashCommandRecord::V1_3(d) => SlashCommandV1_5 {
            name: d.name,
            icon: d.icon,
            description: d.description,
            command_type: d.command_type,
            content: d.content,
            working_dir: d.working_dir,
            args_description: d.args_description,
            task_blueprint: d.task_blueprint,
            action_config: d.action_config,
            include_in_system_prompt: d.command_type != CommandType::Task,
            is_favorite: false,
            sort_order: None,
        },
        SlashCommandRecord::V1_4(d) => SlashCommandV1_5 {
            name: d.name,
            icon: d.icon,
            description: d.description,
            command_type: d.command_type,
            content: d.content,
            working_dir: d.working_dir,
            args_description: d.args_description,
            task_blueprint: d.task_blueprint,
            action_config: d.action_config,
            include_in_system_prompt: d.include_in_system_prompt,
            is_favorite: false,
            sort_order: None,
        },
        SlashCommandRecord::V1_5(d) => d,
    }
}

/// Migrates a stored slash command of any schema, step by step, to schema 1.5.
pub fn migrate_slash_command_to_latest(rec: SlashCommandRecord) -> (r: SlashCommandV1_5)
    ensures
        r == spec_slash_command_latest(rec),
{
    match rec {
        SlashCommandRecord::V1(d) => d.migrate().migrate().migrate().migrate().migrate(),
        SlashCommandRecord::V1_1(d) => d.migrate().migrate().migrate().migrate(),
        SlashCommandRecord::V1_2(d) => d.migrate().migrate().migrate(),
        SlashCommandRecord::V1_3(d) => d.migrate().migrate(),
        SlashCommandRecord::V1_4(d) => d.migrate(),
        SlashCommandRecord::V1_5(d) => d,
    }
}

/// Reading a slash command record keeps every field in the field of the same
/// name, and so does storing one.
pub proof fn lemma_command_fields_kept(a: SlashCommandV1_5, b: SlashCommand)
    ensures
        spec_command_into_domain(a).name == a.name,
        spec_command_into_domain(a).icon == a.icon,
        spec_command_into_domain(a).description == a.description,
        spec_command_into_domain(a).command_type == a.command_type,
        spec_command_into_domain(a).content == a.content,
        spec_command_into_domain(a).working_dir == a.working_dir,
        spec_command_into_domain(a).args_description == a.args_description,
        spec_command_into_domain(a).task_blueprint == a.task_blueprint,
        spec_command_into_domain(a).action_config == a.action_config,
        spec_command_into_domain(a).include_in_system_prompt == a.include_in_system_prompt,
        spec_command_into_domain(a).is_favorite == a.is_favorite,
        spec_command_into_domain(a).sort_order == a.sort_order,
        spec_command_from_domain(b).name == b.name,
        spec_command_from_domain(b).icon == b.icon,
        spec_command_from_domain(b).description == b.description,
        spec_command_from_domain(b).command_type == b.command_type,
        spec_command_from_domain(b).content == b.content,
        spec_command_from_domain(b).working_dir == b.working_dir,
        spec_command_from_domain(b).args_description == b.args_description,
        spec_command_from_domain(b).task_blueprint == b.task_blueprint,
        spec_command_from_domain(b).action_config == b.action_config,
        spec_command_from_domain(b).include_in_system_prompt == b.include_in_system_prompt,
        spec_command_from_domain(b).is_favorite == b.is_favorite,
        spec_command_from_domain(b).sort_order == b.sort_order,
{
}

/// Migrating a slash command record of any schema keeps its name, icon,
/// description, type, content and working directory, and every later field
/// from the schema that has it; a command from before 1.4 is included in the
/// system prompt exactly when it is not a task command, and no migrated
/// command is a favorite or has a sort order unless its record says so.
pub proof fn lemma_slash_command_migration_keeps(rec: SlashCommandRecord)
    ensures
        ({
            let r = spec_slash_command_latest(rec);
            match rec {
                SlashCommandRecord::V1(d) => r.name == d.name && r.icon == d.icon && r.description == d.description
                    && r.command_type == d.command_type && r.content == d.content && r.working_dir == d.working_dir
                    && r.args_description is None && r.task_blueprint is None && r.action_config is None
                    && r.include_in_system_prompt == (d.command_type != CommandType::Task)
                    && !r.is_favorite && r.sort_order is None,
                SlashCommandRecord::V1_1(d) => r.name == d.name && r.icon == d.icon && r.description == d.description
                    && r.command_type == d.command_type && r.content == d.content && r.working_dir == d.working_dir
                    && r.args_description == d.args_description && r.task_blueprint is None && r.action_config is None
                    && r.include_in_system_prompt == (d.command_type != CommandType::Task)
                    && !r.is_favorite && r.sort_order is None,
                SlashCommandRecord::V1_2(d) => r.name == d.name && r.icon == d.icon && r.description == d.description
                    && r.command_type == d.command_type && r.content == d.content && r.working_dir == d.working_dir
                    && r.args_description == d.args_description && r.task_blueprint == d.task_blueprint
                    && r.action_config is None
                    && r.include_in_system_prompt == (d.command_type != CommandType::Task)
                    && !r.is_favorite && r.sort_order is None,
                SlashCommandRecord::V1_3(d) => r.name == d.name && r.icon == d.icon && r.description == d.description
                    && r.command_type == d.command_type && r.content == d.content && r.working_dir == d.working_dir
                    && r.args_description == d.args_description && r.task_blueprint == d.task_blueprint
                    && r.action_config == d.action_config
                    && r.include_in_system_prompt == (d.command_type != CommandType::Task)
                    && !r.is_favorite && r.sort_order is None,
                SlashCommandRecord::V1_4(d) => r.name == d.name && r.icon == d.icon && r.description == d.description
                    && r.command_type == d.command_type && r.content == d.content && r.working_dir == d.working_dir
                    && r.args_description == d.args_description && r.task_blueprint == d.task_blueprint
                    && r.action_config == d.action_config && r.include_in_system_prompt == d.include_in_system_prompt
                    && !r.is_favorite && r.sort_order is None,
                SlashCommandRecord::V1_5(d) => r == d,
            }
        }),
{
}

} // verus!
