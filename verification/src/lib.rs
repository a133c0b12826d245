//! ORCS domain logic: slash commands, user profiles, application state,
//! workspaces, personas, sessions, versioned persistence records and their
//! migrations, path resolution and search-output parsing.

pub mod text;
pub mod slash_command;
pub mod user;
pub mod state;
pub mod app_state_dto;
pub mod workspace;
pub mod paths;
pub mod task;
pub mod config;
pub mod user_profile_dto;
pub mod config_root_dto;
pub mod uuid_text;
pub mod version;
pub mod persona;
pub mod session;
pub mod uploaded_file_dto;
pub mod workspace_dto;
pub mod legacy_dto;

pub mod migration;
pub mod dialogue;
pub mod dialogue_preset_dto;
pub mod session_dto;
pub mod search;
pub mod config_service;
pub mod task_execution;
pub mod persona_dto;
pub mod slash_command_dto;
pub mod quick_action;
pub mod secret;
pub mod session_record;
pub mod task_dto;
