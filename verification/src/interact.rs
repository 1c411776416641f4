//! The payload of an application-command interaction.
use vstd::prelude::*;
use crate::json::Json;

verus! {

/// An interaction with an application command.
#[derive(Debug, PartialEq)]
pub struct Interact {
    pub interaction_type: u8,
    pub application_id: String,
    pub channel_id: String,
    pub session_id: String,
    pub data: InteractionData,
    pub nonce: String,
    pub analytics_location: String,
}

/// What an interaction invokes.
#[derive(Debug, PartialEq)]
pub struct InteractionData {
    pub version: String,
    pub id: String,
    pub name: String,
    pub command_type: u8,
    pub options: Vec<InteractionOption>,
    pub application_command: ApplicationCommand,
    pub attachments: Vec<Json>,
}

/// An option given to an interaction.
#[derive(Debug, PartialEq)]
pub struct InteractionOption {
    pub option_type: u8,
    pub name: String,
    pub value: Json,
}

/// An application command.
#[derive(Debug, PartialEq)]
pub struct ApplicationCommand {
    pub id: String,
    pub command_type: u8,
    pub application_id: String,
    pub version: String,
    pub name: String,
    pub description: String,
    pub options: Vec<CommandOption>,
    pub dm_permission: bool,
    pub integration_types: Vec<u8>,
    pub global_popularity_rank: u64,
    pub description_localized: String,
    pub name_localized: String,
}

/// An option of an application command.
#[derive(Debug, PartialEq)]
pub struct CommandOption {
    pub option_type: u8,
    pub name: String,
    pub description: String,
    pub required: bool,
    pub choices: Vec<CommandOptionChoice>,
    pub description_localized: String,
    pub name_localized: String,
}

/// A choice offered by a command option.
#[derive(Debug, PartialEq)]
pub struct CommandOptionChoice {
    pub name: String,
    pub value: String,
    pub name_localized: String,
}

} // verus!
