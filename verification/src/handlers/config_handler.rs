//! The configuration endpoints: what they answer, and how an update request
//! changes a snapshot of the configuration.

use crate::config::mutation::{apply_mutation, parse_mutation, ConfigMutation};
use crate::config::server_config::{ServerConfig, ServerConfigView};
use crate::response::{text_response, typed_text_response, ResponseDescriptor, ResponseView};
use crate::text::concat_str;
use vstd::prelude::*;

verus! {

/// A request to set one configuration field, all three parts given as text.
#[derive(Debug, Clone, PartialEq, Eq)]
pub struct ConfigUpdateRequest {
    pub section: String,
    pub key: String,
    pub value: String,
}

/// The configuration after an update request, or the message that says why
/// the request is refused.
pub open spec fn updated_config(
    config: ServerConfigView,
    section: Seq<char>,
    key: Seq<char>,
    value: Seq<char>,
) -> Result<ServerConfigView, Seq<char>> {
    match parse_mutation(section, key, value) {
        Ok(mutation) => Ok(apply_mutation(config, mutation)),
        Err(message) => Err(message),
    }
}

/// Sets the field of `config` that `section` and `key` name to `value`. A
/// request that names no field, or whose value the field does not take, is
/// refused with a message and leaves `config` as it was.
pub fn update_config_value(
    config: &mut ServerConfig,
    section: &str,
    key: &str,
    value: &str,
) -> (result: Result<(), String>)
    ensures
        match updated_config(old(config)@, section@, key@, value@) {
            Ok(updated) => result is Ok && final(config)@ == updated,
            Err(message) => final(config)@ == old(config)@ && (result matches Err(text)
                && text@ == message),
        },
{
    match ConfigMutation::parse(section, key, value) {
        Ok(mutation) => {
            config.apply(mutation);
            Ok(())
        },
        Err(message) => Err(message),
    }
}

/// The answer to a request for the configuration, given its JSON text or
/// nothing where it could not be written as JSON.
pub open spec fn get_config_response(json: Option<Seq<char>>) -> ResponseView {
    match json {
        Some(text) => typed_text_response(200, "application/json"@, text),
        None => text_response(500, "chyba pri serializaci konfigurace"@),
    }
}

/// Answers a request for the configuration. `json` is the snapshot written
/// as JSON, or `None` where that failed.
pub fn get_config(json: Option<String>) -> (response: ResponseDescriptor)
    ensures
        response@ == get_config_response(
            match json {
                Some(text) => Some(text@),
                None => None,
            },
        ),
{
    match json {
        Some(text) => ResponseDescriptor::typed_text(200, "application/json", text.as_str()),
        None => ResponseDescriptor::text(500, "chyba pri serializaci konfigurace"),
    }
}

/// The answer to an update request that was refused with `message`.
pub open spec fn update_refused_response(message: Seq<char>) -> ResponseView {
    text_response(400, "chyba pri aktualizaci konfigurace: "@ + message)
}

/// First half of an update: applies `request` to `snapshot`. The result is
/// the configuration to persist, or the answer to a request that is refused.
pub fn update_config(snapshot: ServerConfig, request: &ConfigUpdateRequest) -> (result: Result<
    ServerConfig,
    ResponseDescriptor,
>)
    ensures
        match updated_config(snapshot@, request.section@, request.key@, request.value@) {
            Ok(updated) => result matches Ok(config) && config@ == updated,
            Err(message) => result matches Err(response) && response@ == update_refused_response(
                message,
            ),
        },
{
    let mut config = snapshot;
    match update_config_value(
        &mut config,
        request.section.as_str(),
        request.key.as_str(),
        request.value.as_str(),
    ) {
        Ok(()) => Ok(config),
        Err(message) => {
            let body = concat_str("chyba pri aktualizaci konfigurace: ", message.as_str());
            Err(ResponseDescriptor::text(400, body.as_str()))
        },
    }
}

/// The answer to an update whose configuration was persisted, or could not
/// be persisted for the reason given.
pub open spec fn update_saved_response(saved: Result<(), Seq<char>>) -> ResponseView {
    match saved {
        Ok(_) => text_response(200, "config byl uspesne aktualizovan"@),
        Err(reason) => text_response(500, "chyba pri ukladu konfigurace: "@ + reason),
    }
}

/// Second half of an update: the answer once the updated configuration has
/// been persisted, or could not be.
pub fn update_config_saved(saved: &Result<(), String>) -> (response: ResponseDescriptor)
    ensures
        response@ == update_saved_response(
            match *saved {
                Ok(_) => Ok(()),
                Err(reason) => Err(reason@),
            },
        ),
{
    match saved {
        Ok(_) => ResponseDescriptor::text(200, "config byl uspesne aktualizovan"),
        Err(reason) => {
            let body = concat_str("chyba pri ukladu konfigurace: ", reason.as_str());
            ResponseDescriptor::text(500, body.as_str())
        },
    }
}

/// The answer to a reload request, given how the reload ended.
pub open spec fn reload_response(reloaded: Result<(), Seq<char>>) -> ResponseView {
    match reloaded {
        Ok(_) => text_response(200, "uspesne nacteni konfigurace"@),
        Err(reason) => text_response(500, "chyba pri nacteni konfigurace: "@ + reason),
    }
}

/// Answers a reload request, given how the reload ended.
pub fn reload_config(reloaded: &Result<(), String>) -> (response: ResponseDescriptor)
    ensures
        response@ == reload_response(
            match *reloaded {
                Ok(_) => Ok(()),
                Err(reason) => Err(reason@),
            },
        ),
{
    match reloaded {
        Ok(_) => ResponseDescriptor::text(200, "uspesne nacteni konfigurace"),
        Err(reason) => {
            let body = concat_str("chyba pri nacteni konfigurace: ", reason.as_str());
            ResponseDescriptor::text(500, body.as_str())
        },
    }
}

} // verus!
