//! The requests that the shell makes of the worker, each by its name, and
//! what their replies are read as.
//!
//! Each function takes the request on at the bridge: it gives the method and
//! builds the parameters, and hands back the line to write. The reply is
//! read by the function that belongs to it once the wait is over.

use vstd::prelude::*;
use crate::bridge::NodeBridge;
use crate::bridge::Ticket;
use crate::bridge::invoked;
use crate::dto::ServiceStatus;
use crate::dto::ServiceStatusView;
use crate::dto::UndoResult;
use crate::dto::UndoResultView;
use crate::error::BridgeError;
use crate::error::BridgeErrorView;
use crate::json::Json;
use crate::json::json_of;
use crate::json::text_list;
use crate::json::texts_of;
use crate::json::value_empty_object;
use crate::json::value_from_bool;
use crate::json::value_from_str;
use crate::json::value_null;
use crate::json::value_with_member;
use crate::reply::Reply;
use crate::reply::ReplyView;
use crate::reply::reply_view;

verus! {

/// The object with the one member `key`, a boolean.
pub open spec fn flag_object(key: Seq<char>, flag: bool) -> Json {
    Json::empty_object().with_member(key, Json::Bool(flag))
}

/// The object with the one member `key`, a string.
pub open spec fn text_object(key: Seq<char>, text: Seq<char>) -> Json {
    Json::empty_object().with_member(key, Json::Text(text))
}

/// The parameters of `toggleRunning`: the object with `desired` where a
/// state is asked for, and the empty object where the worker is to decide.
pub open spec fn toggle_params(desired: Option<bool>) -> Json {
    match desired {
        Some(flag) => flag_object("desired"@, flag),
        None => Json::empty_object(),
    }
}

/// The object with the one member `key`, a boolean.
pub fn flag_params(key: &str, flag: bool) -> (params: serde_json::Value)
    ensures
        json_of(params) == flag_object(key@, flag),
{
    value_with_member(value_empty_object(), key, value_from_bool(flag))
}

/// The object with the one member `key`, a string.
pub fn text_params(key: &str, text: &str) -> (params: serde_json::Value)
    ensures
        json_of(params) == text_object(key@, text@),
{
    value_with_member(value_empty_object(), key, value_from_str(text))
}

/// Asks for the worker's status: `getStatus`, with `null` for parameters.
pub fn get_status(bridge: &mut NodeBridge) -> (taken: Result<Ticket, BridgeError>)
    ensures
        invoked(old(bridge)@, final(bridge)@, taken, "getStatus"@, Json::Null),
{
    bridge.invoke("getStatus", value_null())
}

/// Asks the worker to start or stop watching: `toggleRunning`, with the
/// state that is asked for under `desired`, or with an empty object where
/// the worker is to switch to the other state.
pub fn toggle_running(bridge: &mut NodeBridge, desired: Option<bool>) -> (taken: Result<
    Ticket,
    BridgeError,
>)
    ensures
        invoked(old(bridge)@, final(bridge)@, taken, "toggleRunning"@, toggle_params(desired)),
{
    let params = match desired {
        Some(flag) => flag_params("desired", flag),
        None => value_empty_object(),
    };
    bridge.invoke("toggleRunning", params)
}

/// Asks for the watched directories: `listDirectories`, with `null` for
/// parameters.
pub fn list_directories(bridge: &mut NodeBridge) -> (taken: Result<Ticket, BridgeError>)
    ensures
        invoked(old(bridge)@, final(bridge)@, taken, "listDirectories"@, Json::Null),
{
    bridge.invoke("listDirectories", value_null())
}

/// Asks the worker to be launched on login or not: `setLaunchOnLogin`,
/// with the choice under `enabled`.
pub fn set_launch_on_login(bridge: &mut NodeBridge, enabled: bool) -> (taken: Result<
    Ticket,
    BridgeError,
>)
    ensures
        invoked(
            old(bridge)@,
            final(bridge)@,
            taken,
            "setLaunchOnLogin"@,
            flag_object("enabled"@, enabled),
        ),
{
    bridge.invoke("setLaunchOnLogin", flag_params("enabled", enabled))
}

/// Asks the worker to switch dry run on or off: `setDryRun`, with the
/// choice under `enabled`.
pub fn set_dry_run(bridge: &mut NodeBridge, enabled: bool) -> (taken: Result<Ticket, BridgeError>)
    ensures
        invoked(
            old(bridge)@,
            final(bridge)@,
            taken,
            "setDryRun"@,
            flag_object("enabled"@, enabled),
        ),
{
    bridge.invoke("setDryRun", flag_params("enabled", enabled))
}

/// Asks the worker to watch one more directory: `addWatchDir`, with the
/// path under `directory`.
pub fn add_watch_dir(bridge: &mut NodeBridge, directory: String) -> (taken: Result<
    Ticket,
    BridgeError,
>)
    ensures
        invoked(
            old(bridge)@,
            final(bridge)@,
            taken,
            "addWatchDir"@,
            text_object("directory"@, directory@),
        ),
{
    bridge.invoke("addWatchDir", text_params("directory", directory.as_str()))
}

/// Asks the worker to stop watching a directory: `removeWatchDir`, with
/// the path under `directory`.
pub fn remove_watch_dir(bridge: &mut NodeBridge, directory: String) -> (taken: Result<
    Ticket,
    BridgeError,
>)
    ensures
        invoked(
            old(bridge)@,
            final(bridge)@,
            taken,
            "removeWatchDir"@,
            text_object("directory"@, directory@),
        ),
{
    bridge.invoke("removeWatchDir", text_params("directory", directory.as_str()))
}

/// Asks the worker to undo its last rename: `undo`, with `null` for
/// parameters.
pub fn undo(bridge: &mut NodeBridge) -> (taken: Result<Ticket, BridgeError>)
    ensures
        invoked(old(bridge)@, final(bridge)@, taken, "undo"@, Json::Null),
{
    bridge.invoke("undo", value_null())
}

/// What the caller of a request that answers with a status is told: the
/// status that the result spells, `Deserialization` where it spells none,
/// and the error where the request failed.
pub open spec fn status_told(told: ReplyView) -> Result<ServiceStatusView, BridgeErrorView> {
    match told {
        Ok(result) => match ServiceStatusView::of(result) {
            Some(status) => Ok(status),
            None => Err(BridgeErrorView::Deserialization),
        },
        Err(error) => Err(error),
    }
}

/// What the caller of a request that answers with a list of directories is
/// told.
pub open spec fn directories_told(told: ReplyView) -> Result<Seq<Seq<char>>, BridgeErrorView> {
    match told {
        Ok(result) => match result.as_text_list() {
            Some(list) => Ok(list),
            None => Err(BridgeErrorView::Deserialization),
        },
        Err(error) => Err(error),
    }
}

/// What the caller of a request that answers with a boolean is told.
pub open spec fn flag_told(told: ReplyView) -> Result<bool, BridgeErrorView> {
    match told {
        Ok(result) => match result.as_flag() {
            Some(flag) => Ok(flag),
            None => Err(BridgeErrorView::Deserialization),
        },
        Err(error) => Err(error),
    }
}

/// What the caller of `undo` is told.
pub open spec fn undo_told(told: ReplyView) -> Result<UndoResultView, BridgeErrorView> {
    match told {
        Ok(result) => match UndoResultView::of(result) {
            Some(answer) => Ok(answer),
            None => Err(BridgeErrorView::Deserialization),
        },
        Err(error) => Err(error),
    }
}

/// Reads the end of `getStatus`, `toggleRunning` or `setDryRun`.
pub fn status_reply(told: Reply) -> (status: Result<ServiceStatus, BridgeError>)
    ensures
        match status {
            Ok(s) => status_told(reply_view(told)) == Ok::<ServiceStatusView, BridgeErrorView>(s@),
            Err(e) => status_told(reply_view(told)) == Err::<ServiceStatusView, BridgeErrorView>(
                e@,
            ),
        },
{
    match told {
        Ok(result) => ServiceStatus::from_value(&result),
        Err(error) => Err(error),
    }
}

/// Reads the end of `listDirectories`, `addWatchDir` or `removeWatchDir`.
pub fn directories_reply(told: Reply) -> (directories: Result<Vec<String>, BridgeError>)
    ensures
        match directories {
            Ok(list) => directories_told(reply_view(told)) == Ok::<
                Seq<Seq<char>>,
                BridgeErrorView,
            >(texts_of(list@)),
            Err(e) => directories_told(reply_view(told)) == Err::<Seq<Seq<char>>, BridgeErrorView>(
                e@,
            ),
        },
{
    match told {
        Ok(result) => match text_list(&result) {
            Some(list) => Ok(list),
            None => Err(BridgeError::Deserialization),
        },
        Err(error) => Err(error),
    }
}

/// Reads the end of `setLaunchOnLogin`.
pub fn flag_reply(told: Reply) -> (flag: Result<bool, BridgeError>)
    ensures
        match flag {
            Ok(b) => flag_told(reply_view(told)) == Ok::<bool, BridgeErrorView>(b),
            Err(e) => flag_told(reply_view(told)) == Err::<bool, BridgeErrorView>(e@),
        },
{
    match told {
        Ok(result) => match result.as_bool() {
            Some(flag) => Ok(flag),
            None => Err(BridgeError::Deserialization),
        },
        Err(error) => Err(error),
    }
}

/// Reads the end of `undo`.
pub fn undo_reply(told: Reply) -> (answer: Result<UndoResult, BridgeError>)
    ensures
        match answer {
            Ok(a) => undo_told(reply_view(told)) == Ok::<UndoResultView, BridgeErrorView>(a@),
            Err(e) => undo_told(reply_view(told)) == Err::<UndoResultView, BridgeErrorView>(e@),
        },
{
    match told {
        Ok(result) => UndoResult::from_value(&result),
        Err(error) => Err(error),
    }
}

} // verus!
