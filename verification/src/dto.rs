//! The values that the worker's replies carry, and the check that a reply
//! has the shape of one of them.
//!
//! Each is a JSON object with named members. Members that the shape does not
//! name are ignored.

use vstd::prelude::*;
use crate::error::BridgeError;
use crate::error::BridgeErrorView;
use crate::json::Json;
use crate::json::flag_member;
use crate::json::json_of;
use crate::json::optional_flag_member;
use crate::json::optional_text_member;
use crate::json::parse_value;
use crate::json::parsed_json;
use crate::json::signed_member;
use crate::json::text_list_member;
use crate::json::text_member;
use crate::json::texts_of;

verus! {

/// What the worker is doing: whether it watches, which directories, and two
/// of its settings. On the wire `dry_run` is `dryRun` and `launch_on_login`
/// is `launchOnLogin`.
#[derive(Debug, Clone, PartialEq, Eq)]
pub struct ServiceStatus {
    pub running: bool,
    pub directories: Vec<String>,
    pub dry_run: bool,
    pub launch_on_login: bool,
}

/// What a [`ServiceStatus`] holds.
pub struct ServiceStatusView {
    pub running: bool,
    pub directories: Seq<Seq<char>>,
    pub dry_run: bool,
    pub launch_on_login: bool,
}

impl View for ServiceStatus {
    type V = ServiceStatusView;

    open spec fn view(&self) -> ServiceStatusView {
        ServiceStatusView {
            running: self.running,
            directories: texts_of(self.directories@),
            dry_run: self.dry_run,
            launch_on_login: self.launch_on_login,
        }
    }
}

impl ServiceStatusView {
    /// The status that a document spells: an object whose `running`,
    /// `dryRun` and `launchOnLogin` are booleans and whose `directories` is
    /// an array of strings. `None` for every other document.
    pub open spec fn of(doc: Json) -> Option<ServiceStatusView> {
        match (
            doc.flag_member("running"@),
            doc.text_list_member("directories"@),
            doc.flag_member("dryRun"@),
            doc.flag_member("launchOnLogin"@),
        ) {
            (Some(running), Some(directories), Some(dry_run), Some(launch_on_login)) => Some(
                ServiceStatusView { running, directories, dry_run, launch_on_login },
            ),
            _ => None,
        }
    }

    /// The status that is assumed while none is known: not running, no
    /// directory, dry run on, not launched on login.
    pub open spec fn unknown() -> ServiceStatusView {
        ServiceStatusView {
            running: false,
            directories: Seq::empty(),
            dry_run: true,
            launch_on_login: false,
        }
    }
}

impl ServiceStatus {
    /// The status that `value` spells, or `Deserialization` where it spells
    /// none.
    pub fn from_value(value: &serde_json::Value) -> (status: Result<ServiceStatus, BridgeError>)
        ensures
            match status {
                Ok(s) => ServiceStatusView::of(json_of(*value)) == Some(s@),
                Err(e) => ServiceStatusView::of(json_of(*value)) is None && e@
                    == BridgeErrorView::Deserialization,
            },
    {
        let running = flag_member(value, "running");
        let directories = text_list_member(value, "directories");
        let dry_run = flag_member(value, "dryRun");
        let launch_on_login = flag_member(value, "launchOnLogin");
        match (running, directories, dry_run, launch_on_login) {
            (Some(running), Some(directories), Some(dry_run), Some(launch_on_login)) => Ok(
                ServiceStatus { running, directories, dry_run, launch_on_login },
            ),
            _ => Err(BridgeError::Deserialization),
        }
    }

    /// The status that a text spells: `None` where the text is no JSON or
    /// the document is no status.
    pub fn parse(text: &str) -> (status: Option<ServiceStatus>)
        ensures
            match status {
                Some(s) => parsed_json(text@) is Ok && ServiceStatusView::of(
                    parsed_json(text@)->Ok_0,
                ) == Some(s@),
                None => parsed_json(text@) is Err || ServiceStatusView::of(
                    parsed_json(text@)->Ok_0,
                ) is None,
            },
    {
        match parse_value(text) {
            Ok(value) => match ServiceStatus::from_value(&value) {
                Ok(status) => Some(status),
                Err(_) => None,
            },
            Err(_) => None,
        }
    }

    /// The status that is assumed while none is known.
    pub fn unknown() -> (status: ServiceStatus)
        ensures
            status@ == ServiceStatusView::unknown(),
    {
        let status = ServiceStatus {
            running: false,
            directories: Vec::new(),
            dry_run: true,
            launch_on_login: false,
        };
        assert(texts_of(status.directories@) =~= Seq::empty());
        status
    }
}

/// The worker's answer to an undo: whether it undid something, and if not,
/// perhaps why.
#[derive(Debug, Clone, PartialEq, Eq)]
pub struct UndoResult {
    pub ok: bool,
    pub reason: Option<String>,
}

/// What an [`UndoResult`] holds.
pub struct UndoResultView {
    pub ok: bool,
    pub reason: Option<Seq<char>>,
}

impl View for UndoResult {
    type V = UndoResultView;

    open spec fn view(&self) -> UndoResultView {
        UndoResultView {
            ok: self.ok,
            reason: match self.reason {
                Some(s) => Some(s@),
                None => None,
            },
        }
    }
}

impl UndoResultView {
    /// The answer that a document spells: an object whose `ok` is a boolean
    /// and whose `reason` is a string, `null` or left out. `None` for every
    /// other document.
    pub open spec fn of(doc: Json) -> Option<UndoResultView> {
        match (doc.flag_member("ok"@), doc.optional_text_member("reason"@)) {
            (Some(ok), Some(reason)) => Some(UndoResultView { ok, reason }),
            _ => None,
        }
    }
}

impl UndoResult {
    /// The answer that `value` spells, or `Deserialization` where it spells
    /// none.
    pub fn from_value(value: &serde_json::Value) -> (result: Result<UndoResult, BridgeError>)
        ensures
            match result {
                Ok(r) => UndoResultView::of(json_of(*value)) == Some(r@),
                Err(e) => UndoResultView::of(json_of(*value)) is None && e@
                    == BridgeErrorView::Deserialization,
            },
    {
        let ok = flag_member(value, "ok");
        let reason = optional_text_member(value, "reason");
        match (ok, reason) {
            (Some(ok), Some(reason)) => Ok(UndoResult { ok, reason }),
            _ => Err(BridgeError::Deserialization),
        }
    }
}

/// One rule of the worker: which files it applies to and what it does with
/// them. On the wire `is_regex` is `isRegex`.
#[derive(Debug, Clone, PartialEq, Eq)]
pub struct Profile {
    pub id: String,
    pub name: String,
    pub enabled: bool,
    pub pattern: String,
    pub is_regex: Option<bool>,
    pub template: String,
    pub prefix: String,
    pub priority: i64,
    pub action: Option<String>,
}

/// What a [`Profile`] holds.
pub struct ProfileView {
    pub id: Seq<char>,
    pub name: Seq<char>,
    pub enabled: bool,
    pub pattern: Seq<char>,
    pub is_regex: Option<bool>,
    pub template: Seq<char>,
    pub prefix: Seq<char>,
    pub priority: i64,
    pub action: Option<Seq<char>>,
}

impl View for Profile {
    type V = ProfileView;

    open spec fn view(&self) -> ProfileView {
        ProfileView {
            id: self.id@,
            name: self.name@,
            enabled: self.enabled,
            pattern: self.pattern@,
            is_regex: self.is_regex,
            template: self.template@,
            prefix: self.prefix@,
            priority: self.priority,
            action: match self.action {
                Some(s) => Some(s@),
                None => None,
            },
        }
    }
}

impl ProfileView {
    /// The profile that a document spells: an object whose `id`, `name`,
    /// `pattern`, `template` and `prefix` are strings, whose `enabled` is a
    /// boolean, whose `priority` is an integer, whose `isRegex` is a
    /// boolean, `null` or left out and whose `action` is a string, `null` or
    /// left out. `None` for every other document.
    pub open spec fn of(doc: Json) -> Option<ProfileView> {
        match (
            (doc.text_member("id"@), doc.text_member("name"@), doc.flag_member("enabled"@)),
            (doc.text_member("pattern"@), doc.optional_flag_member("isRegex"@)),
            (doc.text_member("template"@), doc.text_member("prefix"@)),
            (doc.signed_member("priority"@), doc.optional_text_member("action"@)),
        ) {
            (
                (Some(id), Some(name), Some(enabled)),
                (Some(pattern), Some(is_regex)),
                (Some(template), Some(prefix)),
                (Some(priority), Some(action)),
            ) => Some(
                ProfileView {
                    id,
                    name,
                    enabled,
                    pattern,
                    is_regex,
                    template,
                    prefix,
                    priority,
                    action,
                },
            ),
            _ => None,
        }
    }
}

impl Profile {
    /// The profile that `value` spells, or `Deserialization` where it spells
    /// none.
    pub fn from_value(value: &serde_json::Value) -> (profile: Result<Profile, BridgeError>)
        ensures
            match profile {
                Ok(p) => ProfileView::of(json_of(*value)) == Some(p@),
                Err(e) => ProfileView::of(json_of(*value)) is None && e@
                    == BridgeErrorView::Deserialization,
            },
    {
        let id = text_member(value, "id");
        let name = text_member(value, "name");
        let enabled = flag_member(value, "enabled");
        let pattern = text_member(value, "pattern");
        let is_regex = optional_flag_member(value, "isRegex");
        let template = text_member(value, "template");
        let prefix = text_member(value, "prefix");
        let priority = signed_member(value, "priority");
        let action = optional_text_member(value, "action");
        match (
            (id, name, enabled),
            (pattern, is_regex),
            (template, prefix),
            (priority, action),
        ) {
            (
                (Some(id), Some(name), Some(enabled)),
                (Some(pattern), Some(is_regex)),
                (Some(template), Some(prefix)),
                (Some(priority), Some(action)),
            ) => Ok(
                Profile { id, name, enabled, pattern, is_regex, template, prefix, priority, action },
            ),
            _ => Err(BridgeError::Deserialization),
        }
    }
}

} // verus!
