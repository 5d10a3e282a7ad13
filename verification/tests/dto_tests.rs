use namefix_bridge::dto::{Profile, ServiceStatus, UndoResult};
use namefix_bridge::json::{
    flag_member, optional_flag_member, optional_text_member, signed_member, text_list,
    text_list_member, text_member,
};
use namefix_bridge::error::BridgeError;
use serde_json::Value;

fn doc(text: &str) -> Value {
    serde_json::from_str(text).unwrap()
}

#[test]
fn status_from_a_full_object() {
    let value = doc(r#"{"running":true,"directories":["/a","/b/c"],"dryRun":false,"launchOnLogin":true}"#);
    assert_eq!(
        ServiceStatus::from_value(&value),
        Ok(ServiceStatus {
            running: true,
            directories: vec!["/a".to_string(), "/b/c".to_string()],
            dry_run: false,
            launch_on_login: true,
        })
    );
}

#[test]
fn status_ignores_members_it_does_not_name() {
    let value = doc(r#"{"running":false,"directories":[],"dryRun":true,"launchOnLogin":false,"extra":[1]}"#);
    assert_eq!(ServiceStatus::from_value(&value), Ok(ServiceStatus::unknown()));
}

#[test]
fn status_with_a_missing_member_is_refused() {
    for text in [
        r#"{"directories":[],"dryRun":true,"launchOnLogin":false}"#,
        r#"{"running":false,"dryRun":true,"launchOnLogin":false}"#,
        r#"{"running":false,"directories":[],"launchOnLogin":false}"#,
        r#"{"running":false,"directories":[],"dryRun":true}"#,
        r#"{"running":false,"directories":[],"dry_run":true,"launchOnLogin":false}"#,
    ] {
        assert_eq!(ServiceStatus::from_value(&doc(text)), Err(BridgeError::Deserialization), "{}", text);
    }
}

#[test]
fn status_with_a_member_of_another_type_is_refused() {
    for text in [
        r#"{"running":1,"directories":[],"dryRun":true,"launchOnLogin":false}"#,
        r#"{"running":false,"directories":"/a","dryRun":true,"launchOnLogin":false}"#,
        r#"{"running":false,"directories":["/a",2],"dryRun":true,"launchOnLogin":false}"#,
        r#"{"running":false,"directories":[],"dryRun":"yes","launchOnLogin":false}"#,
        r#"{"running":false,"directories":[],"dryRun":true,"launchOnLogin":null}"#,
    ] {
        assert_eq!(ServiceStatus::from_value(&doc(text)), Err(BridgeError::Deserialization), "{}", text);
    }
}

#[test]
fn status_from_what_is_no_object_is_refused() {
    for text in ["null", "true", "3", r#""status""#, "[]", r#"[false,[],true,false]"#] {
        assert_eq!(ServiceStatus::from_value(&doc(text)), Err(BridgeError::Deserialization), "{}", text);
    }
}

#[test]
fn status_parse_reads_a_text() {
    assert_eq!(
        ServiceStatus::parse(r#"{"running":true,"directories":["x"],"dryRun":true,"launchOnLogin":false}"#),
        Some(ServiceStatus {
            running: true,
            directories: vec!["x".to_string()],
            dry_run: true,
            launch_on_login: false,
        })
    );
    assert_eq!(ServiceStatus::parse("{"), None);
    assert_eq!(ServiceStatus::parse(r#"{"running":true}"#), None);
}

#[test]
fn unknown_status_is_paused_and_dry() {
    assert_eq!(
        ServiceStatus::unknown(),
        ServiceStatus { running: false, directories: vec![], dry_run: true, launch_on_login: false }
    );
}

#[test]
fn undo_result_with_and_without_reason() {
    assert_eq!(
        UndoResult::from_value(&doc(r#"{"ok":true}"#)),
        Ok(UndoResult { ok: true, reason: None })
    );
    assert_eq!(
        UndoResult::from_value(&doc(r#"{"ok":false,"reason":null}"#)),
        Ok(UndoResult { ok: false, reason: None })
    );
    assert_eq!(
        UndoResult::from_value(&doc(r#"{"ok":false,"reason":"nothing to undo"}"#)),
        Ok(UndoResult { ok: false, reason: Some("nothing to undo".to_string()) })
    );
}

#[test]
fn undo_result_of_another_shape_is_refused() {
    for text in [r#"{"reason":"x"}"#, r#"{"ok":"true"}"#, r#"{"ok":true,"reason":5}"#, "[true,null]", "null"] {
        assert_eq!(UndoResult::from_value(&doc(text)), Err(BridgeError::Deserialization), "{}", text);
    }
}

#[test]
fn profile_from_a_full_object() {
    let value = doc(
        r#"{"id":"shots","name":"Screenshots","enabled":true,"pattern":"Screen*","isRegex":false,
            "template":"<date>","prefix":"shot","priority":-3,"action":"rename"}"#,
    );
    assert_eq!(
        Profile::from_value(&value),
        Ok(Profile {
            id: "shots".to_string(),
            name: "Screenshots".to_string(),
            enabled: true,
            pattern: "Screen*".to_string(),
            is_regex: Some(false),
            template: "<date>".to_string(),
            prefix: "shot".to_string(),
            priority: -3,
            action: Some("rename".to_string()),
        })
    );
}

#[test]
fn profile_without_its_optional_members() {
    let value = doc(
        r#"{"id":"plain","name":"n","enabled":false,"pattern":"","template":"t","prefix":"","priority":9223372036854775807}"#,
    );
    assert_eq!(
        Profile::from_value(&value),
        Ok(Profile {
            id: "plain".to_string(),
            name: "n".to_string(),
            enabled: false,
            pattern: "".to_string(),
            is_regex: None,
            template: "t".to_string(),
            prefix: "".to_string(),
            priority: i64::MAX,
            action: None,
        })
    );
}

#[test]
fn profile_of_another_shape_is_refused() {
    for text in [
        r#"{"name":"n","enabled":false,"pattern":"","template":"t","prefix":"","priority":1}"#,
        r#"{"id":"rule","name":"n","enabled":false,"pattern":"","template":"t","prefix":"","priority":1.5}"#,
        r#"{"id":"rule","name":"n","enabled":false,"pattern":"","template":"t","prefix":"","priority":9223372036854775808}"#,
        r#"{"id":"rule","name":"n","enabled":false,"pattern":"","isRegex":"no","template":"t","prefix":"","priority":1}"#,
        r#"{"id":"rule","name":"n","enabled":false,"pattern":"","template":"t","prefix":"","priority":1,"action":false}"#,
        r#"{"id":7,"name":"n","enabled":false,"pattern":"","template":"t","prefix":"","priority":1}"#,
    ] {
        assert_eq!(Profile::from_value(&doc(text)), Err(BridgeError::Deserialization), "{}", text);
    }
}

#[test]
fn members_are_read_by_kind() {
    let value = doc(r#"{"flag":true,"text":"t","number":-4,"big":18446744073709551615,"none":null,"list":["a","b"],"mixed":["a",1]}"#);
    assert_eq!(flag_member(&value, "flag"), Some(true));
    assert_eq!(flag_member(&value, "text"), None);
    assert_eq!(flag_member(&value, "absent"), None);
    assert_eq!(text_member(&value, "text"), Some("t".to_string()));
    assert_eq!(text_member(&value, "flag"), None);
    assert_eq!(signed_member(&value, "number"), Some(-4));
    assert_eq!(signed_member(&value, "big"), None);
    assert_eq!(signed_member(&value, "text"), None);
    assert_eq!(optional_text_member(&value, "absent"), Some(None));
    assert_eq!(optional_text_member(&value, "none"), Some(None));
    assert_eq!(optional_text_member(&value, "text"), Some(Some("t".to_string())));
    assert_eq!(optional_text_member(&value, "flag"), None);
    assert_eq!(optional_flag_member(&value, "absent"), Some(None));
    assert_eq!(optional_flag_member(&value, "none"), Some(None));
    assert_eq!(optional_flag_member(&value, "flag"), Some(Some(true)));
    assert_eq!(optional_flag_member(&value, "text"), None);
    assert_eq!(text_list_member(&value, "list"), Some(vec!["a".to_string(), "b".to_string()]));
    assert_eq!(text_list_member(&value, "mixed"), None);
    assert_eq!(text_list_member(&value, "absent"), None);
    assert_eq!(flag_member(&doc("[true]"), "0"), None);
}

#[test]
fn text_list_reads_arrays_of_strings_only() {
    assert_eq!(text_list(&doc("[]")), Some(vec![]));
    assert_eq!(text_list(&doc(r#"["x"]"#)), Some(vec!["x".to_string()]));
    assert_eq!(text_list(&doc(r#"["x",null]"#)), None);
    assert_eq!(text_list(&doc(r#"{"0":"x"}"#)), None);
    assert_eq!(text_list(&doc(r#""x""#)), None);
}
