use todoist_sdk::error::SdkError;
use todoist_sdk::types::nonzero::NonZeroU16;
use todoist_sdk::{
    collect_write_errors, resource_types_to_json, APIClient, ResourceType, SyncKey, SyncResponse,
    SyncWriteError, SyncWriteErrorExtra, SyncWriteResponse,
};

fn write_error(tag: &str) -> SyncWriteError {
    SyncWriteError {
        error_tag: String::from(tag),
        error_code: 20,
        error: String::from("Invalid argument value"),
        http_code: NonZeroU16::new(400).expect("400 is a non-zero u16"),
        error_extra: SyncWriteErrorExtra {
            argument: Some(String::from("file_url")),
            explanation: Some(String::from("file_url contains disallowed URL")),
            retry_after: None,
            workspace_id: None,
            max_count: None,
            event_id: None,
            project_id: None,
            section_id: None,
        },
    }
}

#[test]
fn sync_key_defaults_to_full_sync() {
    assert_eq!(SyncKey::default().key(), "*");
    assert_eq!(SyncKey::from("abc").key(), "abc");
    assert_eq!(SyncKey::from(String::from("abc")), SyncKey::from("abc"));
}

#[test]
fn resource_types_are_a_json_array() {
    assert_eq!(resource_types_to_json(&vec![]), "[]");
    assert_eq!(resource_types_to_json(&vec![ResourceType::All]), r#"["all"]"#);
    assert_eq!(
        resource_types_to_json(&vec![ResourceType::Items, ResourceType::Projects]),
        r#"["items","projects"]"#
    );
}

#[test]
fn sync_form_carries_key_and_types() {
    let client = APIClient::new(String::from("secret"));
    let form = client.sync_form(&vec![ResourceType::Items]);
    assert_eq!(
        form,
        vec![
            (String::from("sync_token"), String::from("*")),
            (String::from("resource_types"), String::from(r#"["items"]"#)),
        ]
    );
    let client = APIClient::new_with_sync_key(String::from("secret"), String::from("k1"));
    assert_eq!(client.sync_form(&vec![])[0].1, "k1");
    assert_eq!(client.api_key(), "secret");
}

#[test]
fn finishing_a_sync_moves_the_sync_key() {
    let mut client = APIClient::new(String::from("secret"));
    let resp = SyncResponse::new(Some(vec![]), None, true, String::from("next"));
    let back = client.finish_sync(resp.clone());
    assert_eq!(back, resp);
    assert_eq!(client.sync_key.key(), "next");
    assert_eq!(client.sync_form(&vec![ResourceType::All])[0].1, "next");
}

#[test]
fn finishing_a_write_collects_errors_in_order() {
    let mut client = APIClient::new(String::from("secret"));
    let resp = SyncWriteResponse::new(
        vec![
            (String::from("a"), Err(write_error("FIRST"))),
            (String::from("b"), Ok(String::from("ok"))),
            (String::from("c"), Err(write_error("SECOND"))),
        ],
        None,
        None,
    )
    .expect("the commands are distinct");
    let out = client.finish_send(resp);
    assert_eq!(out.errors, vec![write_error("FIRST"), write_error("SECOND")]);
    assert_eq!(out.temp_id_mapping, None);
    assert_eq!(client.sync_key.key(), "*");

    let resp = SyncWriteResponse::new(
        vec![(String::from("a"), Ok(String::from("ok")))],
        Some(String::from("after")),
        None,
    )
    .expect("one command");
    let out = client.finish_send(resp);
    assert!(out.errors.is_empty());
    assert_eq!(client.sync_key.key(), "after");
}

#[test]
fn a_command_listed_twice_is_refused() {
    let twice = vec![
        (String::from("a"), Ok(String::from("ok"))),
        (String::from("a"), Err(write_error("FIRST"))),
    ];
    assert!(SyncWriteResponse::new(twice, None, None).is_none());
    assert!(SyncWriteResponse::new(vec![], None, None).is_some());
}

fn write_answer(token: Option<&str>) -> SyncWriteResponse {
    SyncWriteResponse::new(
        vec![(String::from("a"), Ok(String::from("ok")))],
        token.map(String::from),
        None,
    )
    .expect("one command")
}

#[test]
fn each_sync_carries_the_latest_token() {
    let mut client = APIClient::new(String::from("secret"));
    client.finish_send(write_answer(None));
    assert_eq!(client.sync_form(&vec![])[0].1, "*");
    client.finish_sync(SyncResponse::new(None, None, true, String::from("t1")));
    client.finish_send(write_answer(None));
    assert_eq!(client.sync_form(&vec![])[0].1, "t1");
    client.finish_send(write_answer(Some("t2")));
    client.finish_send(write_answer(None));
    assert_eq!(client.sync_form(&vec![])[0].1, "t2");
    client.finish_sync(SyncResponse::new(None, None, false, String::from("t3")));
    assert_eq!(client.sync_form(&vec![])[0].1, "t3");

    let mut client = APIClient::new_with_sync_key(String::from("secret"), String::from("s"));
    client.finish_send(write_answer(None));
    assert_eq!(client.sync_form(&vec![])[0].1, "s");
}

#[test]
fn a_failed_command_error_is_collected() {
    let expected = write_error("INVALID_ARGUMENT_VALUE");
    let statuses = vec![(
        String::from("bec5b356-3cc1-462a-9887-fe145e3e1ebf"),
        Err(expected.clone()),
    )];
    assert_eq!(collect_write_errors(statuses), vec![expected]);
}

#[test]
fn http_failures_are_classified_by_status() {
    let m = || String::from("m");
    assert!(matches!(SdkError::from_http_status(None, m()), SdkError::NetworkError(_)));
    assert!(matches!(SdkError::from_http_status(Some(401), m()), SdkError::AuthenticationError(_)));
    assert!(matches!(SdkError::from_http_status(Some(403), m()), SdkError::AuthorizationError(_)));
    assert!(matches!(SdkError::from_http_status(Some(404), m()), SdkError::NotFound(_)));
    assert!(matches!(SdkError::from_http_status(Some(429), m()), SdkError::RateLimited(_)));
    assert!(matches!(SdkError::from_http_status(Some(400), m()), SdkError::ValidationError(_)));
    assert!(matches!(SdkError::from_http_status(Some(422), m()), SdkError::ValidationError(_)));
    assert!(matches!(
        SdkError::from_http_status(Some(503), m()),
        SdkError::ServerError { status: 503, .. }
    ));
    assert!(matches!(SdkError::from_http_status(Some(600), m()), SdkError::Generic(_)));
    assert!(matches!(SdkError::from_http_status(Some(302), m()), SdkError::Generic(_)));
}
