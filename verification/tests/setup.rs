//! Configuring devices through the API and the builder.

use vhost_user_fs::api::{
    checked_id, parse_put_fs, ParsedRequest, PutRequestsMetrics, VmmAction,
};
use vhost_user_fs::builder::FsBuilder;
use vhost_user_fs::config::FsDeviceConfig;
use vhost_user_fs::error::{
    Fault, FsConfigError, RequestError, StatusCode, VhostUserError, VhostUserFsError,
};
use vhost_user_fs::request::Request;

fn fault(reason: &str) -> Fault {
    Fault {
        reason: reason.to_string(),
        os_error: None,
    }
}

/// Decodes a configuration: `fs_id` and `socket` are strings and must be
/// there, `tag`, `num_request_queues` and `dax_window_size_mib` may be there,
/// and nothing else may.
fn decode(body: &str) -> Result<FsDeviceConfig, Fault> {
    let value: serde_json::Value =
        serde_json::from_str(body).map_err(|err| fault(&err.to_string()))?;
    let object = value.as_object().ok_or(fault("not an object"))?;
    let text = |value: &serde_json::Value| {
        value
            .as_str()
            .map(str::to_string)
            .ok_or(fault("not a string"))
    };
    let number = |value: &serde_json::Value| value.as_u64().ok_or(fault("not a number"));
    let mut config = FsDeviceConfig::default();
    let mut seen = 0;
    for (key, value) in object {
        match key.as_str() {
            "fs_id" => {
                config.fs_id = text(value)?;
                seen += 1;
            }
            "socket" => {
                config.socket = text(value)?;
                seen += 1;
            }
            "tag" => config.tag = Some(text(value)?),
            "num_request_queues" => {
                config.num_request_queues =
                    Some(u16::try_from(number(value)?).map_err(|_| fault("too large"))?);
            }
            "dax_window_size_mib" => config.dax_window_size_mib = Some(number(value)?),
            _ => return Err(fault("unknown field")),
        }
    }
    if seen < 2 {
        return Err(fault("missing field"));
    }
    Ok(config)
}

fn put(body: &str, id: Option<&str>) -> Result<ParsedRequest, RequestError> {
    let mut metrics = PutRequestsMetrics {
        fs_count: 0,
        fs_fails: 0,
    };
    parse_put_fs(&mut metrics, decode(body), id)
}

#[test]
fn test_parse_put_fs_request() {
    put("invalid_payload", None).unwrap_err();
    put("invalid_payload", Some("id")).unwrap_err();

    // PUT with invalid fields.
    let body = r#"{
            "fs_id": "bar",
            "invalid_field": false
        }"#;
    put(body, Some("bar")).unwrap_err();

    // PUT with missing socket field.
    let body = r#"{
            "fs_id": "bar"
        }"#;
    put(body, Some("bar")).unwrap_err();

    // PUT with missing all optional fields.
    let body = r#"{
            "fs_id": "1000",
            "socket": "dummy"
        }"#;
    put(body, Some("1000")).unwrap();

    // PUT with invalid types on fields. Adding an fs_id as number instead of string.
    let body = r#"{
            "fs_id": 1000,
            "socket": "dummy"
        }"#;
    put(body, Some("1000")).unwrap_err();

    // PUT with the complete configuration.
    let body = r#"{
            "fs_id": "1000",
            "socket": "dummy",
            "tag": "my_tag",
            "num_request_queues": 4
        }"#;
    put(body, Some("1000")).unwrap();

    // The id from the path must match the id from the body.
    let body = r#"{
            "fs_id": "foo",
            "socket": "dummy"
        }"#;
    put(body, Some("bar")).unwrap_err();

    let expected_config = FsDeviceConfig {
        fs_id: "foo".to_string(),
        socket: "dummy".to_string(),
        tag: None,
        num_request_queues: None,
        dax_window_size_mib: None,
    };
    assert_eq!(
        put(body, Some("foo")).unwrap().sync,
        VmmAction::InsertFsDevice(expected_config)
    );
}

#[test]
fn test_fs_config_deserialization() {
    // Full configuration.
    let json = r#"{
            "fs_id": "rootfs",
            "socket": "/tmp/backend.sock",
            "tag": "my_tag",
            "num_request_queues": 4
        }"#;
    let VmmAction::InsertFsDevice(config) = put(json, Some("rootfs")).unwrap().sync;
    assert_eq!(config.fs_id, "rootfs");
    assert_eq!(config.socket, "/tmp/backend.sock");
    assert_eq!(config.tag, Some("my_tag".to_string()));
    assert_eq!(config.num_request_queues, Some(4));

    // Optional fields can be omitted.
    let json = r#"{
            "fs_id": "rootfs",
            "socket": "/tmp/backend.sock"
        }"#;
    let VmmAction::InsertFsDevice(config) = put(json, Some("rootfs")).unwrap().sync;
    assert_eq!(config.tag, None);
    assert_eq!(config.num_request_queues, None);

    // Unknown fields are rejected.
    let json = r#"{
            "fs_id": "rootfs",
            "socket": "/tmp/backend.sock",
            "unknown_field": true
        }"#;
    assert_eq!(
        put(json, Some("rootfs")),
        Err(RequestError::SerdeJson(fault("unknown field")))
    );
}

/// Inserts a device; a socket under /nonexistent cannot be connected to.
fn insert(
    builder: FsBuilder,
    fs_id: &str,
    socket: &str,
    tag: Option<&str>,
) -> (FsBuilder, Result<(), FsConfigError>) {
    let mut insertion = builder.insert(FsDeviceConfig {
        fs_id: fs_id.to_string(),
        socket: socket.to_string(),
        tag: tag.map(str::to_string),
        num_request_queues: None,
        dax_window_size_mib: None,
    });
    while let Some(request) = insertion.pending() {
        let reply = match request {
            Request::Connect { socket, .. } if socket.starts_with("/nonexistent") => {
                Err(fault("No such file or directory"))
            }
            _ => Ok(0),
        };
        insertion = insertion.complete(reply);
    }
    let (builder, replaced, result) = insertion.finish();
    // A failed insertion replaces nothing.
    assert!(replaced.is_none() || result.is_ok());
    (builder, result)
}

#[test]
fn test_fs_builder_insert_dead_socket() {
    // Inserting a device whose backend socket does not exist fails the
    // call cleanly, without adding the device to the list.
    let builder = FsBuilder::default();
    let (builder, result) = insert(builder, "rootfs", "/nonexistent/backend.sock", None);
    assert!(matches!(
        result.unwrap_err(),
        FsConfigError::CreateFsDevice(VhostUserFsError::VhostUser(_))
    ));
    assert!(builder.devices.is_empty());

    // A backend socket that no process is listening on fails the same way.
    let (builder, result) = insert(builder, "rootfs", "/nonexistent/dropped.sock", None);
    assert!(matches!(
        result.unwrap_err(),
        FsConfigError::CreateFsDevice(VhostUserFsError::VhostUser(_))
    ));
    assert!(builder.devices.is_empty());
}

#[test]
fn same_id_takes_the_same_place() {
    let builder = FsBuilder::default();
    let (builder, _) = insert(builder, "a", "s1", None);
    let (builder, _) = insert(builder, "b", "s2", None);
    let (builder, result) = insert(builder, "a", "s3", Some("t"));
    result.unwrap();
    assert_eq!(builder.get_index_of_fs_id("a"), Some(0));
    assert_eq!(builder.get_index_of_fs_id("b"), Some(1));
    assert_eq!(builder.get_index_of_fs_id("c"), None);
    let configs = builder.configs();
    assert_eq!(configs.len(), 2);
    assert_eq!(configs[0].socket, "s3");
    assert_eq!(configs[0].tag, Some("t".to_string()));
    assert_eq!(configs[1].tag, Some("b".to_string()));
    assert_eq!(configs[1].num_request_queues, Some(1));

    // A replacement that fails leaves the old device.
    let (builder, result) = insert(builder, "a", "/nonexistent/s4", None);
    assert_eq!(
        result,
        Err(FsConfigError::CreateFsDevice(VhostUserFsError::VhostUser(
            VhostUserError::Connect(fault("No such file or directory"))
        )))
    );
    assert_eq!(builder.configs()[0].socket, "s3");
}

#[test]
fn configs_are_one_per_id_in_first_order() {
    let mut builder = FsBuilder::default();
    for (fs_id, socket, tag) in [
        ("b", "s1", Some("t1")),
        ("a", "s2", None),
        ("b", "s3", None),
        ("c", "s4", Some("t4")),
        ("a", "s5", Some("t5")),
    ] {
        let (next, result) = insert(builder, fs_id, socket, tag);
        result.unwrap();
        builder = next;
    }
    let config = |fs_id: &str, socket: &str, tag: &str| FsDeviceConfig {
        fs_id: fs_id.to_string(),
        socket: socket.to_string(),
        tag: Some(tag.to_string()),
        num_request_queues: Some(1),
        dax_window_size_mib: None,
    };
    assert_eq!(
        builder.configs(),
        vec![
            config("b", "s3", "b"),
            config("a", "s5", "t5"),
            config("c", "s4", "t4"),
        ]
    );
}

#[test]
fn replaced_device_is_handed_back() {
    let (builder, _) = insert(FsBuilder::default(), "a", "s1", None);
    let mut insertion = builder.insert(FsDeviceConfig {
        fs_id: "a".to_string(),
        socket: "s2".to_string(),
        ..FsDeviceConfig::default()
    });
    while insertion.pending().is_some() {
        insertion = insertion.complete(Ok(0));
    }
    let (builder, replaced, result) = insertion.finish();
    result.unwrap();
    assert_eq!(replaced.unwrap().config().socket, "s1");
    assert_eq!(builder.configs()[0].socket, "s2");
}

#[test]
fn ids_are_alphanumeric_or_underscores() {
    assert_eq!(checked_id("a_1"), Ok("a_1"));
    assert_eq!(checked_id("\u{e9}"), Ok("\u{e9}"));
    assert_eq!(checked_id(""), Err(RequestError::EmptyID));
    assert_eq!(checked_id("a-1"), Err(RequestError::InvalidID));
    assert_eq!(checked_id("a b"), Err(RequestError::InvalidID));
}

#[test]
fn put_requests_are_counted() {
    let mut metrics = PutRequestsMetrics {
        fs_count: u64::MAX,
        fs_fails: 0,
    };
    let config = || {
        Ok(FsDeviceConfig {
            fs_id: "foo".to_string(),
            ..FsDeviceConfig::default()
        })
    };
    let mut put = |decoded, id| {
        let result = parse_put_fs(&mut metrics, decoded, id);
        (result, metrics.fs_count, metrics.fs_fails)
    };
    assert_eq!(put(config(), None), (Err(RequestError::EmptyID), 0, 1));
    // A malformed id is no failure of this counter.
    assert_eq!(put(config(), Some("")), (Err(RequestError::EmptyID), 1, 1));
    assert_eq!(put(config(), Some("/")), (Err(RequestError::InvalidID), 2, 1));
    assert_eq!(
        put(Err(fault("eof")), Some("foo")),
        (Err(RequestError::SerdeJson(fault("eof"))), 3, 2)
    );
    assert_eq!(
        put(config(), Some("bar")),
        (
            Err(RequestError::Generic(
                StatusCode::BadRequest,
                "The id from the path does not match the id from the body!".to_string()
            )),
            4,
            3
        )
    );
    let (result, count, fails) = put(config(), Some("foo"));
    assert!(result.is_ok());
    assert_eq!((count, fails), (5, 3));
}
