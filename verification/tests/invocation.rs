use command_bridge::args::{ArgField, ArgType, ArgValue, RawArgs};
use command_bridge::bridge::{
    browser_url, complete, dispatch, Dispatch, Outcome, Request, ResultValue,
};
use command_bridge::registry::{
    startup_registry, CommandId, CommandRegistry, DuplicateCommandError,
};

fn url_args(url: &str) -> RawArgs {
    RawArgs {
        fields: vec![ArgField {
            name: "url".to_string(),
            value: ArgValue::Str(url.to_string()),
        }],
    }
}

#[test]
fn resolve_returns_registered_command() {
    let reg = startup_registry();
    assert_eq!(reg.resolve("open_browser"), Some(CommandId::OpenBrowser));
}

#[test]
fn resolve_returns_none_for_unregistered_name() {
    let reg = startup_registry();
    assert_eq!(reg.resolve("close_browser"), None);
    assert_eq!(reg.resolve(""), None);
}

#[test]
fn duplicate_registration_fails_and_leaves_registry_unchanged() {
    let mut reg = CommandRegistry::new();
    assert_eq!(reg.register("open_browser".to_string(), CommandId::OpenBrowser), Ok(()));
    assert_eq!(
        reg.register("open_browser".to_string(), CommandId::OpenBrowser),
        Err(DuplicateCommandError)
    );
    assert_eq!(reg.resolve("open_browser"), Some(CommandId::OpenBrowser));
}

#[test]
fn unknown_command_settles_as_failure() {
    let reg = startup_registry();
    let req = Request {
        id: 3,
        name: "navigate".to_string(),
        args: url_args("https://example.com"),
    };
    match dispatch(&reg, req) {
        Dispatch::Done(resp) => {
            assert_eq!(resp.id, 3);
            assert!(matches!(resp.outcome, Outcome::Failure(m) if m == "unknown command"));
        }
        Dispatch::Execute(_) => panic!("an unknown command must not execute"),
    }
}

#[test]
fn schema_mismatch_settles_as_failure_without_executing() {
    let reg = startup_registry();
    let mut executions: u32 = 0;
    let payloads = vec![
        RawArgs { fields: vec![] },
        RawArgs {
            fields: vec![ArgField { name: "url".to_string(), value: ArgValue::Int(4) }],
        },
        RawArgs {
            fields: vec![ArgField { name: "url".to_string(), value: ArgValue::Bool(true) }],
        },
        RawArgs {
            fields: vec![ArgField {
                name: "uri".to_string(),
                value: ArgValue::Str("https://example.com".to_string()),
            }],
        },
    ];
    for (i, args) in payloads.into_iter().enumerate() {
        let req = Request { id: i as u64, name: "open_browser".to_string(), args };
        match dispatch(&reg, req) {
            Dispatch::Done(resp) => {
                assert_eq!(resp.id, i as u64);
                assert!(matches!(resp.outcome, Outcome::Failure(m) if m == "invalid arguments"));
            }
            Dispatch::Execute(_) => {
                executions += 1;
            }
        }
    }
    assert_eq!(executions, 0);
}

#[test]
fn valid_invocation_returns_success_unit() {
    let reg = startup_registry();
    let req = Request {
        id: 11,
        name: "open_browser".to_string(),
        args: url_args("https://example.com"),
    };
    match dispatch(&reg, req) {
        Dispatch::Execute(ex) => {
            assert_eq!(ex.id, 11);
            assert_eq!(ex.command, CommandId::OpenBrowser);
            assert_eq!(browser_url(&ex).as_deref(), Some("https://example.com"));
            let resp = complete(&ex, Ok(()));
            assert_eq!(resp.id, 11);
            assert!(matches!(resp.outcome, Outcome::Success(ResultValue::Unit)));
        }
        Dispatch::Done(_) => panic!("a valid invocation must reach its capability function"),
    }
}

#[test]
fn launch_error_is_reported_and_host_keeps_running() {
    let reg = startup_registry();
    let req = Request {
        id: 5,
        name: "open_browser".to_string(),
        args: url_args("https://example.com"),
    };
    let ex = match dispatch(&reg, req) {
        Dispatch::Execute(ex) => ex,
        Dispatch::Done(_) => panic!("a valid invocation must reach its capability function"),
    };
    let resp = complete(&ex, Err("no browser configured".to_string()));
    assert_eq!(resp.id, 5);
    assert!(matches!(resp.outcome, Outcome::Failure(m) if m == "no browser configured"));
    // The failed launch is an outcome, not a fault: the registry still serves.
    assert_eq!(reg.resolve("open_browser"), Some(CommandId::OpenBrowser));
}

#[test]
fn extra_fields_beyond_schema_are_ignored() {
    let reg = startup_registry();
    let args = RawArgs {
        fields: vec![
            ArgField {
                name: "url".to_string(),
                value: ArgValue::Str("https://example.com".to_string()),
            },
            ArgField { name: "focus".to_string(), value: ArgValue::Bool(true) },
        ],
    };
    let req = Request { id: 1, name: "open_browser".to_string(), args };
    assert!(matches!(dispatch(&reg, req), Dispatch::Execute(_)));
}

#[test]
fn lookup_finds_first_field_of_a_name() {
    let args = RawArgs {
        fields: vec![
            ArgField { name: "url".to_string(), value: ArgValue::Str("first".to_string()) },
            ArgField { name: "url".to_string(), value: ArgValue::Str("second".to_string()) },
        ],
    };
    assert!(matches!(args.lookup("url"), Some(ArgValue::Str(s)) if s.as_str() == "first"));
    assert!(args.lookup("href").is_none());
}

#[test]
fn value_type_names_each_variant() {
    assert_eq!(ArgValue::Str("a".to_string()).value_type(), ArgType::Str);
    assert_eq!(ArgValue::Int(-2).value_type(), ArgType::Int);
    assert_eq!(ArgValue::Bool(false).value_type(), ArgType::Bool);
}

#[test]
fn each_request_receives_its_own_outcome() {
    let reg = startup_registry();
    let requests = vec![
        Request {
            id: 101,
            name: "open_browser".to_string(),
            args: url_args("https://example.com/a"),
        },
        Request {
            id: 202,
            name: "open_browser".to_string(),
            args: url_args("https://example.com/b"),
        },
        Request { id: 303, name: "missing".to_string(), args: url_args("https://example.com/c") },
    ];
    let mut responses = Vec::new();
    for req in requests {
        let id = req.id;
        let resp = match dispatch(&reg, req) {
            Dispatch::Done(resp) => resp,
            Dispatch::Execute(ex) => complete(&ex, Ok(())),
        };
        assert_eq!(resp.id, id);
        responses.push(resp);
    }
    // Correlating by id, each caller finds exactly one response: its own.
    for &id in &[101u64, 202, 303] {
        assert_eq!(responses.iter().filter(|r| r.id == id).count(), 1);
    }
    assert!(matches!(&responses[0].outcome, Outcome::Success(ResultValue::Unit)));
    assert!(matches!(&responses[2].outcome, Outcome::Failure(m) if m == "unknown command"));
}
