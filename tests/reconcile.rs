use zabbixbot::channel::{is_token_lower, is_token_name, patch_token_params, plan_channel_update, Channel, Param};
use zabbixbot::recipient::{contains_address, desired_address, plan_recipient_update, ContactAddress, Recipient};
use zabbixbot::rule::{plan_rule, ALERT_BODY, ALERT_SUBJECT};
use zabbixbot::setup::{wants_legacy_login, Next, Phase, Reply, Request, Setup, SetupConfig, SetupError};
use zabbixbot::transport::{CallError, RpcFault};

fn param(name: &str, value: &str) -> Param {
    Param { name: Some(name.to_string()), value: Some(value.to_string()) }
}

fn addr(channel: &str, address: &str) -> ContactAddress {
    desired_address(&channel.to_string(), &address.to_string())
}

fn config(token: Option<&str>) -> SetupConfig {
    SetupConfig {
        admin_user: "Admin".to_string(),
        admin_password: "pw".to_string(),
        channel_name: "Telegram".to_string(),
        bot_token: token.map(|t| t.to_string()),
        recipient_alias: "Admin".to_string(),
        destination: "123".to_string(),
        rule_name: "Send Telegram alerts".to_string(),
    }
}

fn rpc_error(message: &str, data: Option<&str>) -> CallError {
    CallError::Rpc(RpcFault { code: -32602, message: message.to_string(), data: data.map(|d| d.to_string()) })
}

#[test]
fn token_parameter_is_patched_in_place() {
    let params = vec![param("Token", "OLD"), param("Foo", "Bar")];
    let (out, dirty) = patch_token_params(&params, &"NEW".to_string());
    assert!(dirty);
    assert_eq!(out, vec![param("Token", "NEW"), param("Foo", "Bar")]);
}

#[test]
fn token_parameter_already_set_is_left_alone() {
    let params = vec![param("Foo", "Bar"), param("BotToken", "NEW")];
    let (out, dirty) = patch_token_params(&params, &"NEW".to_string());
    assert!(!dirty);
    assert_eq!(out, params);
}

#[test]
fn token_parameter_without_value_gets_one() {
    let params = vec![Param { name: Some("token".to_string()), value: None }, Param { name: None, value: Some("x".to_string()) }];
    let (out, dirty) = patch_token_params(&params, &"S".to_string());
    assert!(dirty);
    assert_eq!(out[0], param("token", "S"));
    assert_eq!(out[1], params[1]);
}

#[test]
fn lower_case_token_names() {
    assert!(is_token_lower("token"));
    assert!(is_token_lower("bottoken"));
    assert!(!is_token_lower("Token"));
    assert!(!is_token_lower("bot_token"));
    assert!(!is_token_lower(""));
}

#[test]
fn token_names_ignore_case() {
    assert!(is_token_name(&"TOKEN".to_string()));
    assert!(is_token_name(&"BotToken".to_string()));
    assert!(!is_token_name(&"tokens".to_string()));
    assert!(!is_token_name(&"Foo".to_string()));
}

#[test]
fn channel_without_parameters_is_skipped() {
    let ch = Channel { id: "5".to_string(), name: "Telegram".to_string(), status: None, params: None };
    assert_eq!(plan_channel_update(&ch, &"NEW".to_string()), None);
    let ch = Channel { params: Some(vec![param("Token", "OLD")]), ..ch };
    let upd = plan_channel_update(&ch, &"NEW".to_string()).unwrap();
    assert_eq!(upd.channel_id, "5");
    assert_eq!(upd.params, vec![param("Token", "NEW")]);
}

#[test]
fn existing_address_needs_no_update() {
    let list = vec![addr("5", "123")];
    assert!(contains_address(&list, &addr("5", "123")));
    assert_eq!(plan_recipient_update(&"1".to_string(), &list, &addr("5", "123")), None);
}

#[test]
fn new_address_is_appended_after_existing_ones() {
    let list = vec![addr("5", "123")];
    let upd = plan_recipient_update(&"1".to_string(), &list, &addr("5", "456")).unwrap();
    assert_eq!(upd.recipient_id, "1");
    assert_eq!(upd.addresses, vec![addr("5", "123"), addr("5", "456")]);
}

#[test]
fn address_on_other_channel_is_a_different_entry() {
    let list = vec![addr("5", "123")];
    assert!(!contains_address(&list, &addr("6", "123")));
}

#[test]
fn desired_address_has_fixed_defaults() {
    let a = addr("5", "123");
    assert_eq!(a.active, "1");
    assert_eq!(a.severity, "63");
    assert_eq!(a.period, "1-7,00:00-24:00");
}

#[test]
fn rule_is_created_only_when_absent() {
    let rule = plan_rule(0, &"R".to_string(), &"5".to_string(), &"9".to_string()).unwrap();
    assert_eq!(rule.name, "R");
    assert_eq!(rule.event_source, 0);
    assert_eq!(rule.status, 0);
    assert_eq!(rule.operations.len(), 1);
    assert_eq!(rule.operations[0].channel_id, "5");
    assert_eq!(rule.operations[0].recipient_ids, vec!["9".to_string()]);
    assert_eq!(rule.operations[0].subject, ALERT_SUBJECT);
    assert_eq!(rule.operations[0].message, ALERT_BODY);
    assert_eq!(plan_rule(1, &"R".to_string(), &"5".to_string(), &"9".to_string()), None);
}

#[test]
fn legacy_login_only_on_schema_errors() {
    assert!(wants_legacy_login(&rpc_error("Invalid params.", None)));
    assert!(wants_legacy_login(&rpc_error("Error", Some("Invalid parameter \"/\": unexpected parameter \"username\"."))));
    assert!(wants_legacy_login(&rpc_error("Invalid parameter \"/\": unexpected parameter \"user\".", None)));
    assert!(!wants_legacy_login(&rpc_error("Login name or password is incorrect.", None)));
    assert!(!wants_legacy_login(&CallError::Protocol));
    assert!(!wants_legacy_login(&CallError::Http { status: 500, body: "Invalid params".to_string() }));
}

#[test]
fn login_falls_back_to_old_field_names() {
    let (mut s, first) = Setup::start(config(None), "http://z/api".to_string());
    assert_eq!(first, Next::Call(Request::Login { legacy: false, user: "Admin".to_string(), password: "pw".to_string() }));
    let next = s.on_reply(Err(rpc_error("Invalid params.", Some("unexpected parameter \"username\""))));
    assert_eq!(next, Next::Call(Request::Login { legacy: true, user: "Admin".to_string(), password: "pw".to_string() }));
    assert_eq!(s.phase, Phase::LoginLegacy);
    assert_eq!(s.session.token, None);
    let next = s.on_reply(Ok(Reply::Token("T".to_string())));
    assert_eq!(next, Next::Call(Request::ListChannels { name: "Telegram".to_string() }));
    assert_eq!(s.session.token, Some("T".to_string()));
}

#[test]
fn other_login_failures_are_not_retried() {
    let (mut s, _) = Setup::start(config(None), "http://z/api".to_string());
    let err = rpc_error("Login name or password is incorrect.", None);
    assert_eq!(s.on_reply(Err(err.clone())), Next::Failed(SetupError::Call(err)));
    assert_eq!(s.phase, Phase::Failed);
    let (mut s, _) = Setup::start(config(None), "http://z/api".to_string());
    let _ = s.on_reply(Err(rpc_error("Invalid params.", None)));
    let err = rpc_error("Invalid params.", None);
    assert_eq!(s.on_reply(Err(err.clone())), Next::Failed(SetupError::Call(err)));
    assert_eq!(s.session.token, None);
    assert_eq!(s.phase, Phase::Failed);
}

fn telegram(params: Vec<Param>) -> Channel {
    Channel { id: "5".to_string(), name: "Telegram".to_string(), status: Some("0".to_string()), params: Some(params) }
}

fn admin(addresses: Vec<ContactAddress>) -> Recipient {
    Recipient { id: Some("1".to_string()), alias: Some("Admin".to_string()), addresses }
}

/// Drives one run against a remote state and returns the writes it asked for,
/// applying each to the state.
fn run(params: &mut Vec<Param>, addresses: &mut Vec<ContactAddress>, rules: &mut usize) -> Vec<Request> {
    let (mut s, mut next) = Setup::start(config(Some("NEW")), "http://z/api".to_string());
    let mut writes = Vec::new();
    loop {
        let req = match next {
            Next::Call(r) => r,
            Next::Finished => break,
            Next::Failed(e) => panic!("run failed: {:?}", e),
        };
        let reply = match &req {
            Request::Login { .. } => Reply::Token("T".to_string()),
            Request::ListChannels { .. } => Reply::Channels(vec![telegram(params.clone())]),
            Request::UpdateChannel(u) => {
                *params = u.params.clone();
                Reply::Ack
            }
            Request::ListRecipients { .. } => Reply::Recipients(vec![admin(addresses.clone())]),
            Request::UpdateRecipient(u) => {
                *addresses = u.addresses.clone();
                Reply::Ack
            }
            Request::ListRules { .. } => Reply::Rules(*rules),
            Request::CreateRule(_) => {
                *rules += 1;
                Reply::Ack
            }
        };
        if !matches!(req, Request::Login { .. } | Request::ListChannels { .. } | Request::ListRecipients { .. } | Request::ListRules { .. }) {
            writes.push(req);
        }
        next = s.on_reply(Ok(reply));
    }
    assert_eq!(s.phase, Phase::Done);
    writes
}

#[test]
fn second_run_changes_nothing() {
    let mut params = vec![param("Token", "OLD"), param("Foo", "Bar")];
    let mut addresses = vec![addr("5", "999")];
    let mut rules = 0usize;
    let first = run(&mut params, &mut addresses, &mut rules);
    assert_eq!(first.len(), 3);
    let after_first = (params.clone(), addresses.clone(), rules);
    assert_eq!(params, vec![param("Token", "NEW"), param("Foo", "Bar")]);
    assert_eq!(addresses, vec![addr("5", "999"), addr("5", "123")]);
    assert_eq!(rules, 1);
    let second = run(&mut params, &mut addresses, &mut rules);
    assert!(second.is_empty());
    assert_eq!((params, addresses, rules), after_first);
}

#[test]
fn missing_resources_end_the_run() {
    let (mut s, _) = Setup::start(config(None), "u".to_string());
    s.on_reply(Ok(Reply::Token("T".to_string())));
    assert_eq!(s.on_reply(Ok(Reply::Channels(vec![]))), Next::Failed(SetupError::ChannelNotFound));

    let (mut s, _) = Setup::start(config(None), "u".to_string());
    s.on_reply(Ok(Reply::Token("T".to_string())));
    let next = s.on_reply(Ok(Reply::Channels(vec![telegram(vec![param("Token", "OLD")])])));
    assert_eq!(next, Next::Call(Request::ListRecipients { alias: "Admin".to_string() }));
    assert_eq!(s.on_reply(Ok(Reply::Recipients(vec![]))), Next::Failed(SetupError::RecipientNotFound));

    let (mut s, _) = Setup::start(config(None), "u".to_string());
    s.on_reply(Ok(Reply::Token("T".to_string())));
    s.on_reply(Ok(Reply::Channels(vec![telegram(vec![])])));
    let nameless = Recipient { id: None, alias: None, addresses: vec![] };
    assert_eq!(s.on_reply(Ok(Reply::Recipients(vec![nameless]))), Next::Failed(SetupError::RecipientIdMissing));
}

#[test]
fn failures_after_login_propagate_unchanged() {
    let (mut s, _) = Setup::start(config(None), "u".to_string());
    s.on_reply(Ok(Reply::Token("T".to_string())));
    let err = CallError::Http { status: 502, body: "bad gateway".to_string() };
    assert_eq!(s.on_reply(Err(err.clone())), Next::Failed(SetupError::Call(err)));
    assert_eq!(s.on_reply(Ok(Reply::Ack)), Next::Failed(SetupError::UnexpectedReply));
}

#[test]
fn mismatched_reply_is_refused() {
    let (mut s, _) = Setup::start(config(None), "u".to_string());
    assert_eq!(s.on_reply(Ok(Reply::Ack)), Next::Failed(SetupError::UnexpectedReply));
}

#[test]
fn request_methods() {
    assert_eq!(Request::ListRules { name: String::new() }.method(), "action.get");
    assert_eq!(Request::Login { legacy: true, user: String::new(), password: String::new() }.method(), "user.login");
}
