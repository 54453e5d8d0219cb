use vstd::prelude::*;

verus! {

/// Event source of a rule driven by triggers.
pub const EVENT_SOURCE_TRIGGERS: u8 = 0;

/// Rule status: enabled.
pub const STATUS_ENABLED: u8 = 0;

/// Operation type: send a message.
pub const OPERATION_SEND_MESSAGE: u8 = 0;

/// Subject of the alert message; the placeholders are resolved remotely.
pub const ALERT_SUBJECT: &'static str = "{HOST.NAME} | Problem: {EVENT.NAME}";

/// Body of the alert message; the placeholders are resolved remotely.
pub const ALERT_BODY: &'static str = "Problem started at {EVENT.TIME} on {EVENT.DATE}\nProblem name: {EVENT.NAME}\nHost: {HOST.NAME}\nSeverity: {TRIGGER.SEVERITY}\nOriginal problem ID: #{EVENT.ID}\n{TRIGGER.URL}";

/// One operation of an alerting rule: a message sent through a channel to
/// a list of recipients.
#[derive(Debug, Clone, PartialEq, Eq)]
pub struct Operation {
    pub operation_type: u8,
    pub use_default_message: bool,
    pub channel_id: String,
    pub subject: String,
    pub message: String,
    pub recipient_ids: Vec<String>,
}

/// The payload that creates an alerting rule.
#[derive(Debug, Clone, PartialEq, Eq)]
pub struct RuleCreate {
    pub name: String,
    pub event_source: u8,
    pub status: u8,
    pub operations: Vec<Operation>,
}

/// What a created rule holds: the name, trigger events, enabled, and one
/// operation that sends the fixed message through `channel_id` to
/// `recipient_id` alone.
pub open spec fn is_alert_rule(r: RuleCreate, name: String, channel_id: String, recipient_id: String) -> bool {
    &&& r.name == name
    &&& r.event_source == EVENT_SOURCE_TRIGGERS
    &&& r.status == STATUS_ENABLED
    &&& r.operations@.len() == 1
    &&& r.operations@[0].operation_type == OPERATION_SEND_MESSAGE
    &&& !r.operations@[0].use_default_message
    &&& r.operations@[0].channel_id == channel_id
    &&& r.operations@[0].subject@ == ALERT_SUBJECT@
    &&& r.operations@[0].message@ == ALERT_BODY@
    &&& r.operations@[0].recipient_ids@ == seq![recipient_id]
}

/// How many rules of the name exist after reconciliation: one is created
/// where none was, otherwise nothing changes.
pub open spec fn rules_after(existing: nat) -> nat {
    if existing == 0 {
        1
    } else {
        existing
    }
}

/// The rule to create given how many rules of that name exist, or `None`
/// where one exists already. Existing rules are not compared with the
/// template.
pub fn plan_rule(existing: usize, name: &String, channel_id: &String, recipient_id: &String) -> (r:
    Option<RuleCreate>)
    ensures
        existing > 0 ==> r is None,
        existing == 0 ==> r is Some && is_alert_rule(r->Some_0, *name, *channel_id, *recipient_id),
{
    if existing > 0 {
        return None;
    }
    let op = Operation {
        operation_type: OPERATION_SEND_MESSAGE,
        use_default_message: false,
        channel_id: channel_id.clone(),
        subject: String::from_str(ALERT_SUBJECT),
        message: String::from_str(ALERT_BODY),
        recipient_ids: vec![recipient_id.clone()],
    };
    let operations = vec![op];
    assert(operations@[0].recipient_ids@ =~= seq![*recipient_id]);
    Some(
        RuleCreate {
            name: name.clone(),
            event_source: EVENT_SOURCE_TRIGGERS,
            status: STATUS_ENABLED,
            operations,
        },
    )
}

/// Reconciling twice creates at most one rule: after the first pass a rule
/// of the name exists, so the second pass creates none.
pub proof fn lemma_rules_idempotent(existing: nat)
    ensures
        rules_after(existing) > 0,
        rules_after(rules_after(existing)) == rules_after(existing),
        rules_after(existing) <= existing + 1,
{
}

} // verus!
