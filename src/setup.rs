use vstd::prelude::*;
use crate::channel::{Channel, ChannelUpdate, plan_channel_update, params_after, params_dirty};
use crate::recipient::{
    Recipient, RecipientUpdate, ContactAddress, desired_address, plan_recipient_update,
    has_entry, addresses_after, DEFAULT_ACTIVE, DEFAULT_SEVERITY, DEFAULT_PERIOD,
};
use crate::channel::{Param, lemma_params_idempotent};
use crate::recipient::lemma_addresses_idempotent;
use crate::rule::{RuleCreate, plan_rule, is_alert_rule, rules_after, lemma_rules_idempotent};
use crate::text::{contains_text, spec_contains};
use crate::transport::{CallError, Session};

verus! {

/// Phrase of an error text that marks a login refused for its parameter names.
pub const INVALID_PARAMS: &'static str = "Invalid params";

/// Phrase of an error text that marks a login field as unknown, as older
/// versions answer the newer field names.
pub const UNEXPECTED_PARAMETER: &'static str = "unexpected parameter";

/// Remote method names.
pub const LOGIN_METHOD: &'static str = "user.login";

pub const CHANNEL_LIST_METHOD: &'static str = "mediatype.get";

pub const CHANNEL_UPDATE_METHOD: &'static str = "mediatype.update";

pub const RECIPIENT_LIST_METHOD: &'static str = "user.get";

pub const RECIPIENT_UPDATE_METHOD: &'static str = "user.update";

pub const RULE_LIST_METHOD: &'static str = "action.get";

pub const RULE_CREATE_METHOD: &'static str = "action.create";

/// What one run needs to know, captured once before it starts.
#[derive(Debug, Clone, PartialEq, Eq)]
pub struct SetupConfig {
    pub admin_user: String,
    pub admin_password: String,
    pub channel_name: String,
    pub bot_token: Option<String>,
    pub recipient_alias: String,
    pub destination: String,
    pub rule_name: String,
}

/// A remote call that the run asks for next.
#[derive(Debug, Clone, PartialEq, Eq)]
pub enum Request {
    /// Session login; `legacy` selects the older field names.
    Login { legacy: bool, user: String, password: String },
    ListChannels { name: String },
    UpdateChannel(ChannelUpdate),
    ListRecipients { alias: String },
    UpdateRecipient(RecipientUpdate),
    ListRules { name: String },
    CreateRule(RuleCreate),
}

/// The decoded result of the call that was asked for.
#[derive(Debug, Clone, PartialEq, Eq)]
pub enum Reply {
    Token(String),
    Channels(Vec<Channel>),
    Recipients(Vec<Recipient>),
    /// How many rules of the requested name exist.
    Rules(usize),
    /// A write was accepted.
    Ack,
}

/// Why a run stopped.
#[derive(Debug, Clone, PartialEq, Eq)]
pub enum SetupError {
    Call(CallError),
    ChannelNotFound,
    RecipientNotFound,
    RecipientIdMissing,
    /// The reply does not answer the call that was asked for.
    UnexpectedReply,
}

/// What the driver of a run does next.
#[derive(Debug, Clone, PartialEq, Eq)]
pub enum Next {
    Call(Request),
    Finished,
    Failed(SetupError),
}

/// Which answer the run waits for.
#[derive(Debug, Clone, PartialEq, Eq)]
pub enum Phase {
    LoginNew,
    LoginLegacy,
    Channels,
    ChannelUpdate,
    Recipients,
    RecipientUpdate,
    Rules,
    RuleCreate,
    Done,
    Failed,
}

/// One reconciliation run: the login, then the channel, the recipient and
/// the rule, in that order; each step uses the identifiers of those before.
#[derive(Debug)]
pub struct Setup {
    pub config: SetupConfig,
    pub session: Session,
    pub phase: Phase,
    pub channel_id: Option<String>,
    pub recipient_id: Option<String>,
}

/// An error text that asks for the older login field names.
pub open spec fn mentions_schema(t: Seq<char>) -> bool {
    spec_contains(t, INVALID_PARAMS@) || spec_contains(t, UNEXPECTED_PARAMETER@)
}

/// A login failure that the older field names may cure: an error object
/// whose message or data mentions the parameter schema.
pub open spec fn is_schema_fault(e: CallError) -> bool {
    match e {
        CallError::Rpc(f) => mentions_schema(f.message@) || (f.data is Some && mentions_schema(
            f.data->Some_0@,
        )),
        _ => false,
    }
}

/// Whether a failed login should be tried again with the older field names.
pub fn wants_legacy_login(e: &CallError) -> (r: bool)
    ensures
        r == is_schema_fault(*e),
{
    match e {
        CallError::Rpc(f) => {
            if mentions_schema_text(&f.message) {
                return true;
            }
            match &f.data {
                Some(d) => mentions_schema_text(d),
                None => false,
            }
        },
        _ => false,
    }
}

fn mentions_schema_text(t: &String) -> (r: bool)
    ensures
        r == mentions_schema(t@),
{
    contains_text(t.as_str(), INVALID_PARAMS) || contains_text(t.as_str(), UNEXPECTED_PARAMETER)
}

pub open spec fn login_request(c: SetupConfig, legacy: bool) -> Request {
    Request::Login { legacy, user: c.admin_user, password: c.admin_password }
}

pub open spec fn recipients_request(c: SetupConfig) -> Request {
    Request::ListRecipients { alias: c.recipient_alias }
}

pub open spec fn rules_request(c: SetupConfig) -> Request {
    Request::ListRules { name: c.rule_name }
}

/// The contact address that the run attaches.
pub open spec fn is_desired_address(d: ContactAddress, c: SetupConfig, channel_id: String) -> bool {
    &&& d.channel_id == channel_id
    &&& d.address == c.destination
    &&& d.active@ == DEFAULT_ACTIVE@
    &&& d.severity@ == DEFAULT_SEVERITY@
    &&& d.period@ == DEFAULT_PERIOD@
}

impl Request {
    pub open spec fn spec_method(&self) -> Seq<char> {
        match self {
            Request::Login { .. } => LOGIN_METHOD@,
            Request::ListChannels { .. } => CHANNEL_LIST_METHOD@,
            Request::UpdateChannel(_) => CHANNEL_UPDATE_METHOD@,
            Request::ListRecipients { .. } => RECIPIENT_LIST_METHOD@,
            Request::UpdateRecipient(_) => RECIPIENT_UPDATE_METHOD@,
            Request::ListRules { .. } => RULE_LIST_METHOD@,
            Request::CreateRule(_) => RULE_CREATE_METHOD@,
        }
    }

    /// The remote method that carries this request.
    pub fn method(&self) -> (r: String)
        ensures
            r@ == self.spec_method(),
    {
        match self {
            Request::Login { .. } => String::from_str(LOGIN_METHOD),
            Request::ListChannels { .. } => String::from_str(CHANNEL_LIST_METHOD),
            Request::UpdateChannel(_) => String::from_str(CHANNEL_UPDATE_METHOD),
            Request::ListRecipients { .. } => String::from_str(RECIPIENT_LIST_METHOD),
            Request::UpdateRecipient(_) => String::from_str(RECIPIENT_UPDATE_METHOD),
            Request::ListRules { .. } => String::from_str(RULE_LIST_METHOD),
            Request::CreateRule(_) => String::from_str(RULE_CREATE_METHOD),
        }
    }
}

impl Setup {
    /// Which fields each phase relies on.
    pub open spec fn wf(&self) -> bool {
        &&& (self.phase is LoginNew || self.phase is LoginLegacy) ==> self.session.token is None
        &&& (self.phase is Channels || self.phase is ChannelUpdate || self.phase is Recipients
            || self.phase is RecipientUpdate || self.phase is Rules || self.phase is RuleCreate
            || self.phase is Done) ==> self.session.token is Some
        &&& (self.phase is ChannelUpdate || self.phase is Recipients || self.phase is RecipientUpdate
            || self.phase is Rules || self.phase is RuleCreate) ==> self.channel_id is Some
        &&& (self.phase is RecipientUpdate || self.phase is Rules || self.phase is RuleCreate)
            ==> self.recipient_id is Some
    }

    /// Starts a run against `url`: not logged in, asking for a login with
    /// the newer field names.
    pub fn start(config: SetupConfig, url: String) -> (r: (Setup, Next))
        ensures
            r.0.wf(),
            r.0.config == config,
            r.0.session.url == url,
            r.0.session.token is None,
            r.0.phase is LoginNew,
            r.1 == Next::Call(login_request(config, false)),
    {
        let req = Request::Login {
            legacy: false,
            user: config.admin_user.clone(),
            password: config.admin_password.clone(),
        };
        let s = Setup {
            config,
            session: Session::new(url),
            phase: Phase::LoginNew,
            channel_id: None,
            recipient_id: None,
        };
        (s, Next::Call(req))
    }

    fn fail(&mut self, e: SetupError) -> (r: Next)
        ensures
            final(self).config == old(self).config,
            final(self).session == old(self).session,
            final(self).channel_id == old(self).channel_id,
            final(self).recipient_id == old(self).recipient_id,
            final(self).phase is Failed,
            r == Next::Failed(e),
    {
        self.phase = Phase::Failed;
        Next::Failed(e)
    }

    fn ask_recipients(&mut self) -> (r: Next)
        ensures
            final(self).config == old(self).config,
            final(self).session == old(self).session,
            final(self).channel_id == old(self).channel_id,
            final(self).recipient_id == old(self).recipient_id,
            final(self).phase is Recipients,
            r == Next::Call(recipients_request(old(self).config)),
    {
        self.phase = Phase::Recipients;
        Next::Call(Request::ListRecipients { alias: self.config.recipient_alias.clone() })
    }

    fn ask_rules(&mut self) -> (r: Next)
        ensures
            final(self).config == old(self).config,
            final(self).session == old(self).session,
            final(self).channel_id == old(self).channel_id,
            final(self).recipient_id == old(self).recipient_id,
            final(self).phase is Rules,
            r == Next::Call(rules_request(old(self).config)),
    {
        self.phase = Phase::Rules;
        Next::Call(Request::ListRules { name: self.config.rule_name.clone() })
    }

    /// Takes the answer to the call asked for last and decides what comes
    /// next. A failed call ends the run with that error, except a first
    /// login refused for its parameter names, which is asked again with the
    /// older names and the same credentials.
    pub fn on_reply(&mut self, reply: Result<Reply, CallError>) -> (r: Next)
        requires
            old(self).wf(),
        ensures
            final(self).wf(),
            final(self).config == old(self).config,
            final(self).session.url == old(self).session.url,
            r is Failed <==> final(self).phase is Failed,
            r is Finished <==> final(self).phase is Done,
            // a failed step changes nothing but the phase
            r is Failed ==> final(self).session == old(self).session
                && final(self).channel_id == old(self).channel_id
                && final(self).recipient_id == old(self).recipient_id,
            // only a login sets the token, only the channel list the channel,
            // only the recipient list the recipient
            !(old(self).phase is LoginNew || old(self).phase is LoginLegacy) ==> final(self).session
                == old(self).session,
            !(old(self).phase is Channels) ==> final(self).channel_id == old(self).channel_id,
            !(old(self).phase is Recipients) ==> final(self).recipient_id == old(self).recipient_id,
            // login with the newer field names
            old(self).phase is LoginNew ==> match reply {
                Ok(Reply::Token(t)) => final(self).session.token == Some(t)
                    && final(self).phase is Channels
                    && r == Next::Call(Request::ListChannels { name: old(self).config.channel_name }),
                Err(e) => if is_schema_fault(e) {
                    final(self).phase is LoginLegacy && final(self).session == old(self).session
                        && r == Next::Call(login_request(old(self).config, true))
                } else {
                    r == Next::Failed(SetupError::Call(e))
                },
                _ => r == Next::Failed(SetupError::UnexpectedReply),
            },
            // login with the older field names
            old(self).phase is LoginLegacy ==> match reply {
                Ok(Reply::Token(t)) => final(self).session.token == Some(t)
                    && final(self).phase is Channels
                    && r == Next::Call(Request::ListChannels { name: old(self).config.channel_name }),
                Err(e) => r == Next::Failed(SetupError::Call(e)),
                _ => r == Next::Failed(SetupError::UnexpectedReply),
            },
            // the channel list
            old(self).phase is Channels ==> match reply {
                Ok(Reply::Channels(list)) => if list@.len() == 0 {
                    r == Next::Failed(SetupError::ChannelNotFound)
                } else {
                    let ch = list@[0];
                    &&& final(self).channel_id == Some(ch.id)
                    &&& match (old(self).config.bot_token, ch.params) {
                        (Some(secret), Some(ps)) => if params_dirty(ps@, secret) {
                            &&& final(self).phase is ChannelUpdate
                            &&& r is Call && r->Call_0 is UpdateChannel
                            &&& r->Call_0->UpdateChannel_0.channel_id == ch.id
                            &&& r->Call_0->UpdateChannel_0.params@ == params_after(ps@, secret)
                        } else {
                            final(self).phase is Recipients
                                && r == Next::Call(recipients_request(old(self).config))
                        },
                        _ => final(self).phase is Recipients && r == Next::Call(
                            recipients_request(old(self).config),
                        ),
                    }
                },
                Err(e) => r == Next::Failed(SetupError::Call(e)),
                _ => r == Next::Failed(SetupError::UnexpectedReply),
            },
            old(self).phase is ChannelUpdate ==> match reply {
                Ok(Reply::Ack) => final(self).phase is Recipients && r == Next::Call(
                    recipients_request(old(self).config),
                ),
                Err(e) => r == Next::Failed(SetupError::Call(e)),
                _ => r == Next::Failed(SetupError::UnexpectedReply),
            },
            // the recipient and its contact addresses
            old(self).phase is Recipients ==> match reply {
                Ok(Reply::Recipients(list)) => if list@.len() == 0 {
                    r == Next::Failed(SetupError::RecipientNotFound)
                } else if list@[0].id is None {
                    r == Next::Failed(SetupError::RecipientIdMissing)
                } else {
                    let u = list@[0];
                    &&& final(self).recipient_id == u.id
                    &&& final(self).channel_id == old(self).channel_id
                    &&& if exists|d: ContactAddress|
                        is_desired_address(d, old(self).config, old(self).channel_id->Some_0)
                            && #[trigger] has_entry(u.addresses@, d) {
                        final(self).phase is Rules && r == Next::Call(rules_request(old(self).config))
                    } else {
                        &&& final(self).phase is RecipientUpdate
                        &&& r is Call && r->Call_0 is UpdateRecipient
                        &&& r->Call_0->UpdateRecipient_0.recipient_id == u.id->Some_0
                        &&& exists|d: ContactAddress|
                            is_desired_address(d, old(self).config, old(self).channel_id->Some_0)
                                && r->Call_0->UpdateRecipient_0.addresses@ == #[trigger] addresses_after(
                                u.addresses@,
                                d,
                            )
                    }
                },
                Err(e) => r == Next::Failed(SetupError::Call(e)),
                _ => r == Next::Failed(SetupError::UnexpectedReply),
            },
            old(self).phase is RecipientUpdate ==> match reply {
                Ok(Reply::Ack) => final(self).phase is Rules && r == Next::Call(
                    rules_request(old(self).config),
                ),
                Err(e) => r == Next::Failed(SetupError::Call(e)),
                _ => r == Next::Failed(SetupError::UnexpectedReply),
            },
            // the alerting rule
            old(self).phase is Rules ==> match reply {
                Ok(Reply::Rules(n)) => if n == 0 {
                    &&& final(self).phase is RuleCreate
                    &&& r is Call && r->Call_0 is CreateRule
                    &&& is_alert_rule(
                        r->Call_0->CreateRule_0,
                        old(self).config.rule_name,
                        old(self).channel_id->Some_0,
                        old(self).recipient_id->Some_0,
                    )
                } else {
                    r is Finished
                },
                Err(e) => r == Next::Failed(SetupError::Call(e)),
                _ => r == Next::Failed(SetupError::UnexpectedReply),
            },
            old(self).phase is RuleCreate ==> match reply {
                Ok(Reply::Ack) => r is Finished,
                Err(e) => r == Next::Failed(SetupError::Call(e)),
                _ => r == Next::Failed(SetupError::UnexpectedReply),
            },
            // nothing is asked once the run has ended
            (old(self).phase is Done || old(self).phase is Failed) ==> r == Next::Failed(
                SetupError::UnexpectedReply,
            ),
    {
        match self.phase {
            Phase::LoginNew => match reply {
                Ok(Reply::Token(t)) => {
                    self.session.authenticate(t);
                    self.phase = Phase::Channels;
                    Next::Call(Request::ListChannels { name: self.config.channel_name.clone() })
                },
                Err(e) => {
                    if wants_legacy_login(&e) {
                        self.phase = Phase::LoginLegacy;
                        Next::Call(
                            Request::Login {
                                legacy: true,
                                user: self.config.admin_user.clone(),
                                password: self.config.admin_password.clone(),
                            },
                        )
                    } else {
                        self.fail(SetupError::Call(e))
                    }
                },
                _ => self.fail(SetupError::UnexpectedReply),
            },
            Phase::LoginLegacy => match reply {
                Ok(Reply::Token(t)) => {
                    self.session.authenticate(t);
                    self.phase = Phase::Channels;
                    Next::Call(Request::ListChannels { name: self.config.channel_name.clone() })
                },
                Err(e) => self.fail(SetupError::Call(e)),
                _ => self.fail(SetupError::UnexpectedReply),
            },
            Phase::Channels => match reply {
                Ok(Reply::Channels(list)) => {
                    if list.len() == 0 {
                        return self.fail(SetupError::ChannelNotFound);
                    }
                    let ch = &list[0];
                    self.channel_id = Some(ch.id.clone());
                    let update = match &self.config.bot_token {
                        Some(secret) => plan_channel_update(ch, secret),
                        None => None,
                    };
                    match update {
                        Some(u) => {
                            self.phase = Phase::ChannelUpdate;
                            Next::Call(Request::UpdateChannel(u))
                        },
                        None => self.ask_recipients(),
                    }
                },
                Err(e) => self.fail(SetupError::Call(e)),
                _ => self.fail(SetupError::UnexpectedReply),
            },
            Phase::ChannelUpdate => match reply {
                Ok(Reply::Ack) => self.ask_recipients(),
                Err(e) => self.fail(SetupError::Call(e)),
                _ => self.fail(SetupError::UnexpectedReply),
            },
            Phase::Recipients => match reply {
                Ok(Reply::Recipients(list)) => {
                    if list.len() == 0 {
                        return self.fail(SetupError::RecipientNotFound);
                    }
                    let u = &list[0];
                    let uid = match &u.id {
                        Some(id) => id.clone(),
                        None => {
                            return self.fail(SetupError::RecipientIdMissing);
                        },
                    };
                    let channel_id = match &self.channel_id {
                        Some(c) => c.clone(),
                        None => {
                            return self.fail(SetupError::UnexpectedReply);
                        },
                    };
                    self.recipient_id = Some(uid.clone());
                    let d = desired_address(&channel_id, &self.config.destination);
                    proof {
                        assert(is_desired_address(d, old(self).config, old(self).channel_id->Some_0));
                        assert forall|d2: ContactAddress|
                            is_desired_address(d2, old(self).config, old(self).channel_id->Some_0)
                            implies #[trigger] has_entry(u.addresses@, d2) == has_entry(u.addresses@, d) by {
                            assert forall|i: int| 0 <= i < u.addresses@.len() implies
                                crate::recipient::same_entry(#[trigger] u.addresses@[i], d2)
                                == crate::recipient::same_entry(u.addresses@[i], d) by {}
                        }
                    }
                    match plan_recipient_update(&uid, &u.addresses, &d) {
                        Some(upd) => {
                            self.phase = Phase::RecipientUpdate;
                            Next::Call(Request::UpdateRecipient(upd))
                        },
                        None => self.ask_rules(),
                    }
                },
                Err(e) => self.fail(SetupError::Call(e)),
                _ => self.fail(SetupError::UnexpectedReply),
            },
            Phase::RecipientUpdate => match reply {
                Ok(Reply::Ack) => self.ask_rules(),
                Err(e) => self.fail(SetupError::Call(e)),
                _ => self.fail(SetupError::UnexpectedReply),
            },
            Phase::Rules => match reply {
                Ok(Reply::Rules(n)) => {
                    let (channel_id, recipient_id) = match (&self.channel_id, &self.recipient_id) {
                        (Some(c), Some(u)) => (c.clone(), u.clone()),
                        _ => {
                            return self.fail(SetupError::UnexpectedReply);
                        },
                    };
                    match plan_rule(n, &self.config.rule_name, &channel_id, &recipient_id) {
                        Some(rule) => {
                            self.phase = Phase::RuleCreate;
                            Next::Call(Request::CreateRule(rule))
                        },
                        None => {
                            self.phase = Phase::Done;
                            Next::Finished
                        },
                    }
                },
                Err(e) => self.fail(SetupError::Call(e)),
                _ => self.fail(SetupError::UnexpectedReply),
            },
            Phase::RuleCreate => match reply {
                Ok(Reply::Ack) => {
                    self.phase = Phase::Done;
                    Next::Finished
                },
                Err(e) => self.fail(SetupError::Call(e)),
                _ => self.fail(SetupError::UnexpectedReply),
            },
            Phase::Done | Phase::Failed => self.fail(SetupError::UnexpectedReply),
        }
    }
}

/// A second run with the same configuration finds the remote state that the
/// first run left and writes nothing: the channel's token entry already holds
/// the secret and its list keeps its length and names, the recipient already has the
/// address so no duplicate is added, and a rule of the name exists so none
/// is created. `params` is the channel's list where it has one, `addresses`
/// the recipient's list, `rules` the number of rules of the name.
pub proof fn lemma_run_idempotent(
    params: Seq<Param>,
    secret: String,
    addresses: Seq<ContactAddress>,
    d: ContactAddress,
    rules: nat,
)
    ensures
        params_after(params, secret).len() == params.len(),
        forall|i: int|
            0 <= i < params.len() ==> #[trigger] params_after(params, secret)[i].name == params[i].name,
        !params_dirty(params_after(params, secret), secret),
        params_after(params_after(params, secret), secret) == params_after(params, secret),
        has_entry(addresses_after(addresses, d), d),
        addresses_after(addresses_after(addresses, d), d) == addresses_after(addresses, d),
        rules_after(rules) > 0,
        rules_after(rules_after(rules)) == rules_after(rules),
{
    lemma_params_idempotent(params, secret);
    lemma_addresses_idempotent(addresses, d);
    lemma_rules_idempotent(rules);
}

} // verus!
