use vstd::prelude::*;
use crate::text::{lower_of, lowercase};

verus! {

/// One key-value entry of a channel's parameter list. Either half may be
/// missing from what the remote system returned.
#[derive(Debug, Clone, PartialEq, Eq)]
pub struct Param {
    pub name: Option<String>,
    pub value: Option<String>,
}

/// A notification-channel definition as listed by the remote system.
#[derive(Debug, Clone, PartialEq, Eq)]
pub struct Channel {
    pub id: String,
    pub name: String,
    pub status: Option<String>,
    pub params: Option<Vec<Param>>,
}

/// A full-list update of a channel's parameters.
#[derive(Debug, Clone, PartialEq, Eq)]
pub struct ChannelUpdate {
    pub channel_id: String,
    pub params: Vec<Param>,
}

/// A parameter name means "the bot token" when its lower-case form is
/// `token` or `bottoken`.
pub open spec fn is_token_key(name: Seq<char>) -> bool {
    lower_of(name) == "token"@ || lower_of(name) == "bottoken"@
}

/// The entry is the token entry and does not hold `secret` yet.
pub open spec fn needs_secret(p: Param, secret: Seq<char>) -> bool {
    &&& p.name is Some
    &&& is_token_key(p.name->Some_0@)
    &&& (p.value is None || p.value->Some_0@ != secret)
}

/// The entry after reconciliation: a stale token entry gets `secret`,
/// every other entry stays as it is.
pub open spec fn patched(p: Param, secret: String) -> Param {
    if needs_secret(p, secret@) {
        Param { name: p.name, value: Some(secret) }
    } else {
        p
    }
}

/// The whole list after reconciliation, in its original order.
pub open spec fn params_after(ps: Seq<Param>, secret: String) -> Seq<Param> {
    Seq::new(ps.len(), |i: int| patched(ps[i], secret))
}

/// Whether some entry of the list still needs the secret.
pub open spec fn params_dirty(ps: Seq<Param>, secret: String) -> bool {
    exists|i: int| 0 <= i < ps.len() && needs_secret(#[trigger] ps[i], secret@)
}

/// Whether an already lower-cased parameter name is one of the token names.
pub fn is_token_lower(lower: &str) -> (r: bool)
    ensures
        r == (lower@ == "token"@ || lower@ == "bottoken"@),
{
    let lower = String::from_str(lower);
    let token = String::from_str("token");
    let bot_token = String::from_str("bottoken");
    lower == token || lower == bot_token
}

/// Whether a parameter name means the bot token, ignoring case.
pub fn is_token_name(name: &String) -> (r: bool)
    ensures
        r == is_token_key(name@),
{
    let lower = lowercase(name.as_str());
    is_token_lower(lower.as_str())
}

/// A copy of an optional string.
pub(crate) fn clone_opt(s: &Option<String>) -> (r: Option<String>)
    ensures
        r == *s,
{
    match s {
        Some(v) => Some(v.clone()),
        None => None,
    }
}

/// Rewrites the value of each stale token entry to `secret`, keeping every
/// other entry and the order. Returns the new list and whether anything
/// changed.
pub fn patch_token_params(params: &Vec<Param>, secret: &String) -> (r: (Vec<Param>, bool))
    ensures
        r.0@ == params_after(params@, *secret),
        r.1 == params_dirty(params@, *secret),
{
    let mut out: Vec<Param> = Vec::new();
    let mut dirty = false;
    let mut i: usize = 0;
    while i < params.len()
        invariant
            i <= params@.len(),
            out@ == params_after(params@.subrange(0, i as int), *secret),
            dirty == params_dirty(params@.subrange(0, i as int), *secret),
        decreases params@.len() - i,
    {
        let p = &params[i];
        let name = clone_opt(&p.name);
        let value = clone_opt(&p.value);
        let stale = match &p.name {
            Some(n) => {
                if is_token_name(n) {
                    match &p.value {
                        Some(v) => *v != *secret,
                        None => true,
                    }
                } else {
                    false
                }
            },
            None => false,
        };
        proof {
            assert(stale == needs_secret(params@[i as int], secret@));
        }
        let q = if stale {
            Param { name, value: Some(secret.clone()) }
        } else {
            Param { name, value }
        };
        out.push(q);
        let ghost prev = params@.subrange(0, i as int);
        let ghost next = params@.subrange(0, i + 1);
        proof {
            assert(next =~= prev.push(params@[i as int]));
            assert(out@ =~= params_after(next, *secret));
            if stale {
                assert(needs_secret(next[i as int], secret@));
            }
            if params_dirty(next, *secret) && !stale {
                let k = choose|k: int| 0 <= k < next.len() && needs_secret(#[trigger] next[k], secret@);
                assert(k < i);
                assert(prev[k] == next[k]);
            }
            if dirty {
                let k = choose|k: int| 0 <= k < prev.len() && needs_secret(#[trigger] prev[k], secret@);
                assert(next[k] == prev[k]);
            }
        }
        dirty = dirty || stale;
        i = i + 1;
    }
    assert(params@.subrange(0, params@.len() as int) =~= params@);
    (out, dirty)
}

/// The update a channel needs so that its token parameter holds `secret`,
/// or `None` where it has no parameter list or already holds it.
pub fn plan_channel_update(channel: &Channel, secret: &String) -> (r: Option<ChannelUpdate>)
    ensures
        match channel.params {
            None => r is None,
            Some(ps) => if params_dirty(ps@, *secret) {
                r is Some && r->Some_0.channel_id == channel.id
                    && r->Some_0.params@ == params_after(ps@, *secret)
            } else {
                r is None
            },
        },
{
    match &channel.params {
        None => None,
        Some(ps) => {
            let (params, dirty) = patch_token_params(ps, secret);
            if dirty {
                Some(ChannelUpdate { channel_id: channel.id.clone(), params })
            } else {
                None
            }
        },
    }
}

/// Reconciling a list twice changes nothing the second time: the second
/// pass finds nothing stale and returns the same list. Each pass keeps the
/// length of the list and the name of every entry, in order.
pub proof fn lemma_params_idempotent(ps: Seq<Param>, secret: String)
    ensures
        !params_dirty(params_after(ps, secret), secret),
        params_after(params_after(ps, secret), secret) == params_after(ps, secret),
        params_after(ps, secret).len() == ps.len(),
        forall|i: int| 0 <= i < ps.len() ==> #[trigger] params_after(ps, secret)[i].name == ps[i].name,
{
    let once = params_after(ps, secret);
    assert forall|i: int| 0 <= i < once.len() implies !needs_secret(#[trigger] once[i], secret@) by {}
    assert(params_after(once, secret) =~= once);
}

} // verus!
