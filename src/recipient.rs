use vstd::prelude::*;

verus! {

/// Wire value of `active` for a new contact address: disabled. The remote
/// API reads `"0"` as enabled and `"1"` as disabled.
pub const DEFAULT_ACTIVE: &'static str = "1";

/// Wire value of the severity mask for a new contact address: every severity.
pub const DEFAULT_SEVERITY: &'static str = "63";

/// Wire value of the active period for a new contact address: always.
pub const DEFAULT_PERIOD: &'static str = "1-7,00:00-24:00";

/// A contact address of a recipient.
#[derive(Debug, Clone, PartialEq, Eq)]
pub struct ContactAddress {
    pub channel_id: String,
    pub address: String,
    pub active: String,
    pub severity: String,
    pub period: String,
}

/// A recipient as listed by the remote system; the identifier may be
/// missing from a loosely shaped answer.
#[derive(Debug, Clone, PartialEq, Eq)]
pub struct Recipient {
    pub id: Option<String>,
    pub alias: Option<String>,
    pub addresses: Vec<ContactAddress>,
}

/// A full-list update of a recipient's contact addresses.
#[derive(Debug, Clone, PartialEq, Eq)]
pub struct RecipientUpdate {
    pub recipient_id: String,
    pub addresses: Vec<ContactAddress>,
}

/// Two addresses are the same entry when channel and destination agree.
pub open spec fn same_entry(a: ContactAddress, b: ContactAddress) -> bool {
    a.channel_id@ == b.channel_id@ && a.address@ == b.address@
}

pub open spec fn has_entry(list: Seq<ContactAddress>, d: ContactAddress) -> bool {
    exists|i: int| 0 <= i < list.len() && same_entry(#[trigger] list[i], d)
}

/// The list after reconciliation: unchanged where the entry is there,
/// otherwise the entry appended after every existing one.
pub open spec fn addresses_after(list: Seq<ContactAddress>, d: ContactAddress) -> Seq<
    ContactAddress,
> {
    if has_entry(list, d) {
        list
    } else {
        list.push(d)
    }
}

/// The address to attach: the given channel and destination with the fixed
/// defaults (disabled, every severity, always).
pub fn desired_address(channel_id: &String, address: &String) -> (r: ContactAddress)
    ensures
        r.channel_id == *channel_id,
        r.address == *address,
        r.active@ == DEFAULT_ACTIVE@,
        r.severity@ == DEFAULT_SEVERITY@,
        r.period@ == DEFAULT_PERIOD@,
{
    ContactAddress {
        channel_id: channel_id.clone(),
        address: address.clone(),
        active: String::from_str(DEFAULT_ACTIVE),
        severity: String::from_str(DEFAULT_SEVERITY),
        period: String::from_str(DEFAULT_PERIOD),
    }
}

/// Whether the list already holds an entry with the same channel and
/// destination as `d`.
pub fn contains_address(list: &Vec<ContactAddress>, d: &ContactAddress) -> (r: bool)
    ensures
        r == has_entry(list@, *d),
{
    let mut i: usize = 0;
    while i < list.len()
        invariant
            i <= list@.len(),
            forall|k: int| 0 <= k < i ==> !same_entry(#[trigger] list@[k], *d),
        decreases list@.len() - i,
    {
        if list[i].channel_id == d.channel_id && list[i].address == d.address {
            assert(same_entry(list@[i as int], *d));
            return true;
        }
        i = i + 1;
    }
    false
}

fn clone_address(a: &ContactAddress) -> (r: ContactAddress)
    ensures
        r == *a,
{
    ContactAddress {
        channel_id: a.channel_id.clone(),
        address: a.address.clone(),
        active: a.active.clone(),
        severity: a.severity.clone(),
        period: a.period.clone(),
    }
}

/// The update that attaches `d` to the recipient `recipient_id` whose
/// current list is `list`, or `None` where an equal entry is there already.
/// The update carries every existing entry, in order, then `d`.
pub fn plan_recipient_update(recipient_id: &String, list: &Vec<ContactAddress>, d: &ContactAddress) -> (r:
    Option<RecipientUpdate>)
    ensures
        has_entry(list@, *d) ==> r is None,
        !has_entry(list@, *d) ==> r is Some && r->Some_0.recipient_id == *recipient_id
            && r->Some_0.addresses@ == addresses_after(list@, *d),
{
    if contains_address(list, d) {
        return None;
    }
    let mut out: Vec<ContactAddress> = Vec::new();
    let mut i: usize = 0;
    while i < list.len()
        invariant
            i <= list@.len(),
            out@ == list@.subrange(0, i as int),
        decreases list@.len() - i,
    {
        out.push(clone_address(&list[i]));
        assert(out@ =~= list@.subrange(0, i + 1));
        i = i + 1;
    }
    assert(out@ =~= list@);
    out.push(clone_address(d));
    Some(RecipientUpdate { recipient_id: recipient_id.clone(), addresses: out })
}

/// Reconciling twice adds nothing the second time: after the first pass the
/// entry is present, so the second pass leaves the list as it is, and the
/// list never holds more than one new entry.
pub proof fn lemma_addresses_idempotent(list: Seq<ContactAddress>, d: ContactAddress)
    ensures
        has_entry(addresses_after(list, d), d),
        addresses_after(addresses_after(list, d), d) == addresses_after(list, d),
        addresses_after(list, d).len() <= list.len() + 1,
{
    let once = addresses_after(list, d);
    if !has_entry(list, d) {
        assert(same_entry(once[list.len() as int], d));
    }
}

} // verus!
