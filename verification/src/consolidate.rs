//! The merge engine's fold: the records of all sources become one draft
//! device per canonical identity.

use crate::cache::{table_entries, table_get, table_insert, table_into_entries, table_new};
use crate::fetch::azure::IntuneDevice;
use crate::fetch::fortigate::FortiGateDevice;
use crate::netbox::merge::{
    active, fortigate_draft, fortigate_name, intune_draft, merge_fortigate, merge_intune, offline,
    reads_as_time,
};
use crate::netbox::models::{Device, DeviceView, Entity, Status};
use crate::utils::{char_to_lowercase, lowercase, lowercase_of, normalize_name};
use dashmap::DashMap;
use std::collections::hash_map::RandomState;
use vstd::prelude::*;

verus! {

/// The hexadecimal digits of a hardware address.
pub open spec fn is_hex_digit(c: char) -> bool {
    ('0' <= c && c <= '9') || ('a' <= c && c <= 'f') || ('A' <= c && c <= 'F')
}

/// The hexadecimal digits of the text in their order, letters lower-cased.
pub open spec fn hex_digits_of(s: Seq<char>) -> Seq<char>
    decreases s.len(),
{
    if s.len() == 0 {
        Seq::empty()
    } else if is_hex_digit(s.last()) {
        hex_digits_of(s.drop_last()).push(lowercase(s.last()))
    } else {
        hex_digits_of(s.drop_last())
    }
}

fn char_is_hex_digit(c: char) -> (keep: bool)
    ensures
        keep == is_hex_digit(c),
{
    (c >= '0' && c <= '9') || (c >= 'a' && c <= 'f') || (c >= 'A' && c <= 'F')
}

/// Reduces a hardware address to its hexadecimal digits, lower-cased, so that
/// `AA:BB:CC-00-11-22` and `aabbcc001122` name the same device.
pub fn normalize_mac(mac: &str) -> (digits: String)
    ensures
        digits@ == hex_digits_of(mac@),
{
    let mut out = String::new();
    let ghost mut seen: Seq<char> = Seq::empty();
    for c in it: mac.chars()
        invariant
            it.seq() == mac@,
            seen == it.history(),
            out@ == hex_digits_of(it.history()),
    {
        proof {
            assert(seen.push(c).drop_last() =~= seen);
            seen = seen.push(c);
        }
        if char_is_hex_digit(c) {
            out.push(char_to_lowercase(c));
        }
    }
    proof {
        assert(seen =~= mac@);
    }
    out
}

/// The identity under which the records of one device meet: the device's
/// name with its ASCII letters folded to lower case. Records whose names
/// differ only in the case of ASCII letters are of one device; a difference in
/// any other character, the case of a letter outside ASCII included, makes
/// them records of two.
pub open spec fn identity_of(name: Seq<char>) -> Seq<char> {
    lowercase_of(name)
}

/// The drafts after one directory record: the record is folded into the
/// draft of its identity, or becomes that draft where there is none.
pub open spec fn with_intune(
    drafts: Map<Seq<char>, DeviceView>,
    record: IntuneDevice,
    reported: Option<Status>,
) -> Map<Seq<char>, DeviceView> {
    let key = identity_of(record.name@);
    if drafts.contains_key(key) {
        drafts.insert(key, merge_intune(drafts[key], record, reported))
    } else {
        drafts.insert(key, intune_draft(record))
    }
}

/// The drafts after one fabric record.
pub open spec fn with_fortigate(drafts: Map<Seq<char>, DeviceView>, record: FortiGateDevice) -> Map<
    Seq<char>,
    DeviceView,
> {
    let key = identity_of(fortigate_name(record));
    if drafts.contains_key(key) {
        drafts.insert(key, merge_fortigate(drafts[key], record))
    } else {
        drafts.insert(key, fortigate_draft(record))
    }
}

/// The drafts after a run of directory records, each with what its sync time
/// says of the device.
pub open spec fn folded_intune(
    drafts: Map<Seq<char>, DeviceView>,
    records: Seq<(IntuneDevice, Option<Status>)>,
) -> Map<Seq<char>, DeviceView>
    decreases records.len(),
{
    if records.len() == 0 {
        drafts
    } else {
        with_intune(
            folded_intune(drafts, records.drop_last()),
            records.last().0,
            records.last().1,
        )
    }
}

/// The drafts after a run of fabric records.
pub open spec fn folded_fortigate(
    drafts: Map<Seq<char>, DeviceView>,
    records: Seq<FortiGateDevice>,
) -> Map<Seq<char>, DeviceView>
    decreases records.len(),
{
    if records.len() == 0 {
        drafts
    } else {
        with_fortigate(folded_fortigate(drafts, records.drop_last()), records.last())
    }
}

/// The drafts that the records of all sources give: the directory's records
/// first, then the fabric's.
pub open spec fn consolidated(
    intune: Seq<(IntuneDevice, Option<Status>)>,
    fortigate: Seq<FortiGateDevice>,
) -> Map<Seq<char>, DeviceView> {
    folded_fortigate(folded_intune(Map::empty(), intune), fortigate)
}

/// Every draft is filed under the identity of its own name.
pub open spec fn filed_by_identity(drafts: Map<Seq<char>, DeviceView>) -> bool {
    forall|key: Seq<char>| #[trigger]
        drafts.contains_key(key) ==> identity_of(drafts[key].name) == key
}

/// The devices are the drafts, each of them once: every device is the draft
/// of its identity, no two devices share an identity, and every draft is among
/// the devices.
pub open spec fn drained(devices: Seq<Device>, drafts: Map<Seq<char>, DeviceView>) -> bool {
    &&& forall|i: int|
        0 <= i < devices.len() ==> drafts.contains_key(
            identity_of((#[trigger] devices[i]).name@),
        ) && drafts[identity_of(devices[i].name@)] == devices[i]@
    &&& forall|i: int, j: int|
        0 <= i < j < devices.len() ==> identity_of((#[trigger] devices[i]).name@) != identity_of(
            (#[trigger] devices[j]).name@,
        )
    &&& forall|key: Seq<char>| #[trigger]
        drafts.contains_key(key) ==> exists|i: int|
            0 <= i < devices.len() && identity_of((#[trigger] devices[i]).name@) == key
}

/// The table holds the drafts: under each identity the device whose view is
/// the draft.
spec fn holds(table: DashMap<String, Entity, RandomState>, drafts: Map<Seq<char>, DeviceView>) -> bool {
    &&& table_entries(table).dom() == drafts.dom()
    &&& forall|key: Seq<char>| #[trigger]
        drafts.contains_key(key) ==> table_entries(table)[key] is Device && table_entries(
            table,
        )[key]->Device_0@ == drafts[key]
    &&& filed_by_identity(drafts)
}

fn merge_intune_record(
    table: &mut DashMap<String, Entity, RandomState>,
    record: IntuneDevice,
    reported: Option<Status>,
    Ghost(drafts): Ghost<Map<Seq<char>, DeviceView>>,
)
    requires
        holds(*old(table), drafts),
    ensures
        holds(*final(table), with_intune(drafts, record, reported)),
{
    let key = normalize_name(record.name.as_str());
    let merged = match table_get(table, key.as_str()) {
        Some(Entity::Device(existing)) => {
            let mut device = existing;
            device.merge_from_intune_as(&record, reported);
            device
        },
        _ => Device::from(record),
    };
    table_insert(table, key, Entity::Device(merged));
}

fn merge_fortigate_record(
    table: &mut DashMap<String, Entity, RandomState>,
    record: FortiGateDevice,
    Ghost(drafts): Ghost<Map<Seq<char>, DeviceView>>,
)
    requires
        holds(*old(table), drafts),
    ensures
        holds(*final(table), with_fortigate(drafts, record)),
{
    let key = match &record.hostname {
        Some(hostname) => normalize_name(hostname.as_str()),
        None => normalize_name(record.mac.as_str()),
    };
    let merged = match table_get(table, key.as_str()) {
        Some(Entity::Device(existing)) => {
            let mut device = existing;
            device.merge_from_fortigate(&record);
            device
        },
        _ => Device::from(record),
    };
    table_insert(table, key, Entity::Device(merged));
}

/// Folds the records of all sources into one draft device per identity,
/// given for each directory record what its sync time says of the device.
/// The devices come in no particular order.
pub fn consolidate_as(
    intune: Vec<(IntuneDevice, Option<Status>)>,
    fortigate: Vec<FortiGateDevice>,
) -> (devices: Vec<Device>)
    ensures
        drained(devices@, consolidated(intune@, fortigate@)),
{
    let mut table = table_new();
    let ghost mut drafts: Map<Seq<char>, DeviceView> = Map::empty();
    let ghost mut seen: Seq<(IntuneDevice, Option<Status>)> = Seq::empty();
    for pair in it: intune
        invariant
            it.seq() == intune@,
            seen == it.history(),
            drafts == folded_intune(Map::empty(), seen),
            holds(table, drafts),
    {
        let (record, reported) = pair;
        proof {
            assert(seen.push(pair).drop_last() =~= seen);
            seen = seen.push(pair);
        }
        merge_intune_record(&mut table, record, reported, Ghost(drafts));
        proof {
            drafts = with_intune(drafts, record, reported);
        }
    }
    proof {
        assert(seen =~= intune@);
    }
    let ghost from_intune = drafts;
    let ghost mut seen: Seq<FortiGateDevice> = Seq::empty();
    for record in it: fortigate
        invariant
            it.seq() == fortigate@,
            seen == it.history(),
            drafts == folded_fortigate(from_intune, seen),
            holds(table, drafts),
    {
        proof {
            assert(seen.push(record).drop_last() =~= seen);
            seen = seen.push(record);
        }
        merge_fortigate_record(&mut table, record, Ghost(drafts));
        proof {
            drafts = with_fortigate(drafts, record);
        }
    }
    proof {
        assert(seen =~= fortigate@);
    }
    let listed = table_into_entries(table);
    let mut devices: Vec<Device> = Vec::new();
    let ghost mut taken: Seq<(String, Entity)> = Seq::empty();
    for entry in it: listed
        invariant
            it.seq() == listed@,
            taken == it.history(),
            devices@.len() == taken.len(),
            holds(table, drafts),
            forall|i: int|
                0 <= i < listed@.len() ==> table_entries(table).contains_key(
                    (#[trigger] listed@[i]).0@,
                ) && table_entries(table)[listed@[i].0@] == listed@[i].1,
            forall|i: int|
                0 <= i < devices@.len() ==> Entity::Device(#[trigger] devices@[i]) == taken[i].1,
    {
        proof {
            taken = taken.push(entry);
        }
        match entry.1 {
            Entity::Device(device) => {
                devices.push(device);
            },
            _ => {},
        }
    }
    proof {
        assert forall|key: Seq<char>| #[trigger] drafts.contains_key(key) implies exists|i: int|
            0 <= i < devices@.len() && identity_of((#[trigger] devices@[i]).name@) == key by {
            let i = choose|i: int| 0 <= i < listed@.len() && (#[trigger] listed@[i]).0@ == key;
            assert(identity_of(devices@[i].name@) == key);
        }
    }
    devices
}

/// Folds the records of all sources into one draft device per identity,
/// reading the clock to judge each directory record's sync time: a record
/// is judged exactly if its sync time can be read.
pub fn consolidate(intune: Vec<IntuneDevice>, fortigate: Vec<FortiGateDevice>) -> (devices: Vec<
    Device,
>)
    ensures
        exists|judged: Seq<(IntuneDevice, Option<Status>)>|
            {
                &&& judged.len() == intune@.len()
                &&& forall|i: int|
                    0 <= i < judged.len() ==> (#[trigger] judged[i]).0 == intune@[i] && (judged[i].1
                        is Some <==> reads_as_time(intune@[i].synced@)) && (judged[i].1 is None
                        || judged[i].1 == Some(active()) || judged[i].1 == Some(offline()))
                &&& drained(devices@, #[trigger] consolidated(judged, fortigate@))
            },
{
    let mut judged: Vec<(IntuneDevice, Option<Status>)> = Vec::new();
    let ghost mut seen: Seq<IntuneDevice> = Seq::empty();
    for record in it: intune
        invariant
            it.seq() == intune@,
            seen == it.history(),
            judged@.len() == seen.len(),
            forall|i: int|
                0 <= i < judged@.len() ==> (#[trigger] judged@[i]).0 == seen[i] && (judged@[i].1
                    is Some <==> reads_as_time(seen[i].synced@)) && (judged@[i].1 is None
                    || judged@[i].1 == Some(active()) || judged@[i].1 == Some(offline())),
    {
        proof {
            seen = seen.push(record);
        }
        let reported = Device::status_from_sync(record.synced.as_str());
        judged.push((record, reported));
    }
    consolidate_as(judged, fortigate)
}

/// Records of one device from two sources meet in one draft: where a
/// directory record and a fabric record have the same identity, the drafts
/// hold one device, the directory's draft with the fabric record folded in.
pub proof fn lemma_same_identity_one_draft(
    directory: IntuneDevice,
    reported: Option<Status>,
    fabric: FortiGateDevice,
)
    requires
        identity_of(directory.name@) == identity_of(fortigate_name(fabric)),
    ensures
        consolidated(seq![(directory, reported)], seq![fabric]) == Map::<
            Seq<char>,
            DeviceView,
        >::empty().insert(
            identity_of(directory.name@),
            merge_fortigate(intune_draft(directory), fabric),
        ),
{
    let one = seq![(directory, reported)];
    assert(folded_intune(Map::empty(), one.drop_last()) == Map::<Seq<char>, DeviceView>::empty());
    let first = folded_intune(Map::empty(), one);
    let two = seq![fabric];
    assert(folded_fortigate(first, two.drop_last()) == first);
}

/// Folding records in keeps every draft under the identity of its own name,
/// and a record's identity is among the drafts once it has been folded in.
pub proof fn lemma_fold_files_by_identity(
    drafts: Map<Seq<char>, DeviceView>,
    directory: IntuneDevice,
    reported: Option<Status>,
    fabric: FortiGateDevice,
)
    requires
        filed_by_identity(drafts),
    ensures
        filed_by_identity(with_intune(drafts, directory, reported)),
        filed_by_identity(with_fortigate(drafts, fabric)),
        with_intune(drafts, directory, reported).contains_key(identity_of(directory.name@)),
        with_fortigate(drafts, fabric).contains_key(identity_of(fortigate_name(fabric))),
{
}

} // verus!
