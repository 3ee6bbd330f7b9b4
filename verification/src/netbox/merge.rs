//! The merge engine's policy: the draft that a source record gives rise to,
//! and what folding a further record of the same device into a draft changes.

use crate::fetch::azure::{IntuneDevice, IntuneUser};
use crate::fetch::fortigate::FortiGateDevice;
use crate::fetch::nagiosxi::HostStatus;
use crate::netbox::models::{
    device_type_draft, named_draft, tag_draft, Contact, Device, DeviceRole, DeviceType,
    DeviceTypeView, DeviceView, Ip4View, Manufacturer, NamedView, NetBoxIp4, Platform, Site,
    Status, StatusOptions, Tag, TagView, VirtualMachine, VirtualMachineView,
};
use crate::utils::slug_of;
use vstd::prelude::*;
use vstd::std_specs::convert::FromSpecImpl;

verus! {

impl From<IntuneUser> for Contact {
    fn from(user: IntuneUser) -> (contact: Self) {
        Contact { id: None, name: user.name, email: user.mail, title: user.title }
    }
}

impl FromSpecImpl<IntuneUser> for Contact {
    open spec fn obeys_from_spec() -> bool {
        true
    }

    open spec fn from_spec(user: IntuneUser) -> Self {
        Contact { id: None, name: user.name, email: user.mail, title: user.title }
    }
}

/// The identifier of the site at which every monitored host is filed.
pub const MONITORED_SITE: usize = 5;

/// The status with which every monitored host is filed.
pub const MONITORED_STATUS: &'static str = "active";

/// The virtual machine that stands for a monitored host: active, at the
/// default site, known by the host's name.
pub open spec fn host_draft(host: HostStatus) -> VirtualMachineView {
    VirtualMachineView {
        id: None,
        name: host.host_name@,
        status: MONITORED_STATUS@,
        site: MONITORED_SITE,
        role: None,
        serial: None,
        platform: None,
        vcpus: None,
        memory: None,
        disk: None,
        tags: None,
    }
}

impl From<HostStatus> for VirtualMachine {
    fn from(value: HostStatus) -> (machine: Self)
        ensures
            machine@ == host_draft(value),
    {
        VirtualMachine {
            id: None,
            name: value.host_name,
            status: String::from_str(MONITORED_STATUS),
            site: MONITORED_SITE,
            role: None,
            serial: None,
            platform: None,
            vcpus: None,
            memory: None,
            disk: None,
            tags: None,
        }
    }
}

/// The conversion makes strings of its own, so what it gives is stated of its
/// view, by the contract of `from`, and not as an equation between values.
impl FromSpecImpl<HostStatus> for VirtualMachine {
    open spec fn obeys_from_spec() -> bool {
        false
    }

    open spec fn from_spec(value: HostStatus) -> Self {
        arbitrary()
    }
}

/// The role given to every device that a source reports.
pub const DEFAULT_ROLE: &'static str = "Desktop";

/// The site at which every device that a source reports is filed.
pub const DEFAULT_SITE: &'static str = "TOS";

/// The tag that marks a device known to the endpoint-management directory.
pub const INTUNE_TAG: &'static str = "AAD";

/// The tag that marks a device known to the network-fabric controller.
pub const FORTIGATE_TAG: &'static str = "FortiGate";

/// The tag that marks a device whose address lease is reserved.
pub const RESERVED_TAG: &'static str = "Reserved DHCP";

/// The manufacturer and model given to a device of which the fabric
/// controller knows neither.
pub const UNKNOWN_HARDWARE: &'static str = "default";

/// The greatest age, in whole days, of a directory sync that still counts as
/// a sign of life.
pub const SYNC_FRESH_DAYS: i64 = 7;

/// The status that stands for a device being seen.
pub open spec fn active() -> Status {
    Status { value: StatusOptions::Active }
}

/// The status that stands for a device not being seen.
pub open spec fn offline() -> Status {
    Status { value: StatusOptions::Offline }
}

/// What a directory sync of the given age, in whole days, says of a device;
/// nothing where the sync time could not be read.
pub open spec fn status_of_age(age: Option<i64>) -> Option<Status> {
    match age {
        Some(days) => Some(if days <= SYNC_FRESH_DAYS { active() } else { offline() }),
        None => None,
    }
}

/// The offered value where there is none yet; otherwise the one that is there.
pub open spec fn fill<T>(current: Option<T>, offered: Option<T>) -> Option<T> {
    if current is Some {
        current
    } else {
        offered
    }
}

/// Whether a tag of the given slug is among the tags.
pub open spec fn has_slug(tags: Seq<TagView>, slug: Seq<char>) -> bool {
    exists|i: int| 0 <= i < tags.len() && (#[trigger] tags[i]).slug == slug
}

/// The tags with the given one added, unless a tag of its slug is among them.
pub open spec fn with_tag(tags: Option<Seq<TagView>>, tag: TagView) -> Option<Seq<TagView>> {
    match tags {
        Some(list) => if has_slug(list, tag.slug) {
            Some(list)
        } else {
            Some(list.push(tag))
        },
        None => Some(seq![tag]),
    }
}

/// No two of the tags share a slug.
pub open spec fn distinct_slugs(tags: Option<Seq<TagView>>) -> bool {
    tags matches Some(list) ==> forall|i: int, j: int|
        0 <= i < j < list.len() ==> (#[trigger] list[i]).slug != (#[trigger] list[j]).slug
}

/// The number of tags of the given slug.
pub open spec fn count_slug(tags: Seq<TagView>, slug: Seq<char>) -> nat
    decreases tags.len(),
{
    if tags.len() == 0 {
        0
    } else {
        count_slug(tags.drop_last(), slug) + if tags.last().slug == slug {
            1nat
        } else {
            0nat
        }
    }
}

/// The status after a source has spoken: a source that sees the device makes
/// it active, whatever it was; one that does not changes nothing.
pub open spec fn status_after(current: Option<Status>, online: bool) -> Option<Status> {
    if online {
        Some(active())
    } else {
        current
    }
}

/// The draft device that a directory record gives rise to.
pub open spec fn intune_draft(value: IntuneDevice) -> DeviceView {
    DeviceView {
        name: value.name@,
        id: None,
        device_type: Some(device_type_draft(named_draft(value.manufacturer@), value.model@)),
        role: Some(named_draft(DEFAULT_ROLE@)),
        site: Some(named_draft(DEFAULT_SITE@)),
        status: Some(active()),
        serial: Some(value.serial@),
        platform: Some(named_draft(value.os@.push(' ') + value.os_version@)),
        primary_ip4: None,
        tags: Some(seq![tag_draft(INTUNE_TAG@)]),
    }
}

/// The name under which a fabric record is filed: its host name, or its
/// hardware address where it has none.
pub open spec fn fortigate_name(value: FortiGateDevice) -> Seq<char> {
    match value.hostname {
        Some(hostname) => hostname@,
        None => value.mac@,
    }
}

/// The device type that a fabric record names, if it names both a type and a
/// vendor.
pub open spec fn fortigate_device_type(value: FortiGateDevice) -> Option<DeviceTypeView> {
    match (value.device_type, value.hardware_vendor) {
        (Some(ty), Some(vendor)) => Some(device_type_draft(named_draft(vendor@), ty@)),
        _ => None,
    }
}

/// The platform that a fabric record names.
pub open spec fn fortigate_platform(value: FortiGateDevice) -> Option<NamedView> {
    match value.os_name {
        Some(os) => Some(named_draft(os@)),
        None => None,
    }
}

/// The draft device that a fabric record gives rise to.
pub open spec fn fortigate_draft(value: FortiGateDevice) -> DeviceView {
    DeviceView {
        name: fortigate_name(value),
        id: None,
        device_type: fortigate_device_type(value),
        role: Some(named_draft(DEFAULT_ROLE@)),
        site: Some(named_draft(DEFAULT_SITE@)),
        status: Some(if value.is_online { active() } else { offline() }),
        serial: None,
        platform: fortigate_platform(value),
        primary_ip4: match value.ipv4_address {
            Some(ip) => Some(Ip4View { id: None, address: ip@ }),
            None => None,
        },
        tags: Some(seq![tag_draft(FORTIGATE_TAG@)]),
    }
}

/// A draft after a directory record of the same device has been folded into
/// it, where `reported` is what the record's sync time says of the device.
///
/// Serial, platform, role and device type are filled where the draft has
/// none. A fresh sync makes the device active; a stale or unreadable one
/// decides the status only where the draft has none. The directory's tag is
/// added unless a tag of its slug is there.
pub open spec fn merge_intune(
    draft: DeviceView,
    src: IntuneDevice,
    reported: Option<Status>,
) -> DeviceView {
    DeviceView {
        serial: fill(draft.serial, Some(src.serial@)),
        platform: fill(draft.platform, Some(named_draft(src.os@))),
        role: fill(draft.role, Some(named_draft(DEFAULT_ROLE@))),
        status: fill(status_after(draft.status, reported == Some(active())), reported),
        device_type: fill(
            draft.device_type,
            Some(device_type_draft(named_draft(src.manufacturer@), src.model@)),
        ),
        tags: with_tag(draft.tags, tag_draft(INTUNE_TAG@)),
        ..draft
    }
}

/// The tags after a fabric record has been folded in: the controller's tag,
/// and the reservation tag where the record's lease is reserved.
pub open spec fn fortigate_tags(tags: Option<Seq<TagView>>, src: FortiGateDevice) -> Option<
    Seq<TagView>,
> {
    let tagged = with_tag(tags, tag_draft(FORTIGATE_TAG@));
    if src.dhcp_lease_lease_reserved == Some(true) {
        with_tag(tagged, tag_draft(RESERVED_TAG@))
    } else {
        tagged
    }
}

/// A draft after a fabric record of the same device has been folded into it.
///
/// Platform and device type are filled where the draft has none, the device
/// type with a stand-in where the record names none. A record that sees the
/// device online makes it active; one that does not leaves the status as it
/// is.
pub open spec fn merge_fortigate(draft: DeviceView, src: FortiGateDevice) -> DeviceView {
    DeviceView {
        platform: fill(draft.platform, fortigate_platform(src)),
        status: status_after(draft.status, src.is_online),
        device_type: fill(
            draft.device_type,
            Some(
                match fortigate_device_type(src) {
                    Some(named) => named,
                    None => device_type_draft(
                        named_draft(UNKNOWN_HARDWARE@),
                        UNKNOWN_HARDWARE@,
                    ),
                },
            ),
        ),
        tags: fortigate_tags(draft.tags, src),
        ..draft
    }
}

impl From<IntuneDevice> for Device {
    fn from(value: IntuneDevice) -> (device: Self)
        ensures
            device@ == intune_draft(value),
    {
        let mut platform_name = value.os.clone();
        platform_name.push(' ');
        platform_name.append(value.os_version.as_str());
        let mut tags: Vec<Tag> = Vec::new();
        tags.push(Tag::new(String::from_str(INTUNE_TAG)));
        let device = Device {
            name: value.name,
            id: None,
            device_type: Some(
                DeviceType::new(Manufacturer::new(value.manufacturer.clone()), value.model.clone()),
            ),
            role: Some(DeviceRole::new(String::from_str(DEFAULT_ROLE))),
            site: Some(Site::new(String::from_str(DEFAULT_SITE))),
            status: Some(Status::from_value(StatusOptions::Active)),
            serial: Some(value.serial),
            platform: Some(Platform::new(platform_name)),
            primary_ip4: None,
            tags: Some(tags),
        };
        proof {
            assert(device@.tags->0 =~= seq![tag_draft(INTUNE_TAG@)]);
        }
        device
    }
}

/// The conversion makes strings of its own, so what it gives is stated of its
/// view, by the contract of `from`, and not as an equation between values.
impl FromSpecImpl<IntuneDevice> for Device {
    open spec fn obeys_from_spec() -> bool {
        false
    }

    open spec fn from_spec(value: IntuneDevice) -> Self {
        arbitrary()
    }
}

impl From<FortiGateDevice> for Device {
    fn from(value: FortiGateDevice) -> (device: Self)
        ensures
            device@ == fortigate_draft(value),
    {
        let status = Some(
            if value.is_online {
                Status::from_value(StatusOptions::Active)
            } else {
                Status::from_value(StatusOptions::Offline)
            },
        );
        let platform = match &value.os_name {
            Some(os) => Some(Platform::new(os.clone())),
            None => None,
        };
        let primary_ip4 = match &value.ipv4_address {
            Some(ip) => Some(NetBoxIp4::new(ip.clone())),
            None => None,
        };
        let name = match &value.hostname {
            Some(hostname) => hostname.clone(),
            None => value.mac.clone(),
        };
        let device_type = match (&value.device_type, &value.hardware_vendor) {
            (Some(ty), Some(vendor)) => Some(
                DeviceType::new(Manufacturer::new(vendor.clone()), ty.clone()),
            ),
            _ => None,
        };
        let mut tags: Vec<Tag> = Vec::new();
        tags.push(Tag::new(String::from_str(FORTIGATE_TAG)));
        let device = Device {
            name,
            id: None,
            device_type,
            role: Some(DeviceRole::new(String::from_str(DEFAULT_ROLE))),
            site: Some(Site::new(String::from_str(DEFAULT_SITE))),
            status,
            serial: None,
            platform,
            primary_ip4,
            tags: Some(tags),
        };
        proof {
            assert(device@.tags->0 =~= seq![tag_draft(FORTIGATE_TAG@)]);
        }
        device
    }
}

/// The conversion makes strings of its own, so what it gives is stated of its
/// view, by the contract of `from`, and not as an equation between values.
impl FromSpecImpl<FortiGateDevice> for Device {
    open spec fn obeys_from_spec() -> bool {
        false
    }

    open spec fn from_spec(value: FortiGateDevice) -> Self {
        arbitrary()
    }
}

fn any_tag_has_slug(tags: &Vec<Tag>, slug: &String) -> (found: bool)
    ensures
        found == has_slug(tags.deep_view(), slug@),
{
    let mut i: usize = 0;
    while i < tags.len()
        invariant
            i <= tags.len(),
            forall|k: int| 0 <= k < i ==> (#[trigger] tags.deep_view()[k]).slug != slug@,
        decreases tags.len() - i,
    {
        if tags[i].slug == *slug {
            proof {
                assert(tags.deep_view()[i as int].slug == slug@);
            }
            return true;
        }
        i += 1;
    }
    false
}

impl Device {
    /// Adds a tag to the device unless it already carries one of that slug.
    pub fn push_tag(&mut self, tag: Tag)
        ensures
            final(self)@ == (DeviceView { tags: with_tag(old(self)@.tags, tag@), ..old(self)@ }),
            final(self).name == old(self).name,
    {
        match &mut self.tags {
            Some(tags) => {
                if !any_tag_has_slug(tags, &tag.slug) {
                    let ghost before = tags.deep_view();
                    let ghost added = tag@;
                    tags.push(tag);
                    proof {
                        assert(tags.deep_view() =~= before.push(added));
                    }
                }
            },
            None => {
                let ghost added = tag@;
                let mut tags: Vec<Tag> = Vec::new();
                tags.push(tag);
                proof {
                    assert(tags.deep_view() =~= seq![added]);
                }
                self.tags = Some(tags);
            },
        }
    }

    /// What a sync of the given age says of a device: active up to seven
    /// whole days, offline beyond.
    pub fn status_of_age(age: Option<i64>) -> (status: Option<Status>)
        ensures
            status == self::status_of_age(age),
    {
        match age {
            Some(days) => Some(
                if days <= SYNC_FRESH_DAYS {
                    Status::from_value(StatusOptions::Active)
                } else {
                    Status::from_value(StatusOptions::Offline)
                },
            ),
            None => None,
        }
    }

    /// What the time of a device's last sync says of it at this moment:
    /// nothing where the time cannot be read; else active or offline by the
    /// whole days from then to now, as `status_of_age` has it.
    pub fn status_from_sync(sync_time: &str) -> (status: Option<Status>)
        ensures
            status is Some <==> reads_as_time(sync_time@),
            status matches Some(judged) ==> judged == active() || judged == offline(),
    {
        match parse_sync_time(sync_time) {
            Some(synced) => {
                let now = utc_now();
                Self::status_of_age(Some(whole_days_between(&now, &synced)))
            },
            None => None,
        }
    }

    /// Folds a directory record of the same device into the draft, given what
    /// the record's sync time says of the device.
    pub fn merge_from_intune_as(&mut self, src: &IntuneDevice, reported: Option<Status>)
        ensures
            final(self)@ == merge_intune(old(self)@, *src, reported),
            final(self).name == old(self).name,
    {
        if self.serial.is_none() {
            self.serial = Some(src.serial.clone());
        }
        if self.platform.is_none() {
            self.platform = Some(Platform::new(src.os.clone()));
        }
        if self.role.is_none() {
            self.role = Some(DeviceRole::new(String::from_str(DEFAULT_ROLE)));
        }
        match reported {
            Some(status) => {
                if self.status.is_none() || status.value == StatusOptions::Active {
                    self.status = Some(status);
                }
            },
            None => {},
        }
        if self.device_type.is_none() {
            self.device_type = Some(
                DeviceType::new(Manufacturer::new(src.manufacturer.clone()), src.model.clone()),
            );
        }
        self.push_tag(Tag::new(String::from_str(INTUNE_TAG)));
    }

    /// Folds a directory record of the same device into the draft, reading the
    /// clock to judge the record's sync time: the draft becomes what
    /// `merge_from_intune_as` makes of it with what the sync time says, which
    /// is something exactly if the sync time can be read.
    pub fn merge_from_intune(&mut self, src: &IntuneDevice)
        ensures
            exists|reported: Option<Status>|
                (reported is Some <==> reads_as_time(src.synced@)) && (reported is None || reported
                    == Some(active()) || reported == Some(offline())) && final(self)@
                    == #[trigger] merge_intune(old(self)@, *src, reported),
            final(self).name == old(self).name,
    {
        let reported = Self::status_from_sync(src.synced.as_str());
        self.merge_from_intune_as(src, reported);
    }

    /// Folds a fabric record of the same device into the draft.
    pub fn merge_from_fortigate(&mut self, src: &FortiGateDevice)
        ensures
            final(self)@ == merge_fortigate(old(self)@, *src),
            final(self).name == old(self).name,
    {
        if self.platform.is_none() {
            match &src.os_name {
                Some(os) => {
                    self.platform = Some(Platform::new(os.clone()));
                },
                None => {},
            }
        }
        if src.is_online {
            self.status = Some(Status::from_value(StatusOptions::Active));
        }
        if self.device_type.is_none() {
            self.device_type = Some(
                match (&src.device_type, &src.hardware_vendor) {
                    (Some(ty), Some(vendor)) => DeviceType::new(
                        Manufacturer::new(vendor.clone()),
                        ty.clone(),
                    ),
                    _ => DeviceType::new(
                        Manufacturer::new(String::from_str(UNKNOWN_HARDWARE)),
                        String::from_str(UNKNOWN_HARDWARE),
                    ),
                },
            );
        }
        self.push_tag(Tag::new(String::from_str(FORTIGATE_TAG)));
        match src.dhcp_lease_lease_reserved {
            Some(true) => {
                self.push_tag(Tag::new(String::from_str(RESERVED_TAG)));
            },
            _ => {},
        }
    }
}

/// A date and a time of day in universal time, as the sources' sync times
/// are read and as the clock gives it.
#[verifier::external_type_specification]
#[verifier::external_body]
pub struct ExNaiveDateTime(chrono::NaiveDateTime);

/// Whether a text can be read as a time: a date and a time of day with an
/// offset from universal time, as `DateTime<Utc>` parses it.
pub uninterp spec fn reads_as_time(text: Seq<char>) -> bool;

/// `str::parse::<DateTime<Utc>>` reads a text as a time, and the same text
/// is always read in the same way; `DateTime::naive_utc` gives the date and
/// time that were read. Nothing is claimed of which time a text names.
#[verifier::external_body]
fn parse_sync_time(sync_time: &str) -> (parsed: Option<chrono::NaiveDateTime>)
    ensures
        parsed is Some <==> reads_as_time(sync_time@),
{
    sync_time.parse::<chrono::DateTime<chrono::Utc>>().ok().map(|time| time.naive_utc())
}

/// `Utc::now` reads the clock, which is taken to stand at or after the start
/// of 1970, as chrono takes it. Nothing is claimed of what it shows.
#[verifier::external_body]
fn utc_now() -> (now: chrono::NaiveDateTime) {
    chrono::Utc::now().naive_utc()
}

/// `NaiveDateTime::signed_duration_since` and `TimeDelta::num_days` count the
/// whole days from one time to a later one, below zero where it is the
/// earlier. Nothing is claimed of the count.
#[verifier::external_body]
fn whole_days_between(later: &chrono::NaiveDateTime, earlier: &chrono::NaiveDateTime) -> (days:
    i64) {
    later.signed_duration_since(*earlier).num_days()
}

/// What a draft holds is never overwritten: a merge changes serial,
/// platform, role and device type only where the draft had none, and never
/// the name, the site, the address or the identifier.
pub proof fn lemma_merge_keeps_what_is_there(
    draft: DeviceView,
    directory: IntuneDevice,
    reported: Option<Status>,
    fabric: FortiGateDevice,
)
    ensures
        ({
            let a = merge_intune(draft, directory, reported);
            let b = merge_fortigate(draft, fabric);
            &&& draft.serial is Some ==> a.serial == draft.serial
            &&& draft.platform is Some ==> a.platform == draft.platform && b.platform
                == draft.platform
            &&& draft.role is Some ==> a.role == draft.role
            &&& draft.device_type is Some ==> a.device_type == draft.device_type && b.device_type
                == draft.device_type
            &&& b.serial == draft.serial && b.role == draft.role
            &&& a.name == draft.name && a.site == draft.site && a.id == draft.id && a.primary_ip4
                == draft.primary_ip4
            &&& b.name == draft.name && b.site == draft.site && b.id == draft.id && b.primary_ip4
                == draft.primary_ip4
        }),
{
}

/// The first source to report a serial wins: a draft without one takes it
/// from the first directory record, and a second record does not change it.
pub proof fn lemma_first_serial_wins(
    draft: DeviceView,
    first: IntuneDevice,
    first_reported: Option<Status>,
    second: IntuneDevice,
    second_reported: Option<Status>,
)
    requires
        draft.serial is None,
    ensures
        merge_intune(draft, first, first_reported).serial == Some(first.serial@),
        merge_intune(
            merge_intune(draft, first, first_reported),
            second,
            second_reported,
        ).serial == Some(first.serial@),
{
}

/// A source that sees the device makes it active whatever the draft said, and
/// no source takes that away again.
pub proof fn lemma_status_positive_signal_wins(
    draft: DeviceView,
    directory: IntuneDevice,
    reported: Option<Status>,
    fabric: FortiGateDevice,
)
    ensures
        fabric.is_online ==> merge_fortigate(draft, fabric).status == Some(active()),
        reported == Some(active()) ==> merge_intune(draft, directory, reported).status == Some(
            active(),
        ),
        draft.status == Some(active()) ==> merge_fortigate(draft, fabric).status == Some(active())
            && merge_intune(draft, directory, reported).status == Some(active()),
        draft.status is Some && !fabric.is_online ==> merge_fortigate(draft, fabric).status
            == draft.status,
        draft.status is Some && reported != Some(active()) ==> merge_intune(
            draft,
            directory,
            reported,
        ).status == draft.status,
{
}

/// Two fabric records leave the device active exactly when it was active or
/// either record saw it, in whichever order they are folded in.
pub proof fn lemma_status_order_independent(
    draft: DeviceView,
    first: FortiGateDevice,
    second: FortiGateDevice,
)
    ensures
        merge_fortigate(merge_fortigate(draft, first), second).status == merge_fortigate(
            merge_fortigate(draft, second),
            first,
        ).status,
        merge_fortigate(merge_fortigate(draft, first), second).status == status_after(
            draft.status,
            first.is_online || second.is_online,
        ),
{
}

/// Counting the tags of a slug finds none exactly when no tag has the slug,
/// and at most one where no two tags share a slug.
pub proof fn lemma_count_slug(tags: Seq<TagView>, slug: Seq<char>)
    ensures
        count_slug(tags, slug) == 0 <==> !has_slug(tags, slug),
        distinct_slugs(Some(tags)) ==> count_slug(tags, slug) <= 1,
    decreases tags.len(),
{
    if tags.len() > 0 {
        let before = tags.drop_last();
        lemma_count_slug(before, slug);
        assert(forall|i: int| 0 <= i < before.len() ==> before[i] == tags[i]);
    }
}

/// Adding a tag gives a set: the tag's slug is then there exactly once, no
/// slug is there twice, every tag that was there stays, and adding the same
/// tag again changes nothing.
pub proof fn lemma_with_tag_is_union(tags: Option<Seq<TagView>>, tag: TagView)
    requires
        distinct_slugs(tags),
    ensures
        with_tag(tags, tag) is Some,
        distinct_slugs(with_tag(tags, tag)),
        has_slug(with_tag(tags, tag)->0, tag.slug),
        count_slug(with_tag(tags, tag)->0, tag.slug) == 1,
        tags matches Some(list) ==> list.is_prefix_of(with_tag(tags, tag)->0),
        with_tag(with_tag(tags, tag), tag) == with_tag(tags, tag),
{
    lemma_count_slug(with_tag(tags, tag)->0, tag.slug);
}

/// Merging never produces a second tag of a slug: a draft whose tags are
/// distinct by slug stays so under every merge, and carries the source's tag
/// exactly once afterwards.
pub proof fn lemma_merge_tags_are_a_set(
    draft: DeviceView,
    directory: IntuneDevice,
    reported: Option<Status>,
    fabric: FortiGateDevice,
)
    requires
        distinct_slugs(draft.tags),
    ensures
        distinct_slugs(merge_intune(draft, directory, reported).tags),
        count_slug(merge_intune(draft, directory, reported).tags->0, slug_of(INTUNE_TAG@)) == 1,
        distinct_slugs(merge_fortigate(draft, fabric).tags),
        count_slug(merge_fortigate(draft, fabric).tags->0, slug_of(FORTIGATE_TAG@)) == 1,
{
    lemma_with_tag_is_union(draft.tags, tag_draft(INTUNE_TAG@));
    lemma_with_tag_is_union(draft.tags, tag_draft(FORTIGATE_TAG@));
    let tagged = with_tag(draft.tags, tag_draft(FORTIGATE_TAG@));
    lemma_with_tag_is_union(tagged, tag_draft(RESERVED_TAG@));
    lemma_count_slug(fortigate_tags(draft.tags, fabric)->0, slug_of(FORTIGATE_TAG@));
}

/// The drafts that the sources give rise to carry one tag each.
pub proof fn lemma_drafts_have_distinct_tags(directory: IntuneDevice, fabric: FortiGateDevice)
    ensures
        distinct_slugs(intune_draft(directory).tags),
        distinct_slugs(fortigate_draft(fabric).tags),
{
}

} // verus!
