//! The submission of a device: every reference replaced by the identifier
//! that the registry assigned, which presupposes that the parts are resolved.

use crate::netbox::models::{
    Device, DeviceTypeView, DeviceView, NamedView, PostDevice, PostDeviceView, Tag, TagView,
};
use vstd::prelude::*;
use vstd::std_specs::convert::TryFromSpecImpl;

verus! {

/// Why a device cannot be submitted yet: a part that the registry must know
/// first is missing or carries no identifier, or the device has no status.
#[derive(Clone, Copy, Debug, PartialEq, Eq, Structural)]
pub enum PostDeviceError {
    /// The device has no device type, or one without an identifier.
    DeviceTypeUnresolved,
    /// The device has no role, or one without an identifier.
    RoleUnresolved,
    /// The device has no site, or one without an identifier.
    SiteUnresolved,
    /// The device has a platform, and it carries no identifier.
    PlatformUnresolved,
    /// One of the device's tags carries no identifier.
    TagUnresolved,
    /// The device has no status.
    StatusMissing,
}

impl PostDeviceError {
    /// The cause in words.
    pub open spec fn text(self) -> Seq<char> {
        match self {
            PostDeviceError::DeviceTypeUnresolved => "Device type must be created first"@,
            PostDeviceError::RoleUnresolved => "Device role must be created first"@,
            PostDeviceError::SiteUnresolved => "Site must be created first"@,
            PostDeviceError::PlatformUnresolved => "Platform must be created first"@,
            PostDeviceError::TagUnresolved => "Tags must be created first"@,
            PostDeviceError::StatusMissing => "Device status is required"@,
        }
    }

    pub fn message(&self) -> (text: String)
        ensures
            text@ == self.text(),
    {
        match self {
            PostDeviceError::DeviceTypeUnresolved => String::from_str(
                "Device type must be created first",
            ),
            PostDeviceError::RoleUnresolved => String::from_str(
                "Device role must be created first",
            ),
            PostDeviceError::SiteUnresolved => String::from_str("Site must be created first"),
            PostDeviceError::PlatformUnresolved => String::from_str(
                "Platform must be created first",
            ),
            PostDeviceError::TagUnresolved => String::from_str("Tags must be created first"),
            PostDeviceError::StatusMissing => String::from_str("Device status is required"),
        }
    }
}

/// Whether every one of the tags carries an identifier.
pub open spec fn tags_resolved(tags: Seq<TagView>) -> bool {
    forall|i: int| 0 <= i < tags.len() ==> (#[trigger] tags[i]).id is Some
}

/// The identifiers of tags that all carry one, in the tags' order.
pub open spec fn tag_ids(tags: Seq<TagView>) -> Seq<u32> {
    Seq::new(tags.len(), |i: int| tags[i].id->0)
}

/// The identifier of a part, where the part is there and carries one.
pub open spec fn named_id(part: Option<NamedView>) -> Option<u32> {
    match part {
        Some(named) => named.id,
        None => None,
    }
}

/// The identifier of the device type, where there is one and it carries one.
pub open spec fn device_type_id(part: Option<DeviceTypeView>) -> Option<u32> {
    match part {
        Some(device_type) => device_type.id,
        None => None,
    }
}

/// The tags of a device, none where it has no list of them.
pub open spec fn tags_of(device: DeviceView) -> Seq<TagView> {
    match device.tags {
        Some(tags) => tags,
        None => Seq::empty(),
    }
}

/// The submission that stands for a device, or the first thing that keeps
/// it from being submitted, asked in this order: the device type, the role
/// and the site must be there and carry their identifiers; the platform, if
/// the device has one, and every tag must carry theirs; and the device must
/// have a status. Nothing that the device refers to is left out of its
/// submission.
pub open spec fn postable(device: DeviceView) -> Result<PostDeviceView, PostDeviceError> {
    if device_type_id(device.device_type) is None {
        Err(PostDeviceError::DeviceTypeUnresolved)
    } else if named_id(device.role) is None {
        Err(PostDeviceError::RoleUnresolved)
    } else if named_id(device.site) is None {
        Err(PostDeviceError::SiteUnresolved)
    } else if device.platform is Some && named_id(device.platform) is None {
        Err(PostDeviceError::PlatformUnresolved)
    } else if !tags_resolved(tags_of(device)) {
        Err(PostDeviceError::TagUnresolved)
    } else if device.status is None {
        Err(PostDeviceError::StatusMissing)
    } else {
        Ok(
            PostDeviceView {
                name: device.name,
                id: device.id,
                device_type: device_type_id(device.device_type)->0,
                role: named_id(device.role)->0,
                site: named_id(device.site)->0,
                status: device.status->0.value,
                serial: device.serial,
                platform: named_id(device.platform),
                tags: tag_ids(tags_of(device)),
            },
        )
    }
}

fn collect_tag_ids(tags: &Vec<Tag>) -> (ids: Option<Vec<u32>>)
    ensures
        ids is Some <==> tags_resolved(tags.deep_view()),
        ids matches Some(list) ==> list@ == tag_ids(tags.deep_view()),
{
    let mut ids: Vec<u32> = Vec::new();
    let mut i: usize = 0;
    while i < tags.len()
        invariant
            i <= tags.len(),
            tags_resolved(tags.deep_view().take(i as int)),
            ids@ == tag_ids(tags.deep_view().take(i as int)),
        decreases tags.len() - i,
    {
        match tags[i].id {
            Some(id) => {
                ids.push(id);
            },
            None => {
                proof {
                    assert(tags.deep_view()[i as int].id is None);
                }
                return None;
            },
        }
        proof {
            let now = tags.deep_view().take(i + 1);
            assert forall|k: int| 0 <= k < now.len() implies (#[trigger] now[k]).id is Some by {
                if k < i {
                    assert(tags.deep_view().take(i as int)[k].id is Some);
                }
            }
            assert(ids@ =~= tag_ids(now));
        }
        i += 1;
    }
    proof {
        assert(tags.deep_view().take(i as int) =~= tags.deep_view());
    }
    Some(ids)
}

impl TryFrom<Device> for PostDevice {
    type Error = PostDeviceError;

    fn try_from(value: Device) -> (submission: Result<Self, PostDeviceError>)
        ensures
            submission.is_ok() == postable(value@).is_ok(),
            submission matches Ok(post) ==> post@ == postable(value@)->Ok_0,
            submission matches Err(missing) ==> missing == postable(value@)->Err_0,
    {
        let device_type = match &value.device_type {
            Some(device_type) => device_type.id,
            None => None,
        };
        let device_type = match device_type {
            Some(id) => id,
            None => {
                return Err(PostDeviceError::DeviceTypeUnresolved);
            },
        };
        let role = match &value.role {
            Some(role) => role.id,
            None => None,
        };
        let role = match role {
            Some(id) => id,
            None => {
                return Err(PostDeviceError::RoleUnresolved);
            },
        };
        let site = match &value.site {
            Some(site) => site.id,
            None => None,
        };
        let site = match site {
            Some(id) => id,
            None => {
                return Err(PostDeviceError::SiteUnresolved);
            },
        };
        let platform = match &value.platform {
            Some(platform) => match platform.id {
                Some(id) => Some(id),
                None => {
                    return Err(PostDeviceError::PlatformUnresolved);
                },
            },
            None => None,
        };
        let id_tags = match &value.tags {
            Some(tags) => match collect_tag_ids(tags) {
                Some(ids) => ids,
                None => {
                    return Err(PostDeviceError::TagUnresolved);
                },
            },
            None => {
                proof {
                    assert(tag_ids(Seq::<TagView>::empty()) =~= Seq::<u32>::empty());
                }
                Vec::new()
            },
        };
        let status = match value.status {
            Some(status) => status.value,
            None => {
                return Err(PostDeviceError::StatusMissing);
            },
        };
        Ok(
            PostDevice {
                name: value.name,
                id: value.id,
                device_type,
                role,
                site,
                status,
                serial: value.serial,
                platform,
                tags: id_tags,
            },
        )
    }
}

/// The conversion makes a list of its own, so what it gives is stated of its
/// view, by the contract of `try_from`, and not as an equation between values.
impl TryFromSpecImpl<Device> for PostDevice {
    open spec fn obeys_try_from_spec() -> bool {
        false
    }

    open spec fn try_from_spec(value: Device) -> Result<Self, PostDeviceError> {
        arbitrary()
    }
}

/// Whether every part that the device refers to carries its identifier: the
/// device type, the role and the site, which it must have; the platform, if
/// it has one; and every tag.
pub open spec fn components_resolved(device: DeviceView) -> bool {
    &&& device_type_id(device.device_type) is Some
    &&& named_id(device.role) is Some
    &&& named_id(device.site) is Some
    &&& device.platform is Some ==> named_id(device.platform) is Some
    &&& tags_resolved(tags_of(device))
}

/// A device can be submitted exactly when every part that it refers to is
/// resolved and it has a status; and its submission then names every one of
/// them.
pub proof fn lemma_postable_when_resolved(device: DeviceView)
    ensures
        postable(device) is Ok <==> components_resolved(device) && device.status is Some,
        postable(device) matches Ok(post) ==> (post.platform is Some <==> device.platform is Some)
            && post.tags.len() == tags_of(device).len() && forall|i: int|
            0 <= i < post.tags.len() ==> Some(#[trigger] post.tags[i]) == tags_of(device)[i].id,
{
}

/// A device with an unresolved part is not submitted, whichever part it is.
pub proof fn lemma_unresolved_is_not_postable(device: DeviceView)
    requires
        !components_resolved(device),
    ensures
        postable(device) is Err,
        postable(device) != Err::<PostDeviceView, PostDeviceError>(PostDeviceError::StatusMissing),
{
}

} // verus!
