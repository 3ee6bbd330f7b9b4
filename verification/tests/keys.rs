use netbox_ingester::consolidate::normalize_mac;
use netbox_ingester::netbox::models::{
    Contact, Device, DeviceRole, DeviceType, Manufacturer, NetBoxIp4, NetBoxModel, Platform, Site,
    Tag,
};
use netbox_ingester::utils::{extract_vec, normalize_name, sanitize_slug};

#[test]
fn slug_of_company_name() {
    assert_eq!(sanitize_slug("Dell Inc."), "dell-inc");
}

#[test]
fn slug_collapses_runs_and_trims() {
    assert_eq!(sanitize_slug("  multi   space--name_"), "multi-space-name");
}

#[test]
fn slug_of_empty_is_empty() {
    assert_eq!(sanitize_slug(""), "");
    assert_eq!(sanitize_slug("   "), "");
    assert_eq!(sanitize_slug("--__--"), "");
}

#[test]
fn slug_turns_every_separator_run_into_one_hyphen() {
    assert_eq!(sanitize_slug("a.b"), "a-b");
    assert_eq!(sanitize_slug("Latitude 5520 (2021)"), "latitude-5520-2021");
    assert_eq!(sanitize_slug("x__y--z  w"), "x-y-z-w");
    assert_eq!(sanitize_slug("(leading"), "leading");
    assert_eq!(sanitize_slug("trailing)"), "trailing");
}

#[test]
fn slug_keeps_ascii_letters_and_digits_only() {
    assert_eq!(sanitize_slug("Caf\u{e9} 24"), "caf-24");
    assert_eq!(sanitize_slug("ABC-xyz-019"), "abc-xyz-019");
}

#[test]
fn slug_is_idempotent() {
    let samples = [
        "Dell Inc.",
        "  multi   space--name_",
        "",
        "a",
        "-",
        "A--B",
        "Latitude 5520 (2021)",
        "Caf\u{e9}",
        "already-a-slug",
        "UPPER lower 123",
    ];
    for sample in samples {
        let once = sanitize_slug(sample);
        let twice = sanitize_slug(&once);
        assert_eq!(once, twice);
    }
}

#[test]
fn slug_of_joined_texts_is_made_of_their_slugs() {
    let cases = [("Dell ", "Inc."), ("Dell", " Inc."), ("De", "ll"), ("--", "x"), ("x", "--"), ("", ""), ("a-", "-b")];
    for (a, b) in cases {
        let (left, right) = (sanitize_slug(a), sanitize_slug(b));
        let whole = sanitize_slug(&format!("{}{}", a, b));
        let separated = a.ends_with(|c: char| !c.is_ascii_alphanumeric())
            || b.starts_with(|c: char| !c.is_ascii_alphanumeric());
        let expected = if right.is_empty() {
            left
        } else if left.is_empty() {
            right
        } else if separated {
            format!("{}-{}", left, right)
        } else {
            format!("{}{}", left, right)
        };
        assert_eq!(whole, expected);
    }
}

#[test]
fn slug_ignores_case() {
    assert_eq!(sanitize_slug("HOST One"), sanitize_slug("host one"));
}

#[test]
fn name_is_folded_to_lower_case() {
    assert_eq!(normalize_name("HOST-1"), "host-1");
    assert_eq!(normalize_name("host-1"), "host-1");
    assert_eq!(normalize_name("MiXed_Name 9"), "mixed_name 9");
    assert_eq!(normalize_name(""), "");
}

#[test]
fn mac_is_reduced_to_hex_digits() {
    assert_eq!(normalize_mac("AA:BB:CC:00:11:22"), "aabbcc001122");
    assert_eq!(normalize_mac("aa-bb-cc-00-11-22"), "aabbcc001122");
    assert_eq!(normalize_mac("aabb.cc00.1122"), "aabbcc001122");
    assert_eq!(normalize_mac("zz"), "");
}

#[test]
fn extract_vec_keeps_what_was_fetched() {
    let fetched: Result<Result<Vec<u32>, String>, String> = Ok(Ok(vec![1, 2, 3]));
    assert_eq!(extract_vec(fetched), vec![1, 2, 3]);
}

#[test]
fn extract_vec_of_failed_source_is_empty() {
    let failed: Result<Result<Vec<u32>, String>, String> = Ok(Err("boom".to_string()));
    assert_eq!(extract_vec(failed), Vec::<u32>::new());
    let panicked: Result<Result<Vec<u32>, String>, String> = Err("panic".to_string());
    assert_eq!(extract_vec(panicked), Vec::<u32>::new());
}

#[test]
fn constructors_derive_the_slug() {
    let tag = Tag::new("Reserved DHCP".to_string());
    assert_eq!(tag.id, None);
    assert_eq!(tag.name, "Reserved DHCP");
    assert_eq!(tag.slug, "reserved-dhcp");
    assert_eq!(tag.color, None);
    let site = Site::new("Head Office".to_string());
    assert_eq!((site.id, site.name.as_str(), site.slug.as_str()), (None, "Head Office", "head-office"));
    let role = DeviceRole::new("Desktop".to_string());
    assert_eq!((role.id, role.slug.as_str()), (None, "desktop"));
    let platform = Platform::new("Windows 10.0.19045".to_string());
    assert_eq!(platform.slug, "windows-10-0-19045");
    let maker = Manufacturer::new("Dell Inc.".to_string());
    assert_eq!(maker.slug, "dell-inc");
    let ip = NetBoxIp4::new("10.0.0.1/24".to_string());
    assert_eq!((ip.id, ip.address.as_str()), (None, "10.0.0.1/24"));
    let device_type = DeviceType::new(maker.clone(), "Latitude 5520".to_string());
    assert_eq!(device_type.id, None);
    assert_eq!(device_type.slug, "latitude-5520");
    assert_eq!(device_type.manufacturer, maker);
}

#[test]
fn cache_keys_by_kind() {
    let maker = Manufacturer::new("Dell Inc.".to_string());
    assert_eq!(maker.get_cache_key(), "dell-inc");
    let device_type = DeviceType::new(maker, "Latitude 5520".to_string());
    assert_eq!(device_type.get_cache_key(), "dell-inc--latitude-5520");
    assert_eq!(device_type.get_slug(), "latitude-5520");
    let platform = Platform::new("Windows 11".to_string());
    assert_eq!(platform.get_cache_key(), "windows 11");
    assert_eq!(platform.get_slug(), "windows-11");
    let with_mail = Contact {
        id: None,
        name: "Ada Lovelace".to_string(),
        email: Some("Ada@Example.ORG".to_string()),
        title: None,
    };
    assert_eq!(with_mail.get_cache_key(), "ada@example.org");
    let without_mail = Contact { id: None, name: "Ada Lovelace".to_string(), email: None, title: None };
    assert_eq!(without_mail.get_cache_key(), "ada-lovelace");
    let ip = NetBoxIp4::new("10.0.0.1/24".to_string());
    assert_eq!(ip.get_cache_key(), "10-0-0-1-24");
}

#[test]
fn device_key_is_the_lower_case_name() {
    let device = Device {
        name: "HOST-1".to_string(),
        id: None,
        device_type: None,
        role: None,
        site: None,
        status: None,
        serial: None,
        platform: None,
        primary_ip4: None,
        tags: None,
    };
    assert_eq!(device.get_cache_key(), "host-1");
    assert_eq!(device.get_slug(), "host-1");
}

#[test]
fn endpoints_by_kind() {
    assert_eq!(Tag::get_endpoint(), "extras/tags");
    assert_eq!(Site::get_endpoint(), "dcim/sites");
    assert_eq!(NetBoxIp4::get_endpoint(), "ipam/ip-addresses");
    assert_eq!(Device::get_endpoint(), "dcim/devices");
    assert_eq!(Platform::get_endpoint(), "dcim/platforms");
    assert_eq!(DeviceRole::get_endpoint(), "dcim/device-roles");
    assert_eq!(DeviceType::get_endpoint(), "dcim/device-types");
    assert_eq!(Manufacturer::get_endpoint(), "dcim/manufacturers");
    assert_eq!(Contact::get_endpoint(), "tenancy/contacts");
}

#[test]
fn set_id_changes_the_identifier_only() {
    let mut tag = Tag::new("AAD".to_string());
    let key = tag.get_cache_key();
    tag.set_id(7);
    assert_eq!(tag.get_id(), Some(7));
    assert_eq!(tag.get_cache_key(), key);
    assert_eq!(tag.name, "AAD");
}
