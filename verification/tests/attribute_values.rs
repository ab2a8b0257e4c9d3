use nfs41server::nfs::api::{
    NfsAttribute, NfsAttributes, NfsExpirationPolicy, NfsFh, NfsFileSystemId, NfsFileType,
};
use nfs41server::nfs::attrs::values_to_protocol;

/// An object with the attributes every object has, and no other.
fn plain_object() -> NfsAttributes {
    NfsAttributes {
        supported_attributes: vec![NfsAttribute::SupportedAttributes, NfsAttribute::FileType],
        file_type: NfsFileType::Directory,
        expiration_policy: NfsExpirationPolicy::Persistent,
        changed: 7,
        size: 10,
        link_support: true,
        symlink_support: true,
        named_attributes: false,
        file_system_id: NfsFileSystemId { major: 1, minor: 2 },
        unique_handles: true,
        lease_time: 90,
        file_handle: NfsFh::new(vec![1, 2, 3, 4]).unwrap(),
        exclusive_create_attributes: vec![],
        acl: None,
        acl_support: None,
        archive: None,
        can_set_time: None,
        case_insensitive: None,
        case_preserving: None,
        change_policy: None,
        chown_restricted: None,
        dacl: None,
        directory_notification_delay: None,
        directory_entry_notification_delay: None,
        file_id: None,
        files_available: None,
        files_free: None,
        files_total: None,
        file_system_charset_abilities: None,
        file_system_layout_type: None,
        file_system_locations: None,
        file_system_locations_info: None,
        file_system_status: None,
        hidden: None,
        homogeneous: None,
        layout_alignment: None,
        layout_block_size: None,
        layout_hint: None,
        layout_type: None,
        max_file_size: None,
        max_links: None,
        max_name_length: None,
        max_read_length: None,
        max_write_length: None,
        mime_type: None,
        mode: None,
        mode_set_masked: None,
        mounted_on_file_id: None,
        no_truncation: None,
        num_links: None,
        owner: None,
        owner_group: None,
        quota_available_hard: None,
        quota_available_soft: None,
        quota_used: None,
        raw_device: None,
        sacl: None,
        file_system_space_available: None,
        file_system_space_free: None,
        file_system_space_total: None,
        file_system_space_used: None,
        is_system_file: None,
        time_access: None,
        set_time_access: None,
        time_backup: None,
        time_create: None,
        time_delta: None,
        time_metadata: None,
        time_modify: None,
        set_time_modify: None,
    }
}

fn words(ws: &[u32]) -> Vec<u8> {
    ws.iter().flat_map(|w| w.to_be_bytes()).collect()
}

#[test]
fn requested_values_come_in_order_of_their_numbers() {
    let mut values = plain_object();
    values.mode = Some(0o755);
    let requested = vec![
        NfsAttribute::Mode,
        NfsAttribute::Size,
        NfsAttribute::Archive,
        NfsAttribute::FileType,
    ];
    let fa = values_to_protocol(requested, values).unwrap();
    // FileType is bit 1 and Size bit 4 of the first word; Mode is bit 1 of
    // the second; Archive has no value and is left out.
    assert_eq!(fa.mask, vec![0b1_0010, 0b10, 0]);
    let mut expected = words(&[2]);
    expected.extend_from_slice(&10u64.to_be_bytes());
    expected.extend(words(&[0o755]));
    assert_eq!(fa.attrs, expected);
}

#[test]
fn no_requested_attributes_give_an_empty_answer() {
    let fa = values_to_protocol(vec![], plain_object()).unwrap();
    assert_eq!(fa.mask, vec![0, 0, 0]);
    assert!(fa.attrs.is_empty());
}

#[test]
fn supported_attributes_are_answered_as_a_bitmap() {
    let fa = values_to_protocol(vec![NfsAttribute::SupportedAttributes], plain_object()).unwrap();
    assert_eq!(fa.mask, vec![1, 0, 0]);
    // a bitmap of one word with bits 0 and 1 set
    assert_eq!(fa.attrs, words(&[1, 0b11]));
}

#[test]
fn an_attribute_asked_twice_is_answered_twice() {
    let fa = values_to_protocol(vec![NfsAttribute::LeaseTime, NfsAttribute::LeaseTime], plain_object())
        .unwrap();
    assert_eq!(fa.mask, vec![1 << 10, 0, 0]);
    assert_eq!(fa.attrs, words(&[90, 90]));
}

#[test]
fn booleans_and_handles_are_answered() {
    let fa = values_to_protocol(
        vec![NfsAttribute::FileHandle, NfsAttribute::NamedAttributes, NfsAttribute::LinkSupport],
        plain_object(),
    )
    .unwrap();
    assert_eq!(fa.mask, vec![(1 << 19) | (1 << 7) | (1 << 5), 0, 0]);
    // link support (true), named attributes (false, written as two), then
    // the handle with its length
    assert_eq!(fa.attrs, words(&[1, 2, 4, 0x0102_0304]));
}

#[test]
fn the_supported_attributes_bitmap_reads_back_as_the_list() {
    let mut values = plain_object();
    values.supported_attributes =
        vec![NfsAttribute::Mode, NfsAttribute::FileType, NfsAttribute::Size, NfsAttribute::Mode];
    let fa = values_to_protocol(vec![NfsAttribute::SupportedAttributes], values).unwrap();
    // a bitmap of two words
    assert_eq!(fa.attrs, words(&[2, 0b1_0010, 0b10]));
    let back = nfs41server::nfs::attrs::protocol_to_api(&[0b1_0010, 0b10]);
    assert_eq!(back, vec![NfsAttribute::FileType, NfsAttribute::Size, NfsAttribute::Mode]);
}

#[test]
fn the_order_of_the_request_does_not_matter() {
    let mut values = plain_object();
    values.mode = Some(0o644);
    let a = values_to_protocol(
        vec![NfsAttribute::Mode, NfsAttribute::Size, NfsAttribute::FileType],
        values.clone(),
    )
    .unwrap();
    let b = values_to_protocol(
        vec![NfsAttribute::FileType, NfsAttribute::Mode, NfsAttribute::Size],
        values,
    )
    .unwrap();
    assert_eq!(a.mask, b.mask);
    assert_eq!(a.attrs, b.attrs);
}

#[test]
fn default_attributes_are_those_of_an_empty_regular_file() {
    let d = NfsAttributes::default();
    assert!(d.supported_attributes.is_empty());
    assert!(matches!(d.file_type, NfsFileType::Regular));
    assert_eq!(d.size, 0);
    assert_eq!(d.lease_time, 0);
    assert!(d.file_handle.as_bytes().is_empty());
    assert!(d.mode.is_none() && d.owner.is_none());
}
