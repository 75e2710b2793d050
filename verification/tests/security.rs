use tipsy::unix;
use tipsy::win;

#[test]
fn test_allow_everyone_everything() {
    win::SecurityAttributes::allow_everyone_create()
        .expect("failed to create security attributes that allow everyone to create a pipe");
}

#[test]
fn test_allow_eveyone_read_write() {
    win::SecurityAttributes::empty().allow_everyone_connect().expect(
        "failed to create security attributes that allow everyone to read and write to/from a \
         pipe",
    );
}

#[test]
fn unix_empty_is_owner_only() {
    let sa = unix::SecurityAttributes::empty();
    assert_eq!(sa.mode, Some(0o600));
}

#[test]
fn unix_allow_everyone_connect_is_0666() {
    let sa = unix::SecurityAttributes::empty()
        .allow_everyone_connect()
        .unwrap();
    assert_eq!(sa.mode, Some(0o666));
}

#[test]
fn unix_set_mode_keeps_exact_bits() {
    let sa = unix::SecurityAttributes::empty().set_mode(0o640).unwrap();
    assert_eq!(sa.mode, Some(0o640));
}

#[test]
fn unix_allow_everyone_create_applies_nothing() {
    let sa = unix::SecurityAttributes::allow_everyone_create().unwrap();
    assert_eq!(sa.mode, None);
    assert_eq!(sa.mode_to_apply(), None);
}

#[test]
fn win_empty_is_os_default() {
    let sa = win::SecurityAttributes::empty();
    assert!(sa.is_os_default());
    assert_eq!(sa.everyone_mask(), None);
}

#[test]
fn win_allow_everyone_connect_grants_read_and_write_data() {
    let sa = win::SecurityAttributes::empty()
        .allow_everyone_connect()
        .unwrap();
    assert!(!sa.is_os_default());
    assert_eq!(
        sa.everyone_mask(),
        Some(win::GENERIC_READ | win::FILE_WRITE_DATA)
    );
    assert_eq!(sa.everyone_mask(), Some(0x8000_0001));
}

#[test]
fn win_allow_everyone_create_grants_generic_read_write() {
    let sa = win::SecurityAttributes::allow_everyone_create().unwrap();
    assert_eq!(
        sa.everyone_mask(),
        Some(win::GENERIC_READ | win::GENERIC_WRITE)
    );
    assert_eq!(sa.everyone_mask(), Some(0xC000_0000));
}

#[test]
fn win_set_mode_has_no_effect() {
    let sa = win::SecurityAttributes::allow_everyone_create().unwrap();
    let before = sa.everyone_mask();
    let sa = sa.set_mode(0o777).unwrap();
    assert_eq!(sa.everyone_mask(), before);

    let default = win::SecurityAttributes::empty().set_mode(0o123).unwrap();
    assert!(default.is_os_default());
}

#[test]
fn win_everyone_chain_has_single_exact_entry() {
    let sa = win::SecurityAttributes::allow_everyone_create().unwrap();
    let inner = sa.attributes.as_ref().unwrap();
    assert!(!inner.inherit_handle);
    assert_eq!(inner.descriptor.revision, win::SECURITY_DESCRIPTOR_REVISION);
    let acl = inner.descriptor.dacl.as_ref().unwrap();
    assert_eq!(acl.entries.len(), 1);
    let ace = &acl.entries[0];
    assert_eq!(ace.sid.authority, win::SECURITY_WORLD_SID_AUTHORITY);
    assert_eq!(ace.sid.sub_authority, win::SECURITY_WORLD_RID);
    assert_eq!(ace.trustee_form, win::TRUSTEE_IS_SID);
    assert_eq!(ace.trustee_type, win::TRUSTEE_IS_WELL_KNOWN_GROUP);
    assert_eq!(ace.access_mode, win::SET_ACCESS);
    assert_eq!(ace.inheritance, 0);
    assert_eq!(ace.access_permissions, 0xC000_0000);
}
