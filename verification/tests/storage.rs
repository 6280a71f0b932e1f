use near_macros::StorageKey;

#[test]
fn storage_keys_have_their_texts() {
    assert_eq!(StorageKey::Roles.to_string(), "rol");
    assert_eq!(StorageKey::Records.to_string(), "records");
    assert_eq!(StorageKey::AdminRole("minter".to_string()).to_string(), "minteradm");
    assert_eq!(StorageKey::RoleData("minter".to_string()).to_string(), "minterdata");
    assert_eq!(StorageKey::AdminRole(String::new()).to_string(), "adm");
    assert_eq!(StorageKey::RoleData(String::new()).to_string(), "data");
}

#[test]
fn storage_keys_as_bytes() {
    assert_eq!(StorageKey::Roles.into_bytes(), b"rol".to_vec());
    assert_eq!(StorageKey::Records.into_bytes(), b"records".to_vec());
    assert_eq!(StorageKey::AdminRole("minter".to_string()).into_bytes(), b"minteradm".to_vec());
    assert_eq!(StorageKey::RoleData("minter".to_string()).into_bytes(), b"minterdata".to_vec());
    assert_eq!(
        StorageKey::RoleData("r\u{f4}le".to_string()).into_bytes(),
        vec![0x72, 0xc3, 0xb4, 0x6c, 0x65, 0x64, 0x61, 0x74, 0x61]
    );
}

#[test]
fn regions_of_one_role_do_not_collide() {
    let role = "minter".to_string();
    assert_ne!(
        StorageKey::AdminRole(role.clone()).into_bytes(),
        StorageKey::RoleData(role.clone()).into_bytes()
    );
}
