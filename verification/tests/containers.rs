use safe_nd::keypair::Keypair;
use safe_nd::mutable_data::{
    MutableData, MutableDataKind, MutableDataRef, Permission, PermissionSet, User, Value,
};
use safe_nd::public_key::PublicKey;
use safe_nd::xor_name::XorName;
use safe_nd::Error;

fn fresh_key() -> PublicKey {
    Keypair::new_bls().public_key()
}

fn empty_sequenced(owner: &PublicKey) -> MutableData {
    MutableData::new(
        XorName([3u8; 32]),
        1,
        MutableDataKind::Sequenced { data: Vec::new() },
        Vec::new(),
        vec![owner.clone()],
    )
    .unwrap()
}

fn empty_unsequenced(owner: &PublicKey) -> MutableData {
    MutableData::new(
        XorName([4u8; 32]),
        2,
        MutableDataKind::Unsequenced { data: Vec::new() },
        Vec::new(),
        vec![owner.clone()],
    )
    .unwrap()
}

fn only(permission: Permission) -> PermissionSet {
    let mut set = PermissionSet::empty();
    match permission {
        Permission::Read => set.read = true,
        Permission::Insert => set.insert = true,
        Permission::Update => set.update = true,
        Permission::Delete => set.delete = true,
        Permission::ManagePermissions => set.manage_permissions = true,
    }
    set
}

#[test]
fn exactly_one_owner_is_required() {
    let owner1 = fresh_key();
    let owner2 = fresh_key();
    let make = |owners: Vec<PublicKey>| {
        MutableData::new(
            XorName([0u8; 32]),
            0,
            MutableDataKind::Unsequenced { data: Vec::new() },
            Vec::new(),
            owners,
        )
    };
    assert!(matches!(make(Vec::new()), Err(Error::InvalidOwner)));
    assert!(matches!(make(vec![owner1.clone(), owner2]), Err(Error::InvalidOwner)));
    let md = make(vec![owner1.clone()]).unwrap();
    assert_eq!(md.owners(), &owner1);
    assert_eq!(md.version(), 0);
    assert_eq!(md.tag(), 0);
}

#[test]
fn permission_mutation_by_stranger_is_rejected() {
    let owner = fresh_key();
    let stranger = fresh_key();
    let target = fresh_key();
    let mut md = empty_sequenced(&owner);
    let result = md.set_user_permissions(
        &stranger,
        User::Key(target),
        only(Permission::Insert),
        1,
    );
    assert_eq!(result, Err(Error::AccessDenied));
    assert_eq!(md.version(), 0);
    assert_eq!(md.permission_history().len(), 0);
}

#[test]
fn permission_mutation_records_history() {
    let owner = fresh_key();
    let app = fresh_key();
    let mut md = empty_sequenced(&owner);
    let result = md.set_user_permissions(
        &owner,
        User::Key(app.clone()),
        only(Permission::Insert),
        1,
    );
    assert_eq!(result, Ok(()));
    assert_eq!(md.version(), 1);
    assert_eq!(md.permission_history().len(), 1);
    let record = &md.permission_history()[0];
    assert_eq!(record.data_index, 0);
    assert_eq!(record.owner_entry_index, 0);
    assert_eq!(record.permissions.len(), 1);
    assert_eq!(md.user_permissions(&User::Key(app)), Some(only(Permission::Insert)));
}

#[test]
fn manage_permissions_key_may_mutate_permissions() {
    let owner = fresh_key();
    let manager = fresh_key();
    let app = fresh_key();
    let mut md = empty_sequenced(&owner);
    assert_eq!(
        md.set_user_permissions(
            &owner,
            User::Key(manager.clone()),
            only(Permission::ManagePermissions),
            1,
        ),
        Ok(()),
    );
    assert_eq!(
        md.set_user_permissions(&manager, User::Key(app), only(Permission::Read), 2),
        Ok(()),
    );
    assert_eq!(md.version(), 2);
}

#[test]
fn version_must_be_the_successor() {
    let owner = fresh_key();
    let app = fresh_key();
    let mut md = empty_sequenced(&owner);
    for wrong in [0u64, 2, 5] {
        let result = md.set_user_permissions(
            &owner,
            User::Key(app.clone()),
            only(Permission::Insert),
            wrong,
        );
        assert_eq!(result, Err(Error::InvalidVersion));
        assert_eq!(md.version(), 0);
    }
}

#[test]
fn change_owner_updates_indices_and_history() {
    let owner = fresh_key();
    let next_owner = fresh_key();
    let stranger = fresh_key();
    let mut md = empty_sequenced(&owner);
    assert_eq!(
        md.change_owner(&stranger, next_owner.clone(), 1),
        Err(Error::AccessDenied)
    );
    assert_eq!(md.change_owner(&owner, next_owner.clone(), 1), Ok(()));
    assert_eq!(md.owners(), &next_owner);
    assert_eq!(md.version(), 1);
    assert_eq!(md.owner_entry_index(), 1);
    assert_eq!(md.permission_history().len(), 1);
    assert_eq!(md.permission_history()[0].owner_entry_index, 0);
    // The previous owner has lost its standing.
    assert_eq!(
        md.change_owner(&owner, fresh_key(), 2),
        Err(Error::AccessDenied)
    );
}

#[test]
fn sequenced_insert_flow() {
    let owner = fresh_key();
    let app = fresh_key();
    let mut md = empty_sequenced(&owner);

    // An insert by a key that holds no permissions is rejected.
    let denied = md.insert_entry(&app, "greeting".to_string(), b"hi".to_vec());
    assert_eq!(denied, Err(Error::AccessDenied));
    assert_eq!(md.version(), 0);

    // The owner grants Insert; the container version moves 0 to 1.
    assert_eq!(
        md.set_user_permissions(&owner, User::Key(app.clone()), only(Permission::Insert), 1),
        Ok(()),
    );
    assert_eq!(md.version(), 1);

    // The retried insert succeeds; the container version stays at 1 and
    // the entry's own version has risen to 1 instead.
    assert_eq!(md.insert_entry(&app, "greeting".to_string(), b"hi".to_vec()), Ok(()));
    assert_eq!(md.version(), 1);
    match md.data() {
        MutableDataKind::Sequenced { data } => {
            assert_eq!(data.len(), 1);
            assert_eq!(data[0].0, "greeting");
            assert_eq!(data[0].1, Value { data: b"hi".to_vec(), version: 1 });
        }
        _ => panic!("expected a sequenced container"),
    }
}

#[test]
fn sequenced_update_bumps_entry_version_only() {
    let owner = fresh_key();
    let app = fresh_key();
    let mut md = empty_sequenced(&owner);
    let mut set = PermissionSet::empty();
    set.insert = true;
    set.update = true;
    set.delete = true;
    assert_eq!(md.set_user_permissions(&owner, User::Key(app.clone()), set, 1), Ok(()));

    assert_eq!(
        md.update_entry(&app, &"k".to_string(), b"v1".to_vec()),
        Err(Error::NoSuchEntry)
    );
    assert_eq!(md.insert_entry(&app, "k".to_string(), b"v0".to_vec()), Ok(()));
    assert_eq!(
        md.insert_entry(&app, "k".to_string(), b"again".to_vec()),
        Err(Error::EntryExists)
    );
    assert_eq!(md.update_entry(&app, &"k".to_string(), b"v1".to_vec()), Ok(()));
    match md.data() {
        MutableDataKind::Sequenced { data } => {
            assert_eq!(data[0].1, Value { data: b"v1".to_vec(), version: 2 });
        }
        _ => panic!("expected a sequenced container"),
    }
    assert_eq!(md.version(), 1);

    assert_eq!(md.delete_entry(&app, &"k".to_string()), Ok(()));
    assert_eq!(
        md.delete_entry(&app, &"k".to_string()),
        Err(Error::NoSuchEntry)
    );
    match md.data() {
        MutableDataKind::Sequenced { data } => assert_eq!(data.len(), 0),
        _ => panic!("expected a sequenced container"),
    }
}

#[test]
fn unsequenced_entries_carry_no_versions() {
    let owner = fresh_key();
    let mut md = empty_unsequenced(&owner);
    let mut anyone_may_write = PermissionSet::empty();
    anyone_may_write.insert = true;
    anyone_may_write.update = true;
    assert_eq!(
        md.set_user_permissions(&owner, User::Anyone, anyone_may_write, 1),
        Ok(()),
    );
    let passerby = fresh_key();
    assert_eq!(md.insert_entry(&passerby, "k".to_string(), b"v0".to_vec()), Ok(()));
    assert_eq!(md.update_entry(&passerby, &"k".to_string(), b"v1".to_vec()), Ok(()));
    // Anyone-level grants do not extend to actions that were not granted.
    assert_eq!(
        md.delete_entry(&passerby, &"k".to_string()),
        Err(Error::AccessDenied)
    );
    match md.data() {
        MutableDataKind::Unsequenced { data } => {
            assert_eq!(data.len(), 1);
            assert_eq!(data[0].1, b"v1".to_vec());
        }
        _ => panic!("expected an unsequenced container"),
    }
    assert_eq!(md.version(), 1);
}

#[test]
fn data_ops_require_their_own_permission() {
    let owner = fresh_key();
    let reader = fresh_key();
    let mut md = empty_sequenced(&owner);
    assert_eq!(
        md.set_user_permissions(&owner, User::Key(reader.clone()), only(Permission::Read), 1),
        Ok(()),
    );
    assert!(md.is_action_allowed(&reader, Permission::Read));
    assert!(!md.is_action_allowed(&reader, Permission::Insert));
    // The owner holds no data permission unless granted one.
    assert_eq!(
        md.insert_entry(&owner, "k".to_string(), b"v".to_vec()),
        Err(Error::AccessDenied)
    );
}

#[test]
fn mutable_data_ref_is_a_pure_value() {
    let name = XorName([7u8; 32]);
    let data_ref = MutableDataRef::new(name, 42);
    assert_eq!(data_ref.name(), name);
    assert_eq!(data_ref.tag(), 42);
    let copy = data_ref;
    assert_eq!(copy, data_ref);
}
