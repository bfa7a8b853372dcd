//! The versioned, permissioned mutable-data container.

use vstd::prelude::*;
use crate::public_key::{PublicKey, PublicKeyView};
use crate::xor_name::XorName;
use crate::Error;

verus! {

/// First-match lookup in an association sequence.
pub open spec fn spec_get<K, V>(s: Seq<(K, V)>, k: K) -> Option<V>
    decreases s.len(),
{
    if s.len() == 0 {
        None
    } else if s[0].0 == k {
        Some(s[0].1)
    } else {
        spec_get(s.drop_first(), k)
    }
}

/// Updating the first entry that holds `k` changes the value looked up
/// under `k` and no other.
proof fn lemma_spec_get_update<K, V>(s: Seq<(K, V)>, i: int, k: K, v: V)
    requires
        0 <= i < s.len(),
        s[i].0 == k,
        forall|j: int| 0 <= j < i ==> s[j].0 != k,
    ensures
        spec_get(s.update(i, (k, v)), k) == Some(v),
        forall|k2: K| k2 != k ==> spec_get(s.update(i, (k, v)), k2) == spec_get(s, k2),
        s.update(i, (k, v)).len() == s.len(),
    decreases s.len(),
{
    if i == 0 {
        assert(s.update(0, (k, v))[0] == (k, v));
        assert forall|k2: K| k2 != k implies spec_get(s.update(0, (k, v)), k2) == spec_get(
            s,
            k2,
        ) by {
            assert(s.update(0, (k, v)).drop_first() =~= s.drop_first());
        }
    } else {
        lemma_spec_get_update(s.drop_first(), i - 1, k, v);
        assert(s.update(i, (k, v)).drop_first() =~= s.drop_first().update(i - 1, (k, v)));
        assert(s.update(i, (k, v))[0] == s[0]);
        assert forall|k2: K| k2 != k implies spec_get(s.update(i, (k, v)), k2) == spec_get(
            s,
            k2,
        ) by {
            if s[0].0 != k2 {
                assert(spec_get(s.update(i, (k, v)), k2) == spec_get(
                    s.drop_first().update(i - 1, (k, v)),
                    k2,
                ));
                assert(spec_get(s, k2) == spec_get(s.drop_first(), k2));
            } else {
                assert(spec_get(s.update(i, (k, v)), k2) == Some(s[0].1));
                assert(spec_get(s, k2) == Some(s[0].1));
            }
        }
        assert(s[0].0 != k);
        assert(spec_get(s.update(i, (k, v)), k) == spec_get(s.drop_first().update(i - 1, (k, v)), k));
    }
}

/// Appending an entry under an absent key makes it found under that key
/// and changes no other lookup.
proof fn lemma_spec_get_push<K, V>(s: Seq<(K, V)>, k: K, v: V)
    requires
        spec_get(s, k) is None,
    ensures
        spec_get(s.push((k, v)), k) == Some(v),
        forall|k2: K| k2 != k ==> spec_get(s.push((k, v)), k2) == spec_get(s, k2),
    decreases s.len(),
{
    if s.len() == 0 {
        assert(s.push((k, v)).drop_first() =~= Seq::<(K, V)>::empty());
        assert forall|k2: K| k2 != k implies spec_get(s.push((k, v)), k2) == spec_get(s, k2) by {
            assert(spec_get(s.push((k, v)), k2) == spec_get(s.push((k, v)).drop_first(), k2));
        }
    } else {
        lemma_spec_get_push(s.drop_first(), k, v);
        assert(s.push((k, v)).drop_first() =~= s.drop_first().push((k, v)));
        assert(s.push((k, v))[0] == s[0]);
        assert forall|k2: K| k2 != k implies spec_get(s.push((k, v)), k2) == spec_get(s, k2) by {
            if s[0].0 != k2 {
                assert(spec_get(s.push((k, v)), k2) == spec_get(s.drop_first().push((k, v)), k2));
                assert(spec_get(s, k2) == spec_get(s.drop_first(), k2));
            } else {
                assert(spec_get(s.push((k, v)), k2) == Some(s[0].1));
                assert(spec_get(s, k2) == Some(s[0].1));
            }
        }
        assert(s[0].0 != k);
        assert(spec_get(s.push((k, v)), k) == spec_get(s.drop_first().push((k, v)), k));
    }
}

/// Removing the first entry that holds `k` leaves `k` unbound when it was
/// the only one, and changes no other lookup.
proof fn lemma_spec_get_remove<K, V>(s: Seq<(K, V)>, i: int, k: K)
    requires
        0 <= i < s.len(),
        s[i].0 == k,
        forall|j: int| 0 <= j < s.len() && j != i ==> s[j].0 != k,
    ensures
        spec_get(s.remove(i), k) is None,
        forall|k2: K| k2 != k ==> spec_get(s.remove(i), k2) == spec_get(s, k2),
    decreases s.len(),
{
    if i == 0 {
        assert(s.remove(0) =~= s.drop_first());
        lemma_spec_get_absent(s.drop_first(), k);
    } else {
        lemma_spec_get_remove(s.drop_first(), i - 1, k);
        assert(s.remove(i).drop_first() =~= s.drop_first().remove(i - 1));
        assert(s.remove(i)[0] == s[0]);
        assert forall|k2: K| k2 != k implies spec_get(s.remove(i), k2) == spec_get(s, k2) by {
            if s[0].0 != k2 {
                assert(spec_get(s.remove(i), k2) == spec_get(s.drop_first().remove(i - 1), k2));
                assert(spec_get(s, k2) == spec_get(s.drop_first(), k2));
            } else {
                assert(spec_get(s.remove(i), k2) == Some(s[0].1));
                assert(spec_get(s, k2) == Some(s[0].1));
            }
        }
        assert(s[0].0 != k);
        assert(spec_get(s.remove(i), k) == spec_get(s.drop_first().remove(i - 1), k));
    }
}

/// A key that no entry holds is not found.
proof fn lemma_spec_get_absent<K, V>(s: Seq<(K, V)>, k: K)
    requires
        forall|j: int| 0 <= j < s.len() ==> s[j].0 != k,
    ensures
        spec_get(s, k) is None,
    decreases s.len(),
{
    if s.len() > 0 {
        lemma_spec_get_absent(s.drop_first(), k);
    }
}

/// A key that is not found is held by no entry.
proof fn lemma_spec_get_none_absent<K, V>(s: Seq<(K, V)>, k: K)
    requires
        spec_get(s, k) is None,
    ensures
        forall|j: int| 0 <= j < s.len() ==> s[j].0 != k,
    decreases s.len(),
{
    if s.len() > 0 {
        lemma_spec_get_none_absent(s.drop_first(), k);
        assert forall|j: int| 0 <= j < s.len() implies s[j].0 != k by {
            if j > 0 {
                assert(s.drop_first()[j - 1] == s[j]);
            }
        }
    }
}

/// The first matching entry decides the lookup.
proof fn lemma_spec_get_first_match<K, V>(s: Seq<(K, V)>, i: int)
    requires
        0 <= i < s.len(),
        forall|j: int| 0 <= j < i ==> s[j].0 != s[i].0,
    ensures
        spec_get(s, s[i].0) == Some(s[i].1),
    decreases s.len(),
{
    if i > 0 {
        lemma_spec_get_first_match(s.drop_first(), i - 1);
    }
}

/// No two entries hold the same key.
pub open spec fn keys_unique<K, V>(s: Seq<(K, V)>) -> bool {
    forall|i: int, j: int| 0 <= i < j < s.len() ==> s[i].0 != s[j].0
}

/// Appending an entry under a fresh key keeps the keys distinct.
proof fn lemma_unique_push<K, V>(s: Seq<(K, V)>, k: K, v: V)
    requires
        keys_unique(s),
        spec_get(s, k) is None,
    ensures
        keys_unique(s.push((k, v))),
{
    lemma_spec_get_none_absent(s, k);
    let s2 = s.push((k, v));
    assert forall|a: int, b: int| 0 <= a < b < s2.len() implies s2[a].0 != s2[b].0 by {
        if b == s.len() as int {
            assert(s2[a] == s[a]);
            assert(s2[b] == (k, v));
        } else {
            assert(s2[a] == s[a]);
            assert(s2[b] == s[b]);
        }
    }
}

/// Replacing an entry under its own key keeps the keys distinct.
proof fn lemma_unique_update<K, V>(s: Seq<(K, V)>, i: int, k: K, v: V)
    requires
        keys_unique(s),
        0 <= i < s.len(),
        s[i].0 == k,
    ensures
        keys_unique(s.update(i, (k, v))),
{
    let s2 = s.update(i, (k, v));
    assert forall|a: int, b: int| 0 <= a < b < s2.len() implies s2[a].0 != s2[b].0 by {
        assert(s2[a].0 == s[a].0);
        assert(s2[b].0 == s[b].0);
    }
}

/// Removing an entry keeps the keys distinct.
proof fn lemma_unique_remove<K, V>(s: Seq<(K, V)>, i: int)
    requires
        keys_unique(s),
        0 <= i < s.len(),
    ensures
        keys_unique(s.remove(i)),
{
    let s2 = s.remove(i);
    assert forall|a: int, b: int| 0 <= a < b < s2.len() implies s2[a].0 != s2[b].0 by {
        assert(s2[a] == (if a < i { s[a] } else { s[a + 1] }));
        assert(s2[b] == (if b < i { s[b] } else { s[b + 1] }));
    }
}

/// The permissions a user or application may hold over a container.
#[derive(Clone, Copy, PartialEq, Eq, Structural, Hash, Debug)]
pub enum Permission {
    Read,
    Insert,
    Update,
    Delete,
    ManagePermissions,
}

/// The set of permissions granted to one user.
#[derive(Clone, Copy, PartialEq, Eq, Structural, Hash, Debug)]
pub struct PermissionSet {
    pub read: bool,
    pub insert: bool,
    pub update: bool,
    pub delete: bool,
    pub manage_permissions: bool,
}

impl PermissionSet {
    /// Whether this set grants `p`.
    pub open spec fn spec_allows(self, p: Permission) -> bool {
        match p {
            Permission::Read => self.read,
            Permission::Insert => self.insert,
            Permission::Update => self.update,
            Permission::Delete => self.delete,
            Permission::ManagePermissions => self.manage_permissions,
        }
    }

    /// Whether this set grants `p`.
    pub fn allows(&self, p: Permission) -> (r: bool)
        ensures
            r == self.spec_allows(p),
    {
        match p {
            Permission::Read => self.read,
            Permission::Insert => self.insert,
            Permission::Update => self.update,
            Permission::Delete => self.delete,
            Permission::ManagePermissions => self.manage_permissions,
        }
    }

    /// The set that grants nothing.
    pub fn empty() -> (r: PermissionSet)
        ensures
            r == (PermissionSet {
                read: false,
                insert: false,
                update: false,
                delete: false,
                manage_permissions: false,
            }),
    {
        PermissionSet { read: false, insert: false, update: false, delete: false, manage_permissions: false }
    }
}

/// The mathematical value of a [`User`].
pub enum UserView {
    Key(PublicKeyView),
    Anyone,
}

/// Subject of permissions: a single public key, or anyone.
#[derive(Debug)]
pub enum User {
    /// Permissions apply to a single public key.
    Key(PublicKey),
    /// Permissions apply to anyone.
    Anyone,
}

impl View for User {
    type V = UserView;

    open spec fn view(&self) -> UserView {
        match self {
            User::Key(pk) => UserView::Key(pk@),
            User::Anyone => UserView::Anyone,
        }
    }
}

impl PartialEq for User {
    fn eq(&self, other: &User) -> (r: bool) {
        match (self, other) {
            (User::Key(a), User::Key(b)) => a == b,
            (User::Anyone, User::Anyone) => true,
            _ => false,
        }
    }
}

impl vstd::std_specs::cmp::PartialEqSpecImpl for User {
    open spec fn obeys_eq_spec() -> bool {
        true
    }

    open spec fn eq_spec(&self, other: &User) -> bool {
        self@ == other@
    }
}

impl Clone for User {
    fn clone(&self) -> (r: User)
        ensures
            r@ == self@,
    {
        match self {
            User::Key(pk) => User::Key(pk.clone()),
            User::Anyone => User::Anyone,
        }
    }
}

/// The mathematical value of a [`Value`].
pub struct ValueView {
    pub data: Seq<u8>,
    pub version: u64,
}

/// An entry value of a sequenced container: bytes together with the
/// entry's own version counter.
#[derive(Clone, Debug, PartialEq, Eq, Hash)]
pub struct Value {
    /// Actual data.
    pub data: Vec<u8>,
    /// Incremented by exactly one for every change to `data`.
    pub version: u64,
}

impl View for Value {
    type V = ValueView;

    open spec fn view(&self) -> ValueView {
        ValueView { data: self.data@, version: self.version }
    }
}

/// The mathematical value of a [`MutableDataKind`].
pub enum MutableDataKindView {
    Unsequenced { data: Seq<(Seq<char>, Seq<u8>)> },
    Sequenced { data: Seq<(Seq<char>, ValueView)> },
}

/// The key-value payload of a container: sequenced entries carry their own
/// monotonic version, unsequenced entries are bare byte values.
#[derive(Debug)]
pub enum MutableDataKind {
    /// Entries without per-entry versions.
    Unsequenced { data: Vec<(String, Vec<u8>)> },
    /// Entries that each carry their own version.
    Sequenced { data: Vec<(String, Value)> },
}

/// The view of a sequence of unsequenced entries.
pub open spec fn entries_view_u(s: Seq<(String, Vec<u8>)>) -> Seq<(Seq<char>, Seq<u8>)> {
    s.map_values(|e: (String, Vec<u8>)| (e.0@, e.1@))
}

/// The view of a sequence of sequenced entries.
pub open spec fn entries_view_s(s: Seq<(String, Value)>) -> Seq<(Seq<char>, ValueView)> {
    s.map_values(|e: (String, Value)| (e.0@, e.1@))
}

impl View for MutableDataKind {
    type V = MutableDataKindView;

    open spec fn view(&self) -> MutableDataKindView {
        match self {
            MutableDataKind::Unsequenced { data } => MutableDataKindView::Unsequenced {
                data: entries_view_u(data@),
            },
            MutableDataKind::Sequenced { data } => MutableDataKindView::Sequenced {
                data: entries_view_s(data@),
            },
        }
    }
}

impl MutableDataKindView {
    /// The number of entries.
    pub open spec fn len(self) -> nat {
        match self {
            MutableDataKindView::Unsequenced { data } => data.len(),
            MutableDataKindView::Sequenced { data } => data.len(),
        }
    }

    /// Whether an entry with key `k` exists.
    pub open spec fn contains_key(self, k: Seq<char>) -> bool {
        match self {
            MutableDataKindView::Unsequenced { data } => spec_get(data, k) is Some,
            MutableDataKindView::Sequenced { data } => spec_get(data, k) is Some,
        }
    }

    /// The payload after inserting a fresh entry: a sequenced entry starts
    /// its own version counter at one, counting its first mutation.
    pub open spec fn spec_insert(self, k: Seq<char>, v: Seq<u8>) -> MutableDataKindView {
        match self {
            MutableDataKindView::Unsequenced { data } => MutableDataKindView::Unsequenced {
                data: data.push((k, v)),
            },
            MutableDataKindView::Sequenced { data } => MutableDataKindView::Sequenced {
                data: data.push((k, ValueView { data: v, version: 1 })),
            },
        }
    }

    /// The entry keys are mutually distinct.
    pub open spec fn wf(self) -> bool {
        match self {
            MutableDataKindView::Unsequenced { data } => keys_unique(data),
            MutableDataKindView::Sequenced { data } => keys_unique(data),
        }
    }
}

/// The view of a permission table.
pub open spec fn perms_view(s: Seq<(User, PermissionSet)>) -> Seq<(UserView, PermissionSet)> {
    s.map_values(|e: (User, PermissionSet)| (e.0@, e.1))
}

/// The mathematical value of a [`Permissions`] history record.
pub struct PermissionsView {
    pub permissions: Seq<(UserView, PermissionSet)>,
    pub data_index: u64,
    pub owner_entry_index: u64,
}

/// A record kept for every permission or owner change: the table that was
/// installed, together with the entry count of the data and the owner
/// change count that were current when the change happened.
#[derive(Debug)]
pub struct Permissions {
    /// The permission table installed by the change.
    pub permissions: Vec<(User, PermissionSet)>,
    /// The number of data entries at the moment of the change.
    pub data_index: u64,
    /// The number of owner changes that had happened before this change.
    pub owner_entry_index: u64,
}

impl View for Permissions {
    type V = PermissionsView;

    open spec fn view(&self) -> PermissionsView {
        PermissionsView {
            permissions: perms_view(self.permissions@),
            data_index: self.data_index,
            owner_entry_index: self.owner_entry_index,
        }
    }
}

/// The view of a permission history.
pub open spec fn history_view(s: Seq<Permissions>) -> Seq<PermissionsView> {
    s.map_values(|p: Permissions| p@)
}

/// The mathematical value of a [`MutableData`].
pub struct MutableDataView {
    pub name: Seq<u8>,
    pub tag: u64,
    pub data: MutableDataKindView,
    pub permissions: Seq<(UserView, PermissionSet)>,
    pub version: u64,
    pub owners: PublicKeyView,
    pub owner_entry_index: u64,
    pub history: Seq<PermissionsView>,
}

impl MutableDataView {
    /// The permission set granted to `user`, if any.
    pub open spec fn user_permissions(self, user: UserView) -> Option<PermissionSet> {
        spec_get(self.permissions, user)
    }

    /// Whether `requester` may perform a data action needing `p`: its own
    /// key's grant decides if one exists, otherwise the grant to anyone.
    pub open spec fn is_action_allowed(self, requester: PublicKeyView, p: Permission) -> bool {
        match spec_get(self.permissions, UserView::Key(requester)) {
            Some(set) => set.spec_allows(p),
            None => match spec_get(self.permissions, UserView::Anyone) {
                Some(set) => set.spec_allows(p),
                None => false,
            },
        }
    }

    /// Whether `requester` may change permissions or owner: the owner may
    /// unconditionally, and so may a key granted `ManagePermissions`.
    pub open spec fn can_manage(self, requester: PublicKeyView) -> bool {
        requester == self.owners || (spec_get(self.permissions, UserView::Key(requester)) matches
            Some(set) && set.manage_permissions)
    }

    /// Whether `version` is the successor that the next permission or
    /// owner change must carry.
    pub open spec fn is_next_version(self, version: u64) -> bool {
        self.version < u64::MAX && version == self.version + 1
    }

    /// Well-formedness: owner changes never outnumber container versions,
    /// and no key is repeated in the permission table or among the data
    /// entries.  The constructor establishes it and every mutation keeps
    /// it.
    pub open spec fn wf(self) -> bool {
        &&& self.owner_entry_index <= self.version
        &&& keys_unique(self.permissions)
        &&& self.data.wf()
    }
}

/// Mutable data that is unpublished on the network, identified by its
/// address and a type tag, holding a keyed payload, a permission table, a
/// single owner, and a container version that counts permission and owner
/// changes.
#[derive(Debug)]
pub struct MutableData {
    /// Network address.
    name: XorName,
    /// Type tag disambiguating containers that share an address.
    tag: u64,
    /// Key-value payload.
    data: MutableDataKind,
    /// Grants per user or application key.
    permissions: Vec<(User, PermissionSet)>,
    /// Increased by exactly one for every change to `permissions` or
    /// `owners`, and untouched by changes to `data`.
    version: u64,
    /// The single owner of this container; multi-signature ownership is
    /// disallowed.
    owners: PublicKey,
    /// The number of owner changes so far.
    owner_entry_index: u64,
    /// One record per permission or owner change.
    history: Vec<Permissions>,
}

impl View for MutableData {
    type V = MutableDataView;

    closed spec fn view(&self) -> MutableDataView {
        MutableDataView {
            name: self.name@,
            tag: self.tag,
            data: self.data@,
            permissions: perms_view(self.permissions@),
            version: self.version,
            owners: self.owners@,
            owner_entry_index: self.owner_entry_index,
            history: history_view(self.history@),
        }
    }
}

/// Looks `user` up in a permission table; the first matching entry decides.
fn find_user(perms: &Vec<(User, PermissionSet)>, user: &User) -> (r: Option<PermissionSet>)
    ensures
        r == spec_get(perms_view(perms@), user@),
{
    let ghost pv = perms_view(perms@);
    proof {
        assert(pv.skip(0) =~= pv);
    }
    let mut i: usize = 0;
    while i < perms.len()
        invariant
            i <= perms@.len(),
            pv == perms_view(perms@),
            pv.len() == perms@.len(),
            spec_get(pv, user@) == spec_get(pv.skip(i as int), user@),
        decreases perms@.len() - i,
    {
        if &perms[i].0 == user {
            proof {
                assert(pv.skip(i as int)[0] == pv[i as int]);
            }
            return Some(perms[i].1);
        }
        proof {
            assert(pv.skip(i as int)[0] == pv[i as int]);
            assert(pv.skip(i as int).drop_first() =~= pv.skip(i + 1));
        }
        i += 1;
    }
    proof {
        assert(pv.skip(i as int).len() == 0);
    }
    None
}

/// Finds the first entry for `user`, with the facts a table update needs.
fn find_user_index(perms: &Vec<(User, PermissionSet)>, user: &User) -> (r: Option<usize>)
    ensures
        r matches Some(i) ==> i < perms@.len() && perms_view(perms@)[i as int].0 == user@ && (
        forall|j: int| 0 <= j < i ==> perms_view(perms@)[j].0 != user@),
        r is None ==> spec_get(perms_view(perms@), user@) is None,
{
    let ghost pv = perms_view(perms@);
    let mut i: usize = 0;
    while i < perms.len()
        invariant
            i <= perms@.len(),
            pv == perms_view(perms@),
            pv.len() == perms@.len(),
            forall|j: int| 0 <= j < i ==> pv[j].0 != user@,
        decreases perms@.len() - i,
    {
        proof {
            assert(pv[i as int] == (perms@[i as int].0@, perms@[i as int].1));
        }
        if &perms[i].0 == user {
            return Some(i);
        }
        i += 1;
    }
    proof {
        lemma_spec_get_absent(pv, user@);
    }
    None
}

/// Finds the first unsequenced entry for `key`.
fn find_entry_u(data: &Vec<(String, Vec<u8>)>, key: &String) -> (r: Option<usize>)
    ensures
        r matches Some(i) ==> i < data@.len() && entries_view_u(data@)[i as int].0 == key@ && (
        forall|j: int| 0 <= j < i ==> entries_view_u(data@)[j].0 != key@) && spec_get(
            entries_view_u(data@),
            key@,
        ) == Some(entries_view_u(data@)[i as int].1),
        r is None ==> spec_get(entries_view_u(data@), key@) is None,
{
    let ghost dv = entries_view_u(data@);
    let mut i: usize = 0;
    while i < data.len()
        invariant
            i <= data@.len(),
            dv == entries_view_u(data@),
            dv.len() == data@.len(),
            forall|j: int| 0 <= j < i ==> dv[j].0 != key@,
        decreases data@.len() - i,
    {
        proof {
            assert(dv[i as int] == (data@[i as int].0@, data@[i as int].1@));
        }
        if data[i].0.eq(key) {
            proof {
                lemma_spec_get_first_match(dv, i as int);
            }
            return Some(i);
        }
        i += 1;
    }
    proof {
        lemma_spec_get_absent(dv, key@);
    }
    None
}

/// Finds the first sequenced entry for `key`.
fn find_entry_s(data: &Vec<(String, Value)>, key: &String) -> (r: Option<usize>)
    ensures
        r matches Some(i) ==> i < data@.len() && entries_view_s(data@)[i as int].0 == key@ && (
        forall|j: int| 0 <= j < i ==> entries_view_s(data@)[j].0 != key@) && spec_get(
            entries_view_s(data@),
            key@,
        ) == Some(entries_view_s(data@)[i as int].1),
        r is None ==> spec_get(entries_view_s(data@), key@) is None,
{
    let ghost dv = entries_view_s(data@);
    let mut i: usize = 0;
    while i < data.len()
        invariant
            i <= data@.len(),
            dv == entries_view_s(data@),
            dv.len() == data@.len(),
            forall|j: int| 0 <= j < i ==> dv[j].0 != key@,
        decreases data@.len() - i,
    {
        proof {
            assert(dv[i as int] == (data@[i as int].0@, data@[i as int].1@));
        }
        if data[i].0.eq(key) {
            proof {
                lemma_spec_get_first_match(dv, i as int);
            }
            return Some(i);
        }
        i += 1;
    }
    proof {
        lemma_spec_get_absent(dv, key@);
    }
    None
}

/// Copies a permission table.
fn clone_permission_table(perms: &Vec<(User, PermissionSet)>) -> (r: Vec<(User, PermissionSet)>)
    ensures
        perms_view(r@) == perms_view(perms@),
{
    let mut out: Vec<(User, PermissionSet)> = Vec::new();
    let mut i: usize = 0;
    while i < perms.len()
        invariant
            i <= perms@.len(),
            perms_view(out@) == perms_view(perms@).take(i as int),
        decreases perms@.len() - i,
    {
        let entry = &perms[i];
        let ghost prev = out@;
        out.push((entry.0.clone(), entry.1));
        proof {
            assert(perms_view(prev).len() == prev.len());
            assert(prev.len() == i);
            assert(out@.len() == i + 1);
            assert(perms_view(out@).len() == out@.len());
            assert(perms_view(perms@).len() == perms@.len());
            assert forall|t: int| 0 <= t < i + 1 implies perms_view(out@)[t] == perms_view(
                perms@,
            )[t] by {
                assert(perms_view(out@)[t] == (out@[t].0@, out@[t].1));
                assert(perms_view(perms@)[t] == (perms@[t].0@, perms@[t].1));
                if t < i {
                    assert(out@[t] == prev[t]);
                    assert(perms_view(prev)[t] == (prev[t].0@, prev[t].1));
                    assert(perms_view(prev)[t] == perms_view(perms@).take(i as int)[t]);
                }
            }
            assert(perms_view(out@) =~= perms_view(perms@).take(i + 1));
        }
        i += 1;
    }
    proof {
        assert(perms_view(perms@).take(perms@.len() as int) =~= perms_view(perms@));
        assert(perms_view(out@) == perms_view(perms@));
    }
    out
}

impl MutableData {
    /// The key-value payload.
    pub fn data(&self) -> (r: &MutableDataKind)
        ensures
            r@ == self@.data,
    {
        &self.data
    }

    /// Creates a container with version zero and no history.  Exactly one
    /// owner key must be supplied; anything else fails with `InvalidOwner`.
    pub fn new(
        name: XorName,
        tag: u64,
        data: MutableDataKind,
        permissions: Vec<(User, PermissionSet)>,
        owners: Vec<PublicKey>,
    ) -> (r: Result<MutableData, Error>)
        requires
            keys_unique(perms_view(permissions@)),
            data@.wf(),
        ensures
            r is Ok <==> owners@.len() == 1,
            r matches Ok(md) ==> md@ == (MutableDataView {
                name: name@,
                tag,
                data: data@,
                permissions: perms_view(permissions@),
                version: 0,
                owners: owners@[0]@,
                owner_entry_index: 0,
                history: Seq::<PermissionsView>::empty(),
            }),
            r matches Ok(md) ==> md@.wf(),
            r matches Err(e) ==> e is InvalidOwner,
    {
        if owners.len() != 1 {
            return Err(Error::InvalidOwner);
        }
        let mut owner_list = owners;
        let owner = match owner_list.pop() {
            Some(pk) => pk,
            None => vstd::pervasive::unreached(),
        };
        let md = MutableData {
            name,
            tag,
            data,
            permissions,
            version: 0,
            owners: owner,
            owner_entry_index: 0,
            history: Vec::new(),
        };
        proof {
            assert(history_view(Seq::<Permissions>::empty()) =~= Seq::<PermissionsView>::empty());
        }
        Ok(md)
    }

    /// The network address.
    pub fn name(&self) -> (r: XorName)
        ensures
            r@ == self@.name,
    {
        self.name
    }

    /// The type tag.
    pub fn tag(&self) -> (r: u64)
        ensures
            r == self@.tag,
    {
        self.tag
    }

    /// The owner key.
    pub fn owners(&self) -> (r: &PublicKey)
        ensures
            r@ == self@.owners,
    {
        &self.owners
    }

    /// The permission table.
    pub fn permissions(&self) -> (r: &Vec<(User, PermissionSet)>)
        ensures
            perms_view(r@) == self@.permissions,
    {
        &self.permissions
    }

    /// The container version: the number of permission and owner changes.
    pub fn version(&self) -> (r: u64)
        ensures
            r == self@.version,
    {
        self.version
    }

    /// The number of owner changes so far.
    pub fn owner_entry_index(&self) -> (r: u64)
        ensures
            r == self@.owner_entry_index,
    {
        self.owner_entry_index
    }

    /// One record per permission or owner change, oldest first.
    pub fn permission_history(&self) -> (r: &Vec<Permissions>)
        ensures
            history_view(r@) == self@.history,
    {
        &self.history
    }

    /// The permission set granted to `user`, if any.
    pub fn user_permissions(&self, user: &User) -> (r: Option<PermissionSet>)
        ensures
            r == self@.user_permissions(user@),
    {
        find_user(&self.permissions, user)
    }

    /// Whether `requester` may perform a data action needing `permission`.
    pub fn is_action_allowed(&self, requester: &PublicKey, permission: Permission) -> (r: bool)
        ensures
            r == self@.is_action_allowed(requester@, permission),
    {
        let key_user = User::Key(requester.clone());
        match find_user(&self.permissions, &key_user) {
            Some(set) => set.allows(permission),
            None => match find_user(&self.permissions, &User::Anyone) {
                Some(set) => set.allows(permission),
                None => false,
            },
        }
    }

    /// Whether `requester` may change permissions or owner.
    pub fn is_manage_allowed(&self, requester: &PublicKey) -> (r: bool)
        ensures
            r == self@.can_manage(requester@),
    {
        if requester == &self.owners {
            return true;
        }
        let key_user = User::Key(requester.clone());
        match find_user(&self.permissions, &key_user) {
            Some(set) => set.manage_permissions,
            None => false,
        }
    }

    /// The number of data entries, recorded in history records.
    fn data_len(&self) -> (r: u64)
        ensures
            r == self@.data.len() as u64,
    {
        match &self.data {
            MutableDataKind::Unsequenced { data } => {
                proof {
                    assert(entries_view_u(data@).len() == data@.len());
                }
                data.len() as u64
            },
            MutableDataKind::Sequenced { data } => {
                proof {
                    assert(entries_view_s(data@).len() == data@.len());
                }
                data.len() as u64
            },
        }
    }

    /// Installs `permissions` for `user`.  Only the owner, or a key that
    /// holds `ManagePermissions`, may do so; the caller must supply the
    /// successor of the current container version.  On success the version
    /// rises by exactly one and a history record captures the entry count
    /// and owner change count that were current before the change.
    pub fn set_user_permissions(
        &mut self,
        requester: &PublicKey,
        user: User,
        permissions: PermissionSet,
        version: u64,
    ) -> (r: Result<(), Error>)
        requires
            old(self)@.wf(),
        ensures
            final(self)@.wf(),
            !old(self)@.can_manage(requester@) ==> r == Err::<(), Error>(Error::AccessDenied)
                && final(self)@ == old(self)@,
            old(self)@.can_manage(requester@) && !old(self)@.is_next_version(version) ==> r == Err::<
                (),
                Error,
            >(Error::InvalidVersion) && final(self)@ == old(self)@,
            old(self)@.can_manage(requester@) && old(self)@.is_next_version(version) ==> r == Ok::<
                (),
                Error,
            >(()) && ({
                let prev = old(self)@;
                let cur = final(self)@;
                &&& cur.version == prev.version + 1
                &&& spec_get(cur.permissions, user@) == Some(permissions)
                &&& forall|u2: UserView|
                    u2 != user@ ==> spec_get(cur.permissions, u2) == spec_get(prev.permissions, u2)
                &&& cur.history == prev.history.push(PermissionsView {
                    permissions: cur.permissions,
                    data_index: prev.data.len() as u64,
                    owner_entry_index: prev.owner_entry_index,
                })
                &&& cur.name == prev.name
                &&& cur.tag == prev.tag
                &&& cur.data == prev.data
                &&& cur.owners == prev.owners
                &&& cur.owner_entry_index == prev.owner_entry_index
            }),
    {
        if !self.is_manage_allowed(requester) {
            return Err(Error::AccessDenied);
        }
        if !(self.version < u64::MAX && version == self.version + 1) {
            return Err(Error::InvalidVersion);
        }
        let ghost old_pv = perms_view(self.permissions@);
        let ghost uv = user@;
        match find_user_index(&self.permissions, &user) {
            Some(i) => {
                self.permissions[i] = (user, permissions);
                proof {
                    assert(perms_view(self.permissions@) =~= old_pv.update(
                        i as int,
                        (uv, permissions),
                    ));
                    lemma_spec_get_update(old_pv, i as int, uv, permissions);
                    lemma_unique_update(old_pv, i as int, uv, permissions);
                }
            },
            None => {
                self.permissions.push((user, permissions));
                proof {
                    assert(perms_view(self.permissions@) =~= old_pv.push((uv, permissions)));
                    lemma_spec_get_push(old_pv, uv, permissions);
                    lemma_unique_push(old_pv, uv, permissions);
                }
            },
        }
        self.version = version;
        let data_index = self.data_len();
        let record = Permissions {
            permissions: clone_permission_table(&self.permissions),
            data_index,
            owner_entry_index: self.owner_entry_index,
        };
        let ghost old_hist = history_view(self.history@);
        self.history.push(record);
        proof {
            assert(history_view(self.history@) =~= old_hist.push(record@));
        }
        Ok(())
    }

    /// Transfers ownership to `new_owner`.  Gated exactly as a permission
    /// change; on success the version and the owner change count each rise
    /// by one, and a history record captures the pre-change state.
    pub fn change_owner(&mut self, requester: &PublicKey, new_owner: PublicKey, version: u64) -> (r:
        Result<(), Error>)
        requires
            old(self)@.wf(),
        ensures
            final(self)@.wf(),
            !old(self)@.can_manage(requester@) ==> r == Err::<(), Error>(Error::AccessDenied)
                && final(self)@ == old(self)@,
            old(self)@.can_manage(requester@) && !old(self)@.is_next_version(version) ==> r == Err::<
                (),
                Error,
            >(Error::InvalidVersion) && final(self)@ == old(self)@,
            old(self)@.can_manage(requester@) && old(self)@.is_next_version(version) ==> r == Ok::<
                (),
                Error,
            >(()) && ({
                let prev = old(self)@;
                let cur = final(self)@;
                &&& cur.owners == new_owner@
                &&& cur.version == prev.version + 1
                &&& cur.owner_entry_index == prev.owner_entry_index + 1
                &&& cur.history == prev.history.push(PermissionsView {
                    permissions: prev.permissions,
                    data_index: prev.data.len() as u64,
                    owner_entry_index: prev.owner_entry_index,
                })
                &&& cur.name == prev.name
                &&& cur.tag == prev.tag
                &&& cur.data == prev.data
                &&& cur.permissions == prev.permissions
            }),
    {
        if !self.is_manage_allowed(requester) {
            return Err(Error::AccessDenied);
        }
        if !(self.version < u64::MAX && version == self.version + 1) {
            return Err(Error::InvalidVersion);
        }
        let data_index = self.data_len();
        let record = Permissions {
            permissions: clone_permission_table(&self.permissions),
            data_index,
            owner_entry_index: self.owner_entry_index,
        };
        self.owners = new_owner;
        self.version = version;
        self.owner_entry_index = self.owner_entry_index + 1;
        let ghost old_hist = history_view(self.history@);
        self.history.push(record);
        proof {
            assert(history_view(self.history@) =~= old_hist.push(record@));
        }
        Ok(())
    }

    /// Inserts a fresh entry.  The requester must hold `Insert`; an entry
    /// under the same key must not exist.  A sequenced entry starts its
    /// own version at one; the container version never moves for data
    /// edits.
    pub fn insert_entry(&mut self, requester: &PublicKey, key: String, value: Vec<u8>) -> (r:
        Result<(), Error>)
        requires
            old(self)@.wf(),
        ensures
            final(self)@.wf(),
            !old(self)@.is_action_allowed(requester@, Permission::Insert) ==> r == Err::<(), Error>(
                Error::AccessDenied,
            ) && final(self)@ == old(self)@,
            old(self)@.is_action_allowed(requester@, Permission::Insert) && old(
                self,
            )@.data.contains_key(key@) ==> r == Err::<(), Error>(Error::EntryExists) && final(self)@
                == old(self)@,
            old(self)@.is_action_allowed(requester@, Permission::Insert) && !old(
                self,
            )@.data.contains_key(key@) ==> r == Ok::<(), Error>(()) && final(self)@ == (
            MutableDataView { data: old(self)@.data.spec_insert(key@, value@), ..old(self)@ }),
    {
        if !self.is_action_allowed(requester, Permission::Insert) {
            return Err(Error::AccessDenied);
        }
        let ghost kv = key@;
        let ghost vv = value@;
        match &mut self.data {
            MutableDataKind::Unsequenced { data } => {
                match find_entry_u(data, &key) {
                    Some(_) => Err(Error::EntryExists),
                    None => {
                        let ghost old_dv = entries_view_u(data@);
                        data.push((key, value));
                        proof {
                            assert(entries_view_u(data@) =~= old_dv.push((kv, vv)));
                            lemma_unique_push(old_dv, kv, vv);
                        }
                        Ok(())
                    },
                }
            },
            MutableDataKind::Sequenced { data } => {
                match find_entry_s(data, &key) {
                    Some(_) => Err(Error::EntryExists),
                    None => {
                        let ghost old_dv = entries_view_s(data@);
                        data.push((key, Value { data: value, version: 1 }));
                        proof {
                            assert(entries_view_s(data@) =~= old_dv.push(
                                (kv, ValueView { data: vv, version: 1 }),
                            ));
                            lemma_unique_push(old_dv, kv, ValueView { data: vv, version: 1 });
                        }
                        Ok(())
                    },
                }
            },
        }
    }

    /// Overwrites an existing entry.  The requester must hold `Update`; a
    /// sequenced entry's own version rises by exactly one, and an entry
    /// whose version cannot rise further is refused.
    pub fn update_entry(&mut self, requester: &PublicKey, key: &String, value: Vec<u8>) -> (r:
        Result<(), Error>)
        requires
            old(self)@.wf(),
        ensures
            final(self)@.wf(),
            !old(self)@.is_action_allowed(requester@, Permission::Update) ==> r == Err::<(), Error>(
                Error::AccessDenied,
            ) && final(self)@ == old(self)@,
            old(self)@.is_action_allowed(requester@, Permission::Update) && !old(
                self,
            )@.data.contains_key(key@) ==> r == Err::<(), Error>(Error::NoSuchEntry) && final(self)@
                == old(self)@,
            old(self)@.is_action_allowed(requester@, Permission::Update) ==> (old(
                self,
            )@.data matches MutableDataKindView::Unsequenced { data: d } ==> (spec_get(d, key@)
                is Some ==> r == Ok::<(), Error>(()) && (final(self)@.data matches
            MutableDataKindView::Unsequenced { data: d2 } && spec_get(d2, key@) == Some(value@) && (
            forall|k2: Seq<char>| k2 != key@ ==> spec_get(d2, k2) == spec_get(d, k2)) && d2.len()
                == d.len() && final(self)@ == (MutableDataView {
                data: final(self)@.data,
                ..old(self)@
            })))),
            old(self)@.is_action_allowed(requester@, Permission::Update) ==> (old(
                self,
            )@.data matches MutableDataKindView::Sequenced { data: d } ==> (spec_get(d, key@)
                matches Some(v0) ==> (v0.version == u64::MAX ==> r == Err::<(), Error>(
                Error::InvalidVersion,
            ) && final(self)@ == old(self)@) && (v0.version < u64::MAX ==> r == Ok::<(), Error>(())
                && (final(self)@.data matches MutableDataKindView::Sequenced { data: d2 }
                && spec_get(d2, key@) == Some(ValueView { data: value@, version: (v0.version + 1) as u64 })
                && (forall|k2: Seq<char>| k2 != key@ ==> spec_get(d2, k2) == spec_get(d, k2))
                && d2.len() == d.len() && final(self)@ == (MutableDataView {
                data: final(self)@.data,
                ..old(self)@
            }))))),
    {
        if !self.is_action_allowed(requester, Permission::Update) {
            return Err(Error::AccessDenied);
        }
        let ghost kv = key@;
        let ghost vv = value@;
        match &mut self.data {
            MutableDataKind::Unsequenced { data } => {
                match find_entry_u(data, key) {
                    None => Err(Error::NoSuchEntry),
                    Some(i) => {
                        let ghost old_dv = entries_view_u(data@);
                        let old_key = data[i].0.clone();
                        data[i] = (old_key, value);
                        proof {
                            assert(entries_view_u(data@) =~= old_dv.update(i as int, (kv, vv)));
                            lemma_spec_get_update(old_dv, i as int, kv, vv);
                            lemma_unique_update(old_dv, i as int, kv, vv);
                        }
                        Ok(())
                    },
                }
            },
            MutableDataKind::Sequenced { data } => {
                match find_entry_s(data, key) {
                    None => Err(Error::NoSuchEntry),
                    Some(i) => {
                        proof {
                            assert(entries_view_s(data@)[i as int]
                                == (data@[i as int].0@, data@[i as int].1@));
                        }
                        let current = data[i].1.version;
                        if current == u64::MAX {
                            return Err(Error::InvalidVersion);
                        }
                        let ghost old_dv = entries_view_s(data@);
                        let old_key = data[i].0.clone();
                        data[i] = (old_key, Value { data: value, version: current + 1 });
                        proof {
                            let nv = ValueView { data: vv, version: (current + 1) as u64 };
                            assert(entries_view_s(data@) =~= old_dv.update(i as int, (kv, nv)));
                            lemma_spec_get_update(old_dv, i as int, kv, nv);
                            lemma_unique_update(old_dv, i as int, kv, nv);
                        }
                        Ok(())
                    },
                }
            },
        }
    }

    /// Removes an existing entry.  The requester must hold `Delete`.
    pub fn delete_entry(&mut self, requester: &PublicKey, key: &String) -> (r: Result<(), Error>)
        requires
            old(self)@.wf(),
        ensures
            final(self)@.wf(),
            !old(self)@.is_action_allowed(requester@, Permission::Delete) ==> r == Err::<(), Error>(
                Error::AccessDenied,
            ) && final(self)@ == old(self)@,
            old(self)@.is_action_allowed(requester@, Permission::Delete) && !old(
                self,
            )@.data.contains_key(key@) ==> r == Err::<(), Error>(Error::NoSuchEntry) && final(self)@
                == old(self)@,
            old(self)@.is_action_allowed(requester@, Permission::Delete) ==> (old(
                self,
            )@.data matches MutableDataKindView::Unsequenced { data: d } ==> (spec_get(d, key@)
                is Some ==> r == Ok::<(), Error>(()) && (final(self)@.data matches
            MutableDataKindView::Unsequenced { data: d2 } && spec_get(d2, key@) is None && (forall|
                k2: Seq<char>,
            | k2 != key@ ==> spec_get(d2, k2) == spec_get(d, k2)) && d2.len() + 1 == d.len()
                && final(self)@ == (MutableDataView { data: final(self)@.data, ..old(self)@ })))),
            old(self)@.is_action_allowed(requester@, Permission::Delete) ==> (old(
                self,
            )@.data matches MutableDataKindView::Sequenced { data: d } ==> (spec_get(d, key@)
                is Some ==> r == Ok::<(), Error>(()) && (final(self)@.data matches
            MutableDataKindView::Sequenced { data: d2 } && spec_get(d2, key@) is None && (forall|
                k2: Seq<char>,
            | k2 != key@ ==> spec_get(d2, k2) == spec_get(d, k2)) && d2.len() + 1 == d.len()
                && final(self)@ == (MutableDataView { data: final(self)@.data, ..old(self)@ })))),
    {
        if !self.is_action_allowed(requester, Permission::Delete) {
            return Err(Error::AccessDenied);
        }
        let ghost kv = key@;
        match &mut self.data {
            MutableDataKind::Unsequenced { data } => {
                match find_entry_u(data, key) {
                    None => Err(Error::NoSuchEntry),
                    Some(i) => {
                        let ghost old_dv = entries_view_u(data@);
                        data.remove(i);
                        proof {
                            assert(entries_view_u(data@) =~= old_dv.remove(i as int));
                            assert forall|j: int|
                                0 <= j < old_dv.len() && j != i implies old_dv[j].0 != kv by {
                                if j > i {
                                    assert(old_dv[i as int].0 == kv);
                                }
                            }
                            lemma_spec_get_remove(old_dv, i as int, kv);
                            lemma_unique_remove(old_dv, i as int);
                        }
                        Ok(())
                    },
                }
            },
            MutableDataKind::Sequenced { data } => {
                match find_entry_s(data, key) {
                    None => Err(Error::NoSuchEntry),
                    Some(i) => {
                        let ghost old_dv = entries_view_s(data@);
                        data.remove(i);
                        proof {
                            assert(entries_view_s(data@) =~= old_dv.remove(i as int));
                            assert forall|j: int|
                                0 <= j < old_dv.len() && j != i implies old_dv[j].0 != kv by {
                                if j > i {
                                    assert(old_dv[i as int].0 == kv);
                                }
                            }
                            lemma_spec_get_remove(old_dv, i as int, kv);
                            lemma_unique_remove(old_dv, i as int);
                        }
                        Ok(())
                    },
                }
            },
        }
    }
}

/// A non-owning reference to a container: its address and type tag.
#[derive(Clone, Copy, PartialEq, Eq, Hash, Debug)]
pub struct MutableDataRef {
    /// Address of the container on the network.
    name: XorName,
    /// Type tag.
    tag: u64,
}

impl MutableDataRef {
    /// The referenced address.
    pub closed spec fn spec_name(&self) -> Seq<u8> {
        self.name@
    }

    /// Creates the reference.
    pub fn new(name: XorName, tag: u64) -> (r: MutableDataRef)
        ensures
            r.spec_name() == name@,
            r.spec_tag() == tag,
    {
        MutableDataRef { name, tag }
    }

    /// The referenced address.
    pub fn name(&self) -> (r: XorName)
        ensures
            r@ == self.spec_name(),
    {
        self.name
    }

    /// The referenced type tag.
    pub closed spec fn spec_tag(&self) -> u64 {
        self.tag
    }

    /// The referenced type tag.
    pub fn tag(&self) -> (r: u64)
        ensures
            r == self.spec_tag(),
    {
        self.tag
    }
}

} // verus!
