//! The role registry and the operations that a host offers on it.

use vstd::prelude::*;
use vstd::string::*;
use crate::context::{AccountId, AuthorizationContext};
use crate::error::{Error, ErrorView};
use crate::event::Event;
use crate::model::{RegistryView, RoleView};
use crate::role_data::{record_names, registry_of, RoleData, RoleRecord};

verus! {

/// The roles of a host: each with its members and its admin role, in the
/// order in which they were created. A role is never deleted.
pub struct RoleRegistry {
    entries: Vec<(String, RoleData)>,
}

/// The names of `entries`, in their order.
spec fn names_of(entries: Seq<(String, RoleData)>) -> Seq<Seq<char>> {
    Seq::new(entries.len(), |i: int| entries[i].0@)
}

/// What `entries` hold, where no two of them have one name.
spec fn model_of(entries: Seq<(String, RoleData)>) -> RegistryView {
    let names = names_of(entries);
    RegistryView {
        names,
        roles: Map::new(
            |role: Seq<char>| names.contains(role),
            |role: Seq<char>| entries[names.index_of(role)].1@,
        ),
    }
}

proof fn lemma_model_lookup(entries: Seq<(String, RoleData)>, i: int)
    requires
        names_of(entries).no_duplicates(),
        0 <= i < entries.len(),
    ensures
        model_of(entries).contains_role(entries[i].0@),
        model_of(entries).roles[entries[i].0@] == entries[i].1@,
{
    assert(names_of(entries)[i] == entries[i].0@);
}

proof fn lemma_model_wf(entries: Seq<(String, RoleData)>)
    requires
        names_of(entries).no_duplicates(),
    ensures
        model_of(entries).wf(),
{
}

proof fn lemma_model_push(entries: Seq<(String, RoleData)>, entry: (String, RoleData))
    requires
        names_of(entries).no_duplicates(),
        !names_of(entries).contains(entry.0@),
    ensures
        names_of(entries.push(entry)).no_duplicates(),
        model_of(entries.push(entry)) == (RegistryView {
            names: model_of(entries).names.push(entry.0@),
            roles: model_of(entries).roles.insert(entry.0@, entry.1@),
        }),
{
    let before = names_of(entries);
    let after = names_of(entries.push(entry));
    assert(after =~= before.push(entry.0@));
    let grown = model_of(entries).roles.insert(entry.0@, entry.1@);
    assert forall|role: Seq<char>| model_of(entries.push(entry)).roles.contains_key(role)
        <==> grown.contains_key(role) by {
        if before.contains(role) {
            assert(after[before.index_of(role)] == role);
        }
        if role == entry.0@ {
            assert(after[before.len() as int] == role);
        }
    }
    assert(model_of(entries.push(entry)).roles =~= grown);
}

proof fn lemma_model_update(
    before: Seq<(String, RoleData)>,
    after: Seq<(String, RoleData)>,
    i: int,
)
    requires
        names_of(before).no_duplicates(),
        0 <= i < before.len(),
        after.len() == before.len(),
        forall|j: int| 0 <= j < before.len() ==> (#[trigger] after[j]).0@ == before[j].0@,
        forall|j: int| 0 <= j < before.len() && j != i ==> (#[trigger] after[j]).1@ == before[j].1@,
    ensures
        names_of(after).no_duplicates(),
        model_of(before).contains_role(before[i].0@),
        model_of(before).roles[before[i].0@] == before[i].1@,
        model_of(after) == (RegistryView {
            names: model_of(before).names,
            roles: model_of(before).roles.insert(before[i].0@, after[i].1@),
        }),
{
    lemma_model_lookup(before, i);
    assert(names_of(after) =~= names_of(before));
    assert(names_of(before)[i] == before[i].0@);
    assert(model_of(after).roles =~= model_of(before).roles.insert(before[i].0@, after[i].1@));
}

/// The entries hold what the records describe where each entry has the name
/// and the contents of the record at its place.
proof fn lemma_model_of_records(entries: Seq<(String, RoleData)>, records: Seq<RoleRecord>)
    requires
        entries.len() == records.len(),
        forall|j: int|
            0 <= j < entries.len() ==> (#[trigger] entries[j]).0@ == records[j].role@
                && entries[j].1@ == records[j].data(),
    ensures
        names_of(entries) == record_names(records),
        model_of(entries) == registry_of(records),
{
    assert(names_of(entries) =~= record_names(records));
    assert(model_of(entries).roles =~= registry_of(records).roles);
}

impl View for RoleRegistry {
    type V = RegistryView;

    /// What the entries hold. A value whose entries repeat a name is never
    /// built; giving it the empty view makes every view well formed.
    closed spec fn view(&self) -> RegistryView {
        if self.inv() {
            model_of(self.entries@)
        } else {
            RegistryView::empty()
        }
    }
}

impl RoleRegistry {
    #[verifier::type_invariant]
    spec fn inv(self) -> bool {
        names_of(self.entries@).no_duplicates()
    }

    /// The registry without any role.
    pub fn new() -> (registry: Self)
        ensures
            registry@ == RegistryView::empty(),
    {
        let registry = RoleRegistry { entries: Vec::new() };
        assert(model_of(registry.entries@).names =~= Seq::<Seq<char>>::empty());
        assert(model_of(registry.entries@).roles =~= Map::<Seq<char>, RoleView>::empty());
        registry
    }

    /// Puts a role that does not exist yet after all others.
    fn push_entry(&mut self, role: String, data: RoleData)
        requires
            !old(self)@.contains_role(role@),
        ensures
            final(self)@ == (RegistryView {
                names: old(self)@.names.push(role@),
                roles: old(self)@.roles.insert(role@, data@),
            }),
            final(self).entries@ == old(self).entries@.push((role, data)),
            final(self)@ == model_of(final(self).entries@),
    {
        proof {
            use_type_invariant(&*self);
            lemma_model_push(self.entries@, (role, data));
        }
        let mut entries: Vec<(String, RoleData)> = Vec::new();
        std::mem::swap(&mut entries, &mut self.entries);
        entries.push((role, data));
        self.entries = entries;
    }

    /// The roles as plain values, in the order of their creation and each
    /// with its members listed once, for a host to keep between calls.
    pub fn records(&self) -> (records: Vec<RoleRecord>)
        ensures
            record_names(records@).no_duplicates(),
            registry_of(records@) == self@,
            forall|i: int|
                0 <= i < records.len() ==> (#[trigger] records[i]).members.deep_view().no_duplicates(),
    {
        proof {
            use_type_invariant(&*self);
        }
        let mut records: Vec<RoleRecord> = Vec::new();
        let mut i: usize = 0;
        while i < self.entries.len()
            invariant
                i <= self.entries.len(),
                records.len() == i,
                forall|j: int|
                    0 <= j < i ==> (#[trigger] self.entries[j]).0@ == records[j].role@
                        && self.entries[j].1@ == records[j].data(),
                forall|j: int|
                    0 <= j < i ==> (#[trigger] records[j]).members.deep_view().no_duplicates(),
            decreases self.entries.len() - i,
        {
            let entry = &self.entries[i];
            records.push(
                RoleRecord {
                    role: entry.0.clone(),
                    admin_role: entry.1.admin_role().clone(),
                    members: entry.1.members(),
                },
            );
            i += 1;
        }
        proof {
            lemma_model_of_records(self.entries@, records@);
        }
        records
    }

    /// The registry that `records` describe, their roles in their order:
    /// the way back from what a host kept between calls. None where two
    /// records have one name.
    pub fn from_records(records: &Vec<RoleRecord>) -> (registry: Option<Self>)
        ensures
            registry is Some <==> record_names(records@).no_duplicates(),
            registry is Some ==> registry->Some_0@ == registry_of(records@),
    {
        let mut registry = RoleRegistry { entries: Vec::new() };
        let mut i: usize = 0;
        while i < records.len()
            invariant
                i <= records.len(),
                registry.entries.len() == i,
                registry@ == model_of(registry.entries@),
                names_of(registry.entries@).no_duplicates(),
                forall|j: int|
                    0 <= j < i ==> (#[trigger] registry.entries[j]).0@ == records[j].role@
                        && registry.entries[j].1@ == records[j].data(),
            decreases records.len() - i,
        {
            let record = &records[i];
            match registry.find(&record.role) {
                Some(k) => {
                    assert(record_names(records@)[k as int] == record_names(records@)[i as int]);
                    return None;
                },
                None => {
                    let data = RoleData::from_members(record.admin_role.clone(), &record.members);
                    registry.push_entry(record.role.clone(), data);
                },
            }
            i += 1;
        }
        proof {
            lemma_model_of_records(registry.entries@, records@);
        }
        Some(registry)
    }

    /// Makes sure that `role` exists and makes `account` a member of it.
    fn add_role_granted(
        &mut self,
        role: &String,
        account: &AccountId,
    ) -> (outcome: Result<Vec<Event>, Error>)
        ensures
            outcome is Ok,
            final(self)@ == old(self)@.with_role_granted(role@, account@),
            outcome->Ok_0.deep_view() == old(self)@.events_of_role_granted(role@, account@),
    {
        let mut events = self.add_role(role);
        let mut granted = self.insert_member(role, account)?;
        events.append(&mut granted);
        Ok(events)
    }

    /// Makes `account` a member of the existing `role`, for a caller that
    /// was found entitled to it.
    fn insert_member(
        &mut self,
        role: &String,
        account: &AccountId,
    ) -> (outcome: Result<Vec<Event>, Error>)
        ensures
            (match outcome {
                Ok(events) => {
                    &&& old(self)@.contains_role(role@)
                    &&& final(self)@ == old(self)@.with_member(role@, account@)
                    &&& events.deep_view() == old(self)@.events_of_grant(role@, account@)
                },
                Err(error) => {
                    &&& !old(self)@.contains_role(role@)
                    &&& error@ == (ErrorView::RoleNotFound { role: role@ })
                    &&& final(self)@ == old(self)@
                },
            }),
    {
        match self.find(role) {
            Some(i) => {
                let mut entries: Vec<(String, RoleData)> = Vec::new();
                std::mem::swap(&mut entries, &mut self.entries);
                let added = entries[i].1.insert(account);
                proof {
                    lemma_model_update(old(self).entries@, entries@, i as int);
                }
                self.entries = entries;
                if added {
                    Ok(vec![Event::RoleGranted { role: role.clone(), account: account.clone() }])
                } else {
                    Ok(Vec::new())
                }
            },
            None => Err(Error::RoleNotFound { role: role.clone() }),
        }
    }

    /// Makes `account` no member of the existing `role`, for a caller that
    /// was found entitled to it.
    fn remove_member(
        &mut self,
        role: &String,
        account: &AccountId,
    ) -> (outcome: Result<Vec<Event>, Error>)
        ensures
            (match outcome {
                Ok(events) => {
                    &&& old(self)@.contains_role(role@)
                    &&& final(self)@ == old(self)@.without_member(role@, account@)
                    &&& events.deep_view() == old(self)@.events_of_revoke(role@, account@)
                },
                Err(error) => {
                    &&& !old(self)@.contains_role(role@)
                    &&& error@ == (ErrorView::RoleNotFound { role: role@ })
                    &&& final(self)@ == old(self)@
                },
            }),
    {
        match self.find(role) {
            Some(i) => {
                let mut entries: Vec<(String, RoleData)> = Vec::new();
                std::mem::swap(&mut entries, &mut self.entries);
                let removed = entries[i].1.remove(account);
                proof {
                    lemma_model_update(old(self).entries@, entries@, i as int);
                }
                self.entries = entries;
                if removed {
                    Ok(vec![Event::RoleRevoked { role: role.clone(), account: account.clone() }])
                } else {
                    Ok(Vec::new())
                }
            },
            None => Err(Error::RoleNotFound { role: role.clone() }),
        }
    }

    /// Where `role` stands among the entries, if it was created.
    fn find(&self, role: &String) -> (found: Option<usize>)
        ensures
            self@ == model_of(self.entries@),
            names_of(self.entries@).no_duplicates(),
            match found {
                Some(i) => {
                    &&& i < self.entries.len()
                    &&& self.entries[i as int].0@ == role@
                    &&& self@.contains_role(role@)
                    &&& self@.roles[role@] == self.entries[i as int].1@
                },
                None => !self@.contains_role(role@),
            },
    {
        proof {
            use_type_invariant(&*self);
        }
        let mut i: usize = 0;
        while i < self.entries.len()
            invariant
                i <= self.entries.len(),
                names_of(self.entries@).no_duplicates(),
                forall|j: int| 0 <= j < i ==> self.entries[j].0@ != role@,
            decreases self.entries.len() - i,
        {
            if self.entries[i].0 == *role {
                proof {
                    lemma_model_lookup(self.entries@, i as int);
                }
                return Some(i);
            }
            i += 1;
        }
        None
    }
}

/// The operations on roles that a host offers.
///
/// Every operation either takes effect as a whole or fails and leaves the
/// registry as it was. An operation that changes membership or an admin
/// role asks that the caller hold the admin role of the role concerned, or,
/// where it is a step of the host's own, that the host itself be the
/// caller.
pub trait AccessControl {
    /// The registry that the host carries.
    spec fn roles(&self) -> RegistryView;

    /// The registry that a host carries names every role once.
    proof fn lemma_roles_wf(&self)
        ensures
            self.roles().wf(),
    ;

    /// Makes sure that `role` exists. Where it did not, it is created after
    /// all others, without members and with the default admin role, and
    /// the creation is reported. Where it did, nothing changes. Never
    /// fails; no membership and no admin role is changed by it.
    fn add_role(&mut self, role: &String) -> (events: Vec<Event>)
        ensures
            final(self).roles() == old(self).roles().with_role(role@),
            events.deep_view() == old(self).roles().events_of_role(role@),
    ;

    /// Whether `account` is a member of `role`; `RoleNotFound` where the
    /// role was never created.
    fn has_role(&self, role: &String, account: &AccountId) -> (held: Result<bool, Error>)
        ensures
            (match held {
                Ok(held) => self.roles().contains_role(role@) && held == self.roles().has_role(
                    role@,
                    account@,
                ),
                Err(error) => !self.roles().contains_role(role@) && error@
                    == (ErrorView::RoleNotFound { role: role@ }),
            }),
    ;

    /// Succeeds where `account` is a member of `role`; `RoleNotFound` where
    /// the role was never created, `Unauthorized` where the account is no
    /// member of it.
    fn check_role(&self, role: &String, account: &AccountId) -> (outcome: Result<(), Error>)
        ensures
            (match outcome {
                Ok(_) => self.roles().role_refusal(role@, account@) is None,
                Err(error) => self.roles().role_refusal(role@, account@) == Some(error@),
            }),
    ;

    /// Succeeds where the caller is a member of `role`, and fails as
    /// [`check_role`](AccessControl::check_role) does for the caller.
    fn assert_role(
        &self,
        context: &AuthorizationContext,
        role: &String,
    ) -> (outcome: Result<(), Error>)
        ensures
            (match outcome {
                Ok(_) => self.roles().role_refusal(role@, context.caller()) is None,
                Err(error) => self.roles().role_refusal(role@, context.caller()) == Some(error@),
            }),
    ;

    /// The admin role of `role`; `RoleNotFound` where the role was never
    /// created.
    fn get_role_admin(&self, role: &String) -> (admin_role: Result<String, Error>)
        ensures
            (match admin_role {
                Ok(admin_role) => self.roles().contains_role(role@) && admin_role@
                    == self.roles().role_admin(role@),
                Err(error) => !self.roles().contains_role(role@) && error@
                    == (ErrorView::RoleNotFound { role: role@ }),
            }),
    ;

    /// The roles that `account` is a member of, in the order in which the
    /// roles were created.
    fn get_account_roles(&self, account: &AccountId) -> (found: Vec<String>)
        ensures
            found.deep_view() == self.roles().roles_of(account@),
    ;

    /// Makes `account` a member of `role` on behalf of the caller, who has
    /// to hold the admin role of `role`. Once the caller is authorized, the
    /// role is made sure to exist and the account is added to it. Reports
    /// the grant, or nothing where the account was a member already.
    ///
    /// A role that was never created has no admin role, so that the request
    /// is refused with `RoleNotFound` before anything is created.
    fn grant_role(
        &mut self,
        context: &AuthorizationContext,
        role: &String,
        account: &AccountId,
    ) -> (outcome: Result<Vec<Event>, Error>)
        ensures
            (match outcome {
                Ok(events) => {
                    &&& old(self).roles().admin_refusal(context.caller(), role@) is None
                    &&& final(self).roles() == old(self).roles().with_role_granted(
                        role@,
                        account@,
                    )
                    &&& events.deep_view() == old(self).roles().events_of_role_granted(
                        role@,
                        account@,
                    )
                },
                Err(error) => {
                    &&& old(self).roles().admin_refusal(context.caller(), role@) == Some(error@)
                    &&& final(self).roles() == old(self).roles()
                },
            }),
    ;

    /// Creates `role` where it does not exist and makes `account` a member
    /// of it, whatever the admin role of `role`. Reserved to the host
    /// itself: `Forbidden` for every other caller.
    fn setup_account_role(
        &mut self,
        context: &AuthorizationContext,
        role: &String,
        account: &AccountId,
    ) -> (outcome: Result<Vec<Event>, Error>)
        ensures
            (match outcome {
                Ok(events) => {
                    &&& context.is_internal_call()
                    &&& final(self).roles() == old(self).roles().with_role_granted(
                        role@,
                        account@,
                    )
                    &&& events.deep_view() == old(self).roles().events_of_role_granted(
                        role@,
                        account@,
                    )
                },
                Err(error) => {
                    &&& !context.is_internal_call()
                    &&& error@ == ErrorView::Forbidden
                    &&& final(self).roles() == old(self).roles()
                },
            }),
    ;

    /// Makes `account` no member of `role`. Reserved to the host itself:
    /// `Forbidden` for every other caller, whatever roles it holds. For
    /// the host, reports the revocation, or nothing where the account was
    /// no member; `RoleNotFound` where the role was never created.
    fn delete_role_member(
        &mut self,
        context: &AuthorizationContext,
        role: &String,
        account: &AccountId,
    ) -> (outcome: Result<Vec<Event>, Error>)
        ensures
            (match outcome {
                Ok(events) => {
                    &&& old(self).roles().host_refusal(context.is_internal_call(), role@) is None
                    &&& final(self).roles() == old(self).roles().without_member(role@, account@)
                    &&& events.deep_view() == old(self).roles().events_of_revoke(role@, account@)
                },
                Err(error) => {
                    &&& old(self).roles().host_refusal(context.is_internal_call(), role@) == Some(
                        error@,
                    )
                    &&& final(self).roles() == old(self).roles()
                },
            }),
    ;

    /// Makes `account` no member of `role` on behalf of the caller, who has
    /// to hold the admin role of `role`. Reports the revocation, or nothing
    /// where the account was no member.
    fn revoke_role(
        &mut self,
        context: &AuthorizationContext,
        role: &String,
        account: &AccountId,
    ) -> (outcome: Result<Vec<Event>, Error>)
        ensures
            (match outcome {
                Ok(events) => {
                    &&& old(self).roles().admin_refusal(context.caller(), role@) is None
                    &&& final(self).roles() == old(self).roles().without_member(role@, account@)
                    &&& events.deep_view() == old(self).roles().events_of_revoke(role@, account@)
                },
                Err(error) => {
                    &&& old(self).roles().admin_refusal(context.caller(), role@) == Some(error@)
                    &&& final(self).roles() == old(self).roles()
                },
            }),
    ;

    /// Makes `admin_role` the admin role of `role` on behalf of the caller,
    /// who has to hold the admin role that `role` has so far. Reports the
    /// change, or nothing where `admin_role` is that admin role already.
    /// Whether a role named `admin_role` exists is not asked.
    fn set_admin_role(
        &mut self,
        context: &AuthorizationContext,
        role: &String,
        admin_role: &String,
    ) -> (outcome: Result<Vec<Event>, Error>)
        ensures
            (match outcome {
                Ok(events) => {
                    &&& old(self).roles().admin_refusal(context.caller(), role@) is None
                    &&& final(self).roles() == old(self).roles().with_admin(role@, admin_role@)
                    &&& events.deep_view() == old(self).roles().events_of_admin(role@, admin_role@)
                },
                Err(error) => {
                    &&& old(self).roles().admin_refusal(context.caller(), role@) == Some(error@)
                    &&& final(self).roles() == old(self).roles()
                },
            }),
    ;

    /// Makes `account` a member of `role`. Reserved to the host itself:
    /// `Forbidden` for every other caller, whatever roles it holds. For
    /// the host, reports the grant, or nothing where the account was a
    /// member already; `RoleNotFound` where the role was never created.
    fn add_role_member(
        &mut self,
        context: &AuthorizationContext,
        role: &String,
        account: &AccountId,
    ) -> (outcome: Result<Vec<Event>, Error>)
        ensures
            (match outcome {
                Ok(events) => {
                    &&& old(self).roles().host_refusal(context.is_internal_call(), role@) is None
                    &&& final(self).roles() == old(self).roles().with_member(role@, account@)
                    &&& events.deep_view() == old(self).roles().events_of_grant(role@, account@)
                },
                Err(error) => {
                    &&& old(self).roles().host_refusal(context.is_internal_call(), role@) == Some(
                        error@,
                    )
                    &&& final(self).roles() == old(self).roles()
                },
            }),
    ;
}

impl AccessControl for RoleRegistry {
    open spec fn roles(&self) -> RegistryView {
        self@
    }

    proof fn lemma_roles_wf(&self) {
        if self.inv() {
            lemma_model_wf(self.entries@);
        }
    }

    fn add_role(&mut self, role: &String) -> (events: Vec<Event>) {
        match self.find(role) {
            Some(_) => Vec::new(),
            None => {
                self.push_entry(role.clone(), RoleData::fresh());
                vec![Event::RoleAdded { role: role.clone() }]
            },
        }
    }

    fn has_role(&self, role: &String, account: &AccountId) -> (held: Result<bool, Error>) {
        match self.find(role) {
            Some(i) => Ok(self.entries[i].1.contains(account)),
            None => Err(Error::RoleNotFound { role: role.clone() }),
        }
    }

    fn check_role(&self, role: &String, account: &AccountId) -> (outcome: Result<(), Error>) {
        match self.has_role(role, account) {
            Ok(true) => Ok(()),
            Ok(false) => Err(Error::Unauthorized { account: account.clone(), role: role.clone() }),
            Err(error) => Err(error),
        }
    }

    fn assert_role(
        &self,
        context: &AuthorizationContext,
        role: &String,
    ) -> (outcome: Result<(), Error>) {
        self.check_role(role, context.current_caller())
    }

    fn get_role_admin(&self, role: &String) -> (admin_role: Result<String, Error>) {
        match self.find(role) {
            Some(i) => Ok(self.entries[i].1.admin_role().clone()),
            None => Err(Error::RoleNotFound { role: role.clone() }),
        }
    }

    fn get_account_roles(&self, account: &AccountId) -> (found: Vec<String>) {
        proof {
            use_type_invariant(&*self);
        }
        let ghost names = names_of(self.entries@);
        let ghost held = self@.held_by(account@);
        let mut found: Vec<String> = Vec::new();
        let mut i: usize = 0;
        while i < self.entries.len()
            invariant
                i <= self.entries.len(),
                names == names_of(self.entries@),
                names.no_duplicates(),
                self@ == model_of(self.entries@),
                held == self@.held_by(account@),
                found.deep_view() == names.take(i as int).filter(held),
            decreases self.entries.len() - i,
        {
            proof {
                lemma_model_lookup(self.entries@, i as int);
                assert(names.take(i as int + 1) =~= names.take(i as int).push(names[i as int]));
                names.take(i as int).lemma_filter_push(names[i as int], held);
            }
            if self.entries[i].1.contains(account) {
                found.push(self.entries[i].0.clone());
            }
            i += 1;
        }
        assert(names.take(i as int) =~= names);
        found
    }

    fn grant_role(
        &mut self,
        context: &AuthorizationContext,
        role: &String,
        account: &AccountId,
    ) -> (outcome: Result<Vec<Event>, Error>) {
        let admin_role = self.get_role_admin(role)?;
        self.assert_role(context, &admin_role)?;
        self.add_role_granted(role, account)
    }

    fn setup_account_role(
        &mut self,
        context: &AuthorizationContext,
        role: &String,
        account: &AccountId,
    ) -> (outcome: Result<Vec<Event>, Error>) {
        context.assert_internal_call()?;
        self.add_role_granted(role, account)
    }

    fn delete_role_member(
        &mut self,
        context: &AuthorizationContext,
        role: &String,
        account: &AccountId,
    ) -> (outcome: Result<Vec<Event>, Error>) {
        context.assert_internal_call()?;
        self.remove_member(role, account)
    }

    fn revoke_role(
        &mut self,
        context: &AuthorizationContext,
        role: &String,
        account: &AccountId,
    ) -> (outcome: Result<Vec<Event>, Error>) {
        let admin_role = self.get_role_admin(role)?;
        self.assert_role(context, &admin_role)?;
        self.remove_member(role, account)
    }

    fn set_admin_role(
        &mut self,
        context: &AuthorizationContext,
        role: &String,
        admin_role: &String,
    ) -> (outcome: Result<Vec<Event>, Error>) {
        let previous = self.get_role_admin(role)?;
        self.assert_role(context, &previous)?;
        match self.find(role) {
            Some(i) => {
                if previous == *admin_role {
                    assert(self@.with_admin(role@, admin_role@).roles =~= self@.roles);
                    Ok(Vec::new())
                } else {
                    let mut entries: Vec<(String, RoleData)> = Vec::new();
                    std::mem::swap(&mut entries, &mut self.entries);
                    entries[i].1.set_admin_role(admin_role.clone());
                    proof {
                        lemma_model_update(old(self).entries@, entries@, i as int);
                    }
                    self.entries = entries;
                    Ok(
                        vec![
                            Event::AdminRoleChanged {
                                role: role.clone(),
                                previous,
                                current: admin_role.clone(),
                            },
                        ],
                    )
                }
            },
            None => Err(Error::RoleNotFound { role: role.clone() }),
        }
    }

    fn add_role_member(
        &mut self,
        context: &AuthorizationContext,
        role: &String,
        account: &AccountId,
    ) -> (outcome: Result<Vec<Event>, Error>) {
        context.assert_internal_call()?;
        self.insert_member(role, account)
    }
}

} // verus!
