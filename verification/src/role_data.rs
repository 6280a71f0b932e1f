//! The record that a registry keeps of one role.

use vstd::prelude::*;
use vstd::string::*;
use crate::context::AccountId;
use crate::model::{RegistryView, RoleView, DEFAULT_ADMIN};

verus! {

/// The members of one role and the name of the role that administers it.
///
/// An account is held at most once, whatever number of times it was added.
pub struct RoleData {
    members: Vec<AccountId>,
    admin_role: String,
}

/// One role as a host keeps it between calls: its name, the name of its
/// admin role and its members, as plain values.
#[derive(Debug, PartialEq, Eq)]
pub struct RoleRecord {
    pub role: String,
    pub admin_role: String,
    pub members: Vec<AccountId>,
}

impl RoleRecord {
    /// What the record says the role holds. An account that is listed twice
    /// is a member once.
    pub open spec fn data(&self) -> RoleView {
        RoleView { members: self.members.deep_view().to_set(), admin_role: self.admin_role@ }
    }
}

/// The names of the roles of `records`, in their order.
pub open spec fn record_names(records: Seq<RoleRecord>) -> Seq<Seq<char>> {
    Seq::new(records.len(), |i: int| records[i].role@)
}

/// What the roles of `records` hold, in their order.
pub open spec fn record_roles(records: Seq<RoleRecord>) -> Seq<RoleView> {
    Seq::new(records.len(), |i: int| records[i].data())
}

/// The registry that `records` describe, where no two of them have one
/// name.
pub open spec fn registry_of(records: Seq<RoleRecord>) -> RegistryView {
    RegistryView::of_roles(record_names(records), record_roles(records))
}

/// The accounts of `members`, in their order.
spec fn accounts_of(members: Seq<AccountId>) -> Seq<Seq<char>> {
    Seq::new(members.len(), |i: int| members[i]@)
}

impl View for RoleData {
    type V = RoleView;

    closed spec fn view(&self) -> RoleView {
        RoleView { members: accounts_of(self.members@).to_set(), admin_role: self.admin_role@ }
    }
}

impl RoleData {
    #[verifier::type_invariant]
    spec fn inv(self) -> bool {
        accounts_of(self.members@).no_duplicates()
    }

    /// Where `account` stands among the members, if it is one.
    fn position(&self, account: &AccountId) -> (found: Option<usize>)
        ensures
            match found {
                Some(i) => i < self.members.len() && self.members[i as int]@ == account@,
                None => !accounts_of(self.members@).contains(account@),
            },
    {
        let mut i: usize = 0;
        while i < self.members.len()
            invariant
                i <= self.members.len(),
                forall|j: int| 0 <= j < i ==> self.members[j]@ != account@,
            decreases self.members.len() - i,
        {
            if self.members[i] == *account {
                return Some(i);
            }
            i += 1;
        }
        None
    }

    /// A role without members that `admin_role` administers.
    pub fn new(admin_role: String) -> (data: Self)
        ensures
            data@.members == Set::<Seq<char>>::empty(),
            data@.admin_role == admin_role@,
    {
        RoleData { members: Vec::new(), admin_role }
    }

    /// A role that `admin_role` administers, with the accounts of `members`
    /// as its members.
    pub fn from_members(admin_role: String, members: &Vec<AccountId>) -> (data: Self)
        ensures
            data@.members == members.deep_view().to_set(),
            data@.admin_role == admin_role@,
    {
        let mut data = RoleData::new(admin_role);
        let mut i: usize = 0;
        while i < members.len()
            invariant
                i <= members.len(),
                data@.admin_role == admin_role@,
                data@.members == members.deep_view().take(i as int).to_set(),
            decreases members.len() - i,
        {
            let _ = data.insert(&members[i]);
            proof {
                let accounts = members.deep_view();
                assert(accounts.take(i as int + 1) =~= accounts.take(i as int).push(
                    accounts[i as int],
                ));
                accounts.take(i as int).lemma_push_to_set_commute(accounts[i as int]);
            }
            i += 1;
        }
        assert(members.deep_view().take(i as int) =~= members.deep_view());
        data
    }

    /// The members, each once.
    pub fn members(&self) -> (accounts: Vec<AccountId>)
        ensures
            accounts.deep_view().to_set() == self@.members,
            accounts.deep_view().no_duplicates(),
    {
        proof {
            use_type_invariant(&*self);
        }
        let mut accounts: Vec<AccountId> = Vec::new();
        let mut i: usize = 0;
        while i < self.members.len()
            invariant
                i <= self.members.len(),
                accounts.len() == i,
                forall|j: int| 0 <= j < i ==> accounts[j]@ == self.members[j]@,
            decreases self.members.len() - i,
        {
            accounts.push(self.members[i].clone());
            i += 1;
        }
        assert(accounts.deep_view() =~= accounts_of(self.members@));
        accounts
    }

    /// A role as a registry creates it: without members, administered by
    /// [`DEFAULT_ADMIN`].
    pub fn fresh() -> (data: Self)
        ensures
            data@ == RoleView::fresh(),
    {
        RoleData::new(DEFAULT_ADMIN.to_owned())
    }

    /// Whether `account` is a member.
    pub fn contains(&self, account: &AccountId) -> (held: bool)
        ensures
            held == self@.members.contains(account@),
    {
        match self.position(account) {
            Some(i) => {
                assert(accounts_of(self.members@)[i as int] == account@);
                true
            },
            None => false,
        }
    }

    /// Makes `account` a member. Returns whether it was none before.
    pub fn insert(&mut self, account: &AccountId) -> (added: bool)
        ensures
            added == !old(self)@.members.contains(account@),
            final(self)@.members == old(self)@.members.insert(account@),
            final(self)@.admin_role == old(self)@.admin_role,
    {
        proof {
            use_type_invariant(&*self);
        }
        match self.position(account) {
            Some(i) => {
                assert(accounts_of(self.members@)[i as int] == account@);
                false
            },
            None => {
                let mut members: Vec<AccountId> = Vec::new();
                std::mem::swap(&mut members, &mut self.members);
                members.push(account.clone());
                proof {
                    let before = accounts_of(old(self).members@);
                    let after = accounts_of(members@);
                    assert(after =~= before.push(account@));
                    before.lemma_push_to_set_commute(account@);
                }
                self.members = members;
                true
            },
        }
    }

    /// Makes `account` no member. Returns whether it was one before.
    pub fn remove(&mut self, account: &AccountId) -> (removed: bool)
        ensures
            removed == old(self)@.members.contains(account@),
            final(self)@.members == old(self)@.members.remove(account@),
            final(self)@.admin_role == old(self)@.admin_role,
    {
        proof {
            use_type_invariant(&*self);
        }
        match self.position(account) {
            Some(i) => {
                let mut members: Vec<AccountId> = Vec::new();
                std::mem::swap(&mut members, &mut self.members);
                let _ = members.remove(i);
                proof {
                    let before = accounts_of(old(self).members@);
                    let after = accounts_of(members@);
                    assert(before[i as int] == account@);
                    assert(after =~= before.remove(i as int));
                    assert forall|a: Seq<char>| after.to_set().contains(a) <==> before.to_set().remove(
                        account@,
                    ).contains(a) by {
                        if after.contains(a) {
                            let k = after.index_of(a);
                            assert(before[if k < i { k } else { k + 1 }] == a);
                        }
                        if before.contains(a) && a != account@ {
                            let k = before.index_of(a);
                            if k < i {
                                assert(after[k] == a);
                            } else {
                                assert(after[k - 1] == a);
                            }
                        }
                    }
                }
                self.members = members;
                true
            },
            None => false,
        }
    }

    /// The name of the role that administers this one.
    pub fn admin_role(&self) -> (admin_role: &String)
        ensures
            admin_role@ == self@.admin_role,
    {
        &self.admin_role
    }

    /// Replaces the role that administers this one.
    pub fn set_admin_role(&mut self, admin_role: String)
        ensures
            final(self)@.members == old(self)@.members,
            final(self)@.admin_role == admin_role@,
    {
        proof {
            use_type_invariant(&*self);
        }
        self.admin_role = admin_role;
    }
}

} // verus!
