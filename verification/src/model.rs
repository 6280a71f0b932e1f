//! The registry of roles as a mathematical value.
//!
//! Contracts speak of a registry through [`RegistryView`]: the names of the
//! roles in the order in which they were created, and what each role holds.

use vstd::prelude::*;
use crate::error::ErrorView;
use crate::event::EventView;

verus! {

/// The name of the role that administers every role from its creation on,
/// itself included.
pub const DEFAULT_ADMIN: &'static str = "default_admin";

/// What one role holds.
pub struct RoleView {
    /// The accounts that hold the role.
    pub members: Set<Seq<char>>,
    /// The role whose members may change this role.
    pub admin_role: Seq<char>,
}

/// What a registry holds.
pub struct RegistryView {
    /// The names of the roles, oldest first.
    pub names: Seq<Seq<char>>,
    /// Each role by its name.
    pub roles: Map<Seq<char>, RoleView>,
}

impl RoleView {
    /// A role as it is created: without members, administered by
    /// [`DEFAULT_ADMIN`].
    pub open spec fn fresh() -> RoleView {
        RoleView { members: Set::empty(), admin_role: DEFAULT_ADMIN@ }
    }
}

impl RegistryView {
    /// Every role is named once, and the named roles are the roles held.
    pub open spec fn wf(self) -> bool {
        &&& self.names.no_duplicates()
        &&& forall|role: Seq<char>|
            #![trigger self.roles.contains_key(role)]
            #![trigger self.names.contains(role)]
            self.roles.contains_key(role) <==> self.names.contains(role)
    }

    /// The registry without any role.
    pub open spec fn empty() -> RegistryView {
        RegistryView { names: Seq::empty(), roles: Map::empty() }
    }

    /// The registry that holds `roles` under `names`, position by position
    /// and in that order.
    pub open spec fn of_roles(names: Seq<Seq<char>>, roles: Seq<RoleView>) -> RegistryView
        recommends
            names.len() == roles.len(),
            names.no_duplicates(),
    {
        RegistryView {
            names,
            roles: Map::new(
                |role: Seq<char>| names.contains(role),
                |role: Seq<char>| roles[names.index_of(role)],
            ),
        }
    }

    /// Whether `role` was created.
    pub open spec fn contains_role(self, role: Seq<char>) -> bool {
        self.roles.contains_key(role)
    }

    /// Whether `role` was created and `account` is one of its members.
    pub open spec fn has_role(self, role: Seq<char>, account: Seq<char>) -> bool {
        self.contains_role(role) && self.roles[role].members.contains(account)
    }

    /// The admin role of `role`, where `role` was created.
    pub open spec fn role_admin(self, role: Seq<char>) -> Seq<char>
        recommends
            self.contains_role(role),
    {
        self.roles[role].admin_role
    }

    /// The test that a role passes where `account` holds it.
    pub open spec fn held_by(self, account: Seq<char>) -> spec_fn(Seq<char>) -> bool {
        |role: Seq<char>| self.has_role(role, account)
    }

    /// The roles that `account` holds, in the order of their creation.
    pub open spec fn roles_of(self, account: Seq<char>) -> Seq<Seq<char>> {
        self.names.filter(self.held_by(account))
    }

    /// The registry once `role` exists: unchanged where it did, with a fresh
    /// role after all others where it did not.
    pub open spec fn with_role(self, role: Seq<char>) -> RegistryView {
        if self.contains_role(role) {
            self
        } else {
            RegistryView {
                names: self.names.push(role),
                roles: self.roles.insert(role, RoleView::fresh()),
            }
        }
    }

    /// The registry in which `account` is a member of the existing `role`.
    pub open spec fn with_member(self, role: Seq<char>, account: Seq<char>) -> RegistryView
        recommends
            self.contains_role(role),
    {
        RegistryView {
            names: self.names,
            roles: self.roles.insert(
                role,
                RoleView {
                    members: self.roles[role].members.insert(account),
                    admin_role: self.roles[role].admin_role,
                },
            ),
        }
    }

    /// The registry in which `role` exists and `account` is a member of it:
    /// the role is created where it did not exist, and the account is added
    /// to it.
    pub open spec fn with_role_granted(self, role: Seq<char>, account: Seq<char>) -> RegistryView {
        self.with_role(role).with_member(role, account)
    }

    /// The registry in which `account` is no member of the existing `role`.
    pub open spec fn without_member(self, role: Seq<char>, account: Seq<char>) -> RegistryView
        recommends
            self.contains_role(role),
    {
        RegistryView {
            names: self.names,
            roles: self.roles.insert(
                role,
                RoleView {
                    members: self.roles[role].members.remove(account),
                    admin_role: self.roles[role].admin_role,
                },
            ),
        }
    }

    /// The registry in which `admin_role` administers the existing `role`.
    pub open spec fn with_admin(self, role: Seq<char>, admin_role: Seq<char>) -> RegistryView
        recommends
            self.contains_role(role),
    {
        RegistryView {
            names: self.names,
            roles: self.roles.insert(
                role,
                RoleView { members: self.roles[role].members, admin_role },
            ),
        }
    }

    /// What making sure that `role` exists reports: its creation, where it
    /// did not exist.
    pub open spec fn events_of_role(self, role: Seq<char>) -> Seq<EventView> {
        if self.contains_role(role) {
            Seq::empty()
        } else {
            seq![EventView::RoleAdded { role }]
        }
    }

    /// What making `account` a member of `role` reports: the grant, where
    /// the account was no member.
    pub open spec fn events_of_grant(self, role: Seq<char>, account: Seq<char>) -> Seq<EventView> {
        if self.has_role(role, account) {
            Seq::empty()
        } else {
            seq![EventView::RoleGranted { role, account }]
        }
    }

    /// What making sure that `role` exists and then making `account` a
    /// member of it reports: the creation, where the role did not exist, and
    /// after it the grant, where the account was no member.
    pub open spec fn events_of_role_granted(self, role: Seq<char>, account: Seq<char>) -> Seq<
        EventView,
    > {
        self.events_of_role(role) + self.with_role(role).events_of_grant(role, account)
    }

    /// What making `account` no member of `role` reports: the revocation,
    /// where the account was a member.
    pub open spec fn events_of_revoke(self, role: Seq<char>, account: Seq<char>) -> Seq<
        EventView,
    > {
        if self.has_role(role, account) {
            seq![EventView::RoleRevoked { role, account }]
        } else {
            Seq::empty()
        }
    }

    /// What making `admin_role` the admin role of `role` reports: the
    /// change from the former admin role, where that is another one.
    pub open spec fn events_of_admin(self, role: Seq<char>, admin_role: Seq<char>) -> Seq<
        EventView,
    > {
        if self.role_admin(role) == admin_role {
            Seq::empty()
        } else {
            seq![
                EventView::AdminRoleChanged {
                    role,
                    previous: self.role_admin(role),
                    current: admin_role,
                },
            ]
        }
    }

    /// Why `account` does not pass for a member of `role`, if it does not:
    /// `RoleNotFound` where the role was never created, `Unauthorized` where
    /// the account is no member of it.
    pub open spec fn role_refusal(self, role: Seq<char>, account: Seq<char>) -> Option<ErrorView> {
        if !self.contains_role(role) {
            Some(ErrorView::RoleNotFound { role })
        } else if !self.has_role(role, account) {
            Some(ErrorView::Unauthorized { account, role })
        } else {
            None
        }
    }

    /// Why a step that is reserved to the host itself is refused on `role`,
    /// if it is: `Forbidden` where the call is not the host's own, and for
    /// the host `RoleNotFound` where the role was never created.
    pub open spec fn host_refusal(self, internal_call: bool, role: Seq<char>) -> Option<ErrorView> {
        if !internal_call {
            Some(ErrorView::Forbidden)
        } else if !self.contains_role(role) {
            Some(ErrorView::RoleNotFound { role })
        } else {
            None
        }
    }

    /// Why `caller` may not change `role`, if it may not: the role has to
    /// exist, and the caller has to pass for a member of the admin role that
    /// the role has at that moment.
    pub open spec fn admin_refusal(self, caller: Seq<char>, role: Seq<char>) -> Option<ErrorView> {
        if !self.contains_role(role) {
            Some(ErrorView::RoleNotFound { role })
        } else {
            self.role_refusal(self.role_admin(role), caller)
        }
    }
}

} // verus!
