//! A host that keeps a message behind both components.

use vstd::prelude::*;
use vstd::string::*;
use crate::access_control::{AccessControl, RoleRegistry};
use crate::context::{AccountId, AuthorizationContext};
use crate::error::{Error, ErrorView};
use crate::event::{Event, EventView};
use crate::model::{RegistryView, DEFAULT_ADMIN};
use crate::pausable::{toggled, Pausable, PauseGate};

verus! {

/// The role of the accounts that may mint.
pub const MINTER: &'static str = "minter";

/// The role of the accounts that may manage.
pub const MANAGER: &'static str = "manager";

/// A host with a message of its own, a role registry and a pause gate.
///
/// The message is read through the pause gate, which the members of
/// [`DEFAULT_ADMIN`] toggle.
pub struct StatusMessage {
    data: String,
    access_control_roles: RoleRegistry,
    pause_status: PauseGate,
}

/// The registry of a host set up for `owner`, `minter` and `manager`: the
/// three roles in this order, each with its one member and with
/// [`DEFAULT_ADMIN`] as its admin role.
pub open spec fn seeded_roles(
    owner: Seq<char>,
    minter: Seq<char>,
    manager: Seq<char>,
) -> RegistryView {
    RegistryView::empty().with_role_granted(DEFAULT_ADMIN@, owner).with_role_granted(
        MINTER@,
        minter,
    ).with_role_granted(MANAGER@, manager)
}

/// What setting a host up for `owner`, `minter` and `manager` reports.
pub open spec fn seeded_events(
    owner: Seq<char>,
    minter: Seq<char>,
    manager: Seq<char>,
) -> Seq<EventView> {
    seq![
        EventView::RoleAdded { role: DEFAULT_ADMIN@ },
        EventView::RoleGranted { role: DEFAULT_ADMIN@, account: owner },
        EventView::RoleAdded { role: MINTER@ },
        EventView::RoleGranted { role: MINTER@, account: minter },
        EventView::RoleAdded { role: MANAGER@ },
        EventView::RoleGranted { role: MANAGER@, account: manager },
    ]
}

/// The three role names of a host differ from each other.
pub proof fn lemma_role_names_differ()
    ensures
        DEFAULT_ADMIN@ != MINTER@,
        DEFAULT_ADMIN@ != MANAGER@,
        MINTER@ != MANAGER@,
{
    reveal_strlit("default_admin");
    reveal_strlit("minter");
    reveal_strlit("manager");
    assert(DEFAULT_ADMIN@.len() == 13);
    assert(MINTER@.len() == 6);
    assert(MANAGER@.len() == 7);
}

impl StatusMessage {
    /// The host's message.
    pub closed spec fn data(&self) -> Seq<char> {
        self.data@
    }

    /// The host's registry.
    pub closed spec fn registry(&self) -> RegistryView {
        self.access_control_roles@
    }

    /// Whether the host's pause gate is closed.
    pub closed spec fn paused(&self) -> bool {
        self.pause_status@
    }

    /// A running host with the message `data` whose registry holds the
    /// roles [`DEFAULT_ADMIN`], [`MINTER`] and [`MANAGER`] with `owner`,
    /// `minter` and `manager` as their members. Reserved to the host
    /// itself: `Forbidden` for every other caller.
    pub fn new(
        context: &AuthorizationContext,
        owner: AccountId,
        minter: AccountId,
        manager: AccountId,
        data: String,
    ) -> (outcome: Result<(Self, Vec<Event>), Error>)
        ensures
            (match outcome {
                Ok((host, events)) => {
                    &&& context.is_internal_call()
                    &&& host.data() == data@
                    &&& !host.is_paused()
                    &&& host.roles() == seeded_roles(owner@, minter@, manager@)
                    &&& events.deep_view() == seeded_events(owner@, minter@, manager@)
                },
                Err(error) => !context.is_internal_call() && error@ == ErrorView::Forbidden,
            }),
    {
        let mut host = StatusMessage::without_setup(data);
        let mut events = host.setup_account_role(context, &DEFAULT_ADMIN.to_owned(), &owner)?;
        let mut minted = host.setup_account_role(context, &MINTER.to_owned(), &minter)?;
        let mut managed = host.setup_account_role(context, &MANAGER.to_owned(), &manager)?;
        proof {
            lemma_role_names_differ();
        }
        let ghost first = events.deep_view();
        let ghost second = minted.deep_view();
        let ghost third = managed.deep_view();
        events.append(&mut minted);
        events.append(&mut managed);
        assert(events.deep_view() =~= first + second + third);
        Ok((host, events))
    }

    /// A running host with the message `data` and without any role.
    pub fn without_setup(data: String) -> (host: Self)
        ensures
            host.data() == data@,
            !host.is_paused(),
            host.roles() == RegistryView::empty(),
    {
        StatusMessage {
            data,
            access_control_roles: RoleRegistry::new(),
            pause_status: PauseGate::new(),
        }
    }

    /// The host that is made of the three parts: the way back from what
    /// a host kept between calls.
    pub fn from_parts(
        data: String,
        access_control_roles: RoleRegistry,
        pause_status: PauseGate,
    ) -> (host: Self)
        ensures
            host.data() == data@,
            host.roles() == access_control_roles@,
            host.is_paused() == pause_status@,
    {
        StatusMessage { data, access_control_roles, pause_status }
    }

    /// The three parts that the host is made of: its message, its registry
    /// and its pause gate.
    pub fn into_parts(self) -> (parts: (String, RoleRegistry, PauseGate))
        ensures
            parts.0@ == self.data(),
            parts.1@ == self.roles(),
            parts.2@ == self.is_paused(),
    {
        (self.data, self.access_control_roles, self.pause_status)
    }

    /// The host's message; `OperationPaused` while the host is paused.
    pub fn get_data(&self) -> (outcome: Result<String, Error>)
        ensures
            (match outcome {
                Ok(data) => !self.is_paused() && data@ == self.data(),
                Err(error) => self.is_paused() && error@ == ErrorView::OperationPaused,
            }),
    {
        match self.when_not_paused() {
            Ok(_) => Ok(self.data.clone()),
            Err(error) => Err(error),
        }
    }

    /// Toggles the pause gate on behalf of the caller, who has to hold
    /// [`DEFAULT_ADMIN`], and reports which way it went.
    pub fn pub_toggle_pause(
        &mut self,
        context: &AuthorizationContext,
    ) -> (outcome: Result<Event, Error>)
        ensures
            final(self).data() == old(self).data(),
            final(self).roles() == old(self).roles(),
            (match outcome {
                Ok(event) => {
                    &&& old(self).roles().role_refusal(DEFAULT_ADMIN@, context.caller()) is None
                    &&& final(self).is_paused() == toggled(old(self).is_paused())
                    &&& event@ == (if old(self).is_paused() {
                        EventView::Unpaused
                    } else {
                        EventView::Paused
                    })
                },
                Err(error) => {
                    &&& old(self).roles().role_refusal(DEFAULT_ADMIN@, context.caller()) == Some(
                        error@,
                    )
                    &&& final(self).is_paused() == old(self).is_paused()
                },
            }),
    {
        match self.check_role(&DEFAULT_ADMIN.to_owned(), context.current_caller()) {
            Ok(_) => Ok(self.toggle_pause()),
            Err(error) => Err(error),
        }
    }

    /// Whether the host is paused.
    pub fn pause_status(&self) -> (paused: bool)
        ensures
            paused == self.is_paused(),
    {
        self.pause_status.pause_status()
    }
}

impl AccessControl for StatusMessage {
    open spec fn roles(&self) -> RegistryView {
        self.registry()
    }

    proof fn lemma_roles_wf(&self) {
        self.access_control_roles.lemma_roles_wf();
    }

    fn add_role(&mut self, role: &String) -> (events: Vec<Event>)
        ensures
            final(self).data() == old(self).data(),
            final(self).paused() == old(self).paused(),
    {
        self.access_control_roles.add_role(role)
    }

    fn has_role(&self, role: &String, account: &AccountId) -> (held: Result<bool, Error>) {
        self.access_control_roles.has_role(role, account)
    }

    fn check_role(&self, role: &String, account: &AccountId) -> (outcome: Result<(), Error>) {
        self.access_control_roles.check_role(role, account)
    }

    fn assert_role(
        &self,
        context: &AuthorizationContext,
        role: &String,
    ) -> (outcome: Result<(), Error>) {
        self.access_control_roles.assert_role(context, role)
    }

    fn get_role_admin(&self, role: &String) -> (admin_role: Result<String, Error>) {
        self.access_control_roles.get_role_admin(role)
    }

    fn get_account_roles(&self, account: &AccountId) -> (found: Vec<String>) {
        self.access_control_roles.get_account_roles(account)
    }

    fn grant_role(
        &mut self,
        context: &AuthorizationContext,
        role: &String,
        account: &AccountId,
    ) -> (outcome: Result<Vec<Event>, Error>)
        ensures
            final(self).data() == old(self).data(),
            final(self).paused() == old(self).paused(),
    {
        self.access_control_roles.grant_role(context, role, account)
    }

    fn setup_account_role(
        &mut self,
        context: &AuthorizationContext,
        role: &String,
        account: &AccountId,
    ) -> (outcome: Result<Vec<Event>, Error>)
        ensures
            final(self).data() == old(self).data(),
            final(self).paused() == old(self).paused(),
    {
        self.access_control_roles.setup_account_role(context, role, account)
    }

    fn delete_role_member(
        &mut self,
        context: &AuthorizationContext,
        role: &String,
        account: &AccountId,
    ) -> (outcome: Result<Vec<Event>, Error>)
        ensures
            final(self).data() == old(self).data(),
            final(self).paused() == old(self).paused(),
    {
        self.access_control_roles.delete_role_member(context, role, account)
    }

    fn revoke_role(
        &mut self,
        context: &AuthorizationContext,
        role: &String,
        account: &AccountId,
    ) -> (outcome: Result<Vec<Event>, Error>)
        ensures
            final(self).data() == old(self).data(),
            final(self).paused() == old(self).paused(),
    {
        self.access_control_roles.revoke_role(context, role, account)
    }

    fn set_admin_role(
        &mut self,
        context: &AuthorizationContext,
        role: &String,
        admin_role: &String,
    ) -> (outcome: Result<Vec<Event>, Error>)
        ensures
            final(self).data() == old(self).data(),
            final(self).paused() == old(self).paused(),
    {
        self.access_control_roles.set_admin_role(context, role, admin_role)
    }

    fn add_role_member(
        &mut self,
        context: &AuthorizationContext,
        role: &String,
        account: &AccountId,
    ) -> (outcome: Result<Vec<Event>, Error>)
        ensures
            final(self).data() == old(self).data(),
            final(self).paused() == old(self).paused(),
    {
        self.access_control_roles.add_role_member(context, role, account)
    }
}

impl Pausable for StatusMessage {
    open spec fn is_paused(&self) -> bool {
        self.paused()
    }

    fn toggle_pause(&mut self) -> (event: Event)
        ensures
            final(self).data() == old(self).data(),
            final(self).registry() == old(self).registry(),
    {
        self.pause_status.toggle_pause()
    }

    fn pause(&mut self) -> (event: Event)
        ensures
            final(self).data() == old(self).data(),
            final(self).registry() == old(self).registry(),
    {
        self.pause_status.pause()
    }

    fn unpause(&mut self) -> (event: Event)
        ensures
            final(self).data() == old(self).data(),
            final(self).registry() == old(self).registry(),
    {
        self.pause_status.unpause()
    }

    fn when_not_paused(&self) -> (outcome: Result<(), Error>) {
        self.pause_status.when_not_paused()
    }
}

} // verus!
