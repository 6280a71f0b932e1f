//! What the engine reports of the changes it makes.

use vstd::prelude::*;
use vstd::string::*;

verus! {

/// A change that an operation made. An operation reports one event for each
/// change and none where it changed nothing; the host appends them to its log.
#[derive(Debug, PartialEq, Eq)]
pub enum Event {
    /// A role was created.
    RoleAdded { role: String },
    /// An account became a member of a role.
    RoleGranted { role: String, account: String },
    /// An account stopped being a member of a role.
    RoleRevoked { role: String, account: String },
    /// The admin role of a role was replaced.
    AdminRoleChanged { role: String, previous: String, current: String },
    /// The host went from running to paused.
    Paused,
    /// The host went from paused to running.
    Unpaused,
}

/// An [`Event`] with its names as sequences of characters.
pub enum EventView {
    RoleAdded { role: Seq<char> },
    RoleGranted { role: Seq<char>, account: Seq<char> },
    RoleRevoked { role: Seq<char>, account: Seq<char> },
    AdminRoleChanged { role: Seq<char>, previous: Seq<char>, current: Seq<char> },
    Paused,
    Unpaused,
}

impl EventView {
    /// The line that the event leaves in a log.
    pub open spec fn message(self) -> Seq<char> {
        match self {
            EventView::RoleAdded { role } => "Role "@ + role + " is added"@,
            EventView::RoleGranted { role, account } => "Account "@ + account + " is added to "@
                + role,
            EventView::RoleRevoked { role, account } => "Role "@ + role + " is revoked from "@
                + account,
            EventView::AdminRoleChanged { role, previous, current } => "Changed admin role from: "@
                + previous + ". To: "@ + current,
            EventView::Paused => "The system is paused"@,
            EventView::Unpaused => "The system is unpaused"@,
        }
    }
}

impl View for Event {
    type V = EventView;

    open spec fn view(&self) -> EventView {
        match self {
            Event::RoleAdded { role } => EventView::RoleAdded { role: role@ },
            Event::RoleGranted { role, account } => EventView::RoleGranted {
                role: role@,
                account: account@,
            },
            Event::RoleRevoked { role, account } => EventView::RoleRevoked {
                role: role@,
                account: account@,
            },
            Event::AdminRoleChanged { role, previous, current } => EventView::AdminRoleChanged {
                role: role@,
                previous: previous@,
                current: current@,
            },
            Event::Paused => EventView::Paused,
            Event::Unpaused => EventView::Unpaused,
        }
    }
}

impl DeepView for Event {
    type V = EventView;

    open spec fn deep_view(&self) -> EventView {
        self@
    }
}

impl Event {
    /// The line that the event leaves in a log.
    pub fn message(&self) -> (text: String)
        ensures
            text@ == self@.message(),
    {
        match self {
            Event::RoleAdded { role } => {
                let mut text = "Role ".to_owned();
                text.append(role.as_str());
                text.append(" is added");
                text
            },
            Event::RoleGranted { role, account } => {
                let mut text = "Account ".to_owned();
                text.append(account.as_str());
                text.append(" is added to ");
                text.append(role.as_str());
                text
            },
            Event::RoleRevoked { role, account } => {
                let mut text = "Role ".to_owned();
                text.append(role.as_str());
                text.append(" is revoked from ");
                text.append(account.as_str());
                text
            },
            Event::AdminRoleChanged { role: _, previous, current } => {
                let mut text = "Changed admin role from: ".to_owned();
                text.append(previous.as_str());
                text.append(". To: ");
                text.append(current.as_str());
                text
            },
            Event::Paused => "The system is paused".to_owned(),
            Event::Unpaused => "The system is unpaused".to_owned(),
        }
    }
}

} // verus!
