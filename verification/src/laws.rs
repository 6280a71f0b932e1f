//! What holds of every registry and of every pause gate, whatever was done
//! to them before.
//!
//! The operations of [`AccessControl`](crate::access_control::AccessControl)
//! state their effect as a value of [`RegistryView`]; the lemmas here are
//! about those values.

use vstd::prelude::*;
use crate::error::ErrorView;
use crate::event::EventView;
use crate::model::{RegistryView, RoleView, DEFAULT_ADMIN};
use crate::pausable::toggled;
use crate::role_data::{record_names, registry_of, RoleRecord};

verus! {

/// A filter keeps the same items under two tests that agree on every item.
proof fn lemma_filter_agree<A>(items: Seq<A>, first: spec_fn(A) -> bool, second: spec_fn(A) -> bool)
    requires
        forall|i: int| 0 <= i < items.len() ==> first(#[trigger] items[i]) == second(items[i]),
    ensures
        items.filter(first) == items.filter(second),
    decreases items.len(),
{
    reveal(Seq::filter);
    if items.len() > 0 {
        lemma_filter_agree(items.drop_last(), first, second);
    }
}

/// A filter keeps nothing under a test that no item passes.
proof fn lemma_filter_none<A>(items: Seq<A>, test: spec_fn(A) -> bool)
    requires
        forall|i: int| 0 <= i < items.len() ==> !test(#[trigger] items[i]),
    ensures
        items.filter(test) == Seq::<A>::empty(),
    decreases items.len(),
{
    reveal(Seq::filter);
    if items.len() > 0 {
        lemma_filter_none(items.drop_last(), test);
    }
}

/// A filter of items that all differ keeps exactly the items that pass the
/// test, each once and in the order in which they stood.
proof fn lemma_filter_keeps_order<A>(items: Seq<A>, test: spec_fn(A) -> bool)
    requires
        items.no_duplicates(),
    ensures
        items.filter(test).no_duplicates(),
        forall|item: A| #[trigger]
            items.filter(test).contains(item) <==> items.contains(item) && test(item),
        forall|i: int, j: int|
            0 <= i < j < items.filter(test).len() ==> items.index_of(
                #[trigger] items.filter(test)[i],
            ) < items.index_of(#[trigger] items.filter(test)[j]),
    decreases items.len(),
{
    reveal(Seq::filter);
    let kept = items.filter(test);
    if items.len() > 0 {
        let rest = items.drop_last();
        let last = items.last();
        let kept_rest = rest.filter(test);
        lemma_filter_keeps_order(rest, test);
        assert(!rest.contains(last));
        assert forall|item: A| #[trigger]
            kept.contains(item) <==> items.contains(item) && test(item) by {
            if kept.contains(item) && kept.index_of(item) < kept_rest.len() {
                assert(kept_rest.contains(item));
            }
            if items.contains(item) && test(item) {
                assert(items[items.index_of(item)] == item);
            }
        }
        assert forall|i: int, j: int| 0 <= i < j < kept.len() implies kept[i] != kept[j]
            && items.index_of(kept[i]) < items.index_of(kept[j]) by {
            assert(kept_rest.contains(kept[i]));
            if j < kept_rest.len() {
                assert(kept_rest.contains(kept[j]));
            }
        }
    }
}

/// The registry without roles is well formed.
pub proof fn lemma_empty_wf()
    ensures
        RegistryView::empty().wf(),
{
}

/// Creating a role keeps a registry well formed.
pub proof fn lemma_with_role_wf(registry: RegistryView, role: Seq<char>)
    requires
        registry.wf(),
    ensures
        registry.with_role(role).wf(),
{
    let after = registry.with_role(role);
    if !registry.contains_role(role) {
        assert forall|other: Seq<char>| after.roles.contains_key(other) <==> after.names.contains(
            other,
        ) by {
            if registry.names.contains(other) {
                let k = registry.names.index_of(other);
                assert(after.names[k] == other);
            }
            if other == role {
                assert(after.names[registry.names.len() as int] == other);
            }
        }
    }
}

/// Changing the members or the admin role of an existing role keeps a
/// registry well formed.
pub proof fn lemma_changes_keep_wf(
    registry: RegistryView,
    role: Seq<char>,
    account: Seq<char>,
    admin_role: Seq<char>,
)
    requires
        registry.wf(),
        registry.contains_role(role),
    ensures
        registry.with_member(role, account).wf(),
        registry.without_member(role, account).wf(),
        registry.with_admin(role, admin_role).wf(),
{
}

/// Creating a role where it does not exist and adding a member to it keeps
/// a registry well formed.
pub proof fn lemma_with_role_granted_wf(
    registry: RegistryView,
    role: Seq<char>,
    account: Seq<char>,
)
    requires
        registry.wf(),
    ensures
        registry.with_role_granted(role, account).wf(),
{
    lemma_with_role_wf(registry, role);
}

/// Records without a repeated name describe a well-formed registry, with
/// the roles of the records and what the records say they hold.
pub proof fn lemma_records_describe_a_registry(records: Seq<RoleRecord>)
    requires
        record_names(records).no_duplicates(),
    ensures
        registry_of(records).wf(),
        registry_of(records).names == record_names(records),
        forall|i: int|
            0 <= i < records.len() ==> registry_of(records).contains_role(
                (#[trigger] records[i]).role@,
            ) && registry_of(records).roles[records[i].role@] == records[i].data(),
{
    let names = record_names(records);
    assert forall|i: int| 0 <= i < records.len() implies registry_of(records).contains_role(
        (#[trigger] records[i]).role@,
    ) && registry_of(records).roles[records[i].role@] == records[i].data() by {
        assert(names[i] == records[i].role@);
    }
}

/// A step that is reserved to the host is refused to every other caller
/// with `Forbidden`, whatever roles exist and whatever roles the caller
/// holds; for the host it fails only on a role that was never created.
pub proof fn lemma_host_steps_are_reserved(registry: RegistryView, role: Seq<char>)
    ensures
        registry.host_refusal(false, role) == Some(ErrorView::Forbidden),
        registry.host_refusal(true, role) is None <==> registry.contains_role(role),
        !registry.contains_role(role) ==> registry.host_refusal(true, role) == Some(
            ErrorView::RoleNotFound { role },
        ),
{
}

/// A role exists after an operation exactly if it existed before or the
/// operation was the creation of that role: members and admin roles change
/// without any role coming into being.
pub proof fn lemma_roles_exist_by_creation(
    registry: RegistryView,
    role: Seq<char>,
    account: Seq<char>,
    admin_role: Seq<char>,
    other: Seq<char>,
)
    requires
        registry.contains_role(role),
    ensures
        registry.with_member(role, account).contains_role(other) == registry.contains_role(other),
        registry.without_member(role, account).contains_role(other) == registry.contains_role(
            other,
        ),
        registry.with_admin(role, admin_role).contains_role(other) == registry.contains_role(other),
        registry.with_role(other).contains_role(other),
        forall|created: Seq<char>|
            created != other ==> #[trigger] registry.with_role(created).contains_role(other)
                == registry.contains_role(other),
{
}

/// Of a role that was never created every question fails with
/// `RoleNotFound`: whether an account holds it, and whether a caller may
/// change it.
pub proof fn lemma_unknown_role_is_not_found(
    registry: RegistryView,
    role: Seq<char>,
    account: Seq<char>,
)
    requires
        !registry.contains_role(role),
    ensures
        !registry.has_role(role, account),
        registry.role_refusal(role, account) == Some(ErrorView::RoleNotFound { role }),
        registry.admin_refusal(account, role) == Some(ErrorView::RoleNotFound { role }),
{
}

/// A role is created without members and with [`DEFAULT_ADMIN`] as its
/// admin role; so the role of that name, once created, administers itself.
pub proof fn lemma_created_role_is_fresh(registry: RegistryView, role: Seq<char>)
    requires
        !registry.contains_role(role),
    ensures
        registry.with_role(role).roles[role] == RoleView::fresh(),
        registry.with_role(role).role_admin(role) == DEFAULT_ADMIN@,
        role == DEFAULT_ADMIN@ ==> registry.with_role(role).role_admin(role) == role,
        forall|account: Seq<char>| !#[trigger] registry.with_role(role).has_role(role, account),
{
}

/// A caller may change a role exactly if the role exists and the caller
/// holds the role's admin role. Where the role and its admin role exist
/// and the caller does not hold the admin role, the refusal is
/// `Unauthorized`, of the caller and the admin role.
pub proof fn lemma_only_admins_are_authorized(
    registry: RegistryView,
    caller: Seq<char>,
    role: Seq<char>,
)
    ensures
        registry.admin_refusal(caller, role) is None <==> registry.contains_role(role)
            && registry.has_role(registry.role_admin(role), caller),
        registry.contains_role(role) && registry.contains_role(registry.role_admin(role))
            && !registry.has_role(registry.role_admin(role), caller) ==> registry.admin_refusal(
            caller,
            role,
        ) == Some(ErrorView::Unauthorized { account: caller, role: registry.role_admin(role) }),
{
}

/// Where the role exists, a grant adds the account to it and creates
/// nothing.
pub proof fn lemma_grant_of_existing_role(
    registry: RegistryView,
    role: Seq<char>,
    account: Seq<char>,
)
    requires
        registry.contains_role(role),
    ensures
        registry.with_role_granted(role, account) == registry.with_member(role, account),
        registry.events_of_role_granted(role, account) == registry.events_of_grant(role, account),
{
}

/// After a grant the account holds the role, and after a revocation it
/// does not.
pub proof fn lemma_grant_and_revoke_take_effect(
    registry: RegistryView,
    role: Seq<char>,
    account: Seq<char>,
)
    ensures
        registry.with_role_granted(role, account).has_role(role, account),
        registry.contains_role(role) ==> registry.with_member(role, account).has_role(
            role,
            account,
        ),
        registry.contains_role(role) ==> !registry.without_member(role, account).has_role(
            role,
            account,
        ),
{
}

/// A grant or a revocation changes the membership of no other account and
/// in no other role, and leaves every admin role as it was.
pub proof fn lemma_grant_and_revoke_change_nothing_else(
    registry: RegistryView,
    role: Seq<char>,
    account: Seq<char>,
    other_role: Seq<char>,
    other_account: Seq<char>,
)
    requires
        registry.contains_role(role),
        other_role != role || other_account != account,
    ensures
        registry.with_member(role, account).has_role(other_role, other_account)
            == registry.has_role(other_role, other_account),
        registry.without_member(role, account).has_role(other_role, other_account)
            == registry.has_role(other_role, other_account),
        registry.with_member(role, account).role_admin(other_role) == registry.role_admin(
            other_role,
        ),
        registry.without_member(role, account).role_admin(other_role) == registry.role_admin(
            other_role,
        ),
{
}

/// Granting a role twice is granting it once: the second grant changes
/// nothing and reports nothing, and a caller who was authorized for the
/// first grant is authorized for the second.
pub proof fn lemma_grant_is_idempotent(
    registry: RegistryView,
    caller: Seq<char>,
    role: Seq<char>,
    account: Seq<char>,
)
    ensures
        registry.with_role_granted(role, account).with_role_granted(role, account)
            == registry.with_role_granted(role, account),
        registry.with_role_granted(role, account).events_of_role_granted(role, account) == Seq::<
            EventView,
        >::empty(),
        registry.admin_refusal(caller, role) is None ==> registry.with_role_granted(
            role,
            account,
        ).admin_refusal(caller, role) is None,
{
    let once = registry.with_role_granted(role, account);
    let twice = once.with_role_granted(role, account);
    assert(once.roles[role].members.insert(account) =~= once.roles[role].members);
    assert(twice.roles =~= once.roles);
}

/// Granting a role to an account that holds it changes nothing and
/// reports nothing.
pub proof fn lemma_grant_to_member_changes_nothing(
    registry: RegistryView,
    role: Seq<char>,
    account: Seq<char>,
)
    requires
        registry.has_role(role, account),
    ensures
        registry.with_member(role, account) == registry,
        registry.events_of_grant(role, account) == Seq::<EventView>::empty(),
{
    let after = registry.with_member(role, account);
    assert(registry.roles[role].members.insert(account) =~= registry.roles[role].members);
    assert(after.roles =~= registry.roles);
}

/// Revoking a role from an account that does not hold it changes nothing
/// and reports nothing.
pub proof fn lemma_revoke_from_stranger_changes_nothing(
    registry: RegistryView,
    role: Seq<char>,
    account: Seq<char>,
)
    requires
        registry.contains_role(role),
        !registry.has_role(role, account),
    ensures
        registry.without_member(role, account) == registry,
        registry.events_of_revoke(role, account) == Seq::<EventView>::empty(),
{
    let after = registry.without_member(role, account);
    assert(registry.roles[role].members.remove(account) =~= registry.roles[role].members);
    assert(after.roles =~= registry.roles);
}

/// Setting the admin role that a role has changes nothing and reports
/// nothing; setting another one is read back as the admin role, changes no
/// membership, and is reported once.
pub proof fn lemma_admin_role_is_what_was_set(
    registry: RegistryView,
    role: Seq<char>,
    admin_role: Seq<char>,
)
    requires
        registry.contains_role(role),
    ensures
        registry.with_admin(role, admin_role).role_admin(role) == admin_role,
        forall|other: Seq<char>, account: Seq<char>| #[trigger]
            registry.with_admin(role, admin_role).has_role(other, account) == registry.has_role(
                other,
                account,
            ),
        admin_role == registry.role_admin(role) ==> registry.with_admin(role, admin_role)
            == registry && registry.events_of_admin(role, admin_role) == Seq::<EventView>::empty(),
        admin_role != registry.role_admin(role) ==> registry.events_of_admin(role, admin_role).len()
            == 1,
{
    if admin_role == registry.role_admin(role) {
        let after = registry.with_admin(role, admin_role);
        assert(after.roles =~= registry.roles);
    }
}

/// The list of an account's roles holds exactly the roles that the account
/// holds, each once, and in the order in which the roles were created,
/// whatever the order in which the account was granted them.
pub proof fn lemma_roles_are_listed_in_creation_order(registry: RegistryView, account: Seq<char>)
    requires
        registry.wf(),
    ensures
        registry.roles_of(account).no_duplicates(),
        forall|role: Seq<char>| #[trigger]
            registry.roles_of(account).contains(role) <==> registry.has_role(role, account),
        forall|i: int, j: int|
            0 <= i < j < registry.roles_of(account).len() ==> registry.names.index_of(
                #[trigger] registry.roles_of(account)[i],
            ) < registry.names.index_of(#[trigger] registry.roles_of(account)[j]),
{
    lemma_filter_keeps_order(registry.names, registry.held_by(account));
}

/// The roles of an account are listed in the order in which the roles were
/// created: a role that the account is granted comes last in its list
/// where every role that the account holds so far is older.
pub proof fn lemma_granted_role_is_listed_last(
    registry: RegistryView,
    role: Seq<char>,
    account: Seq<char>,
)
    requires
        registry.wf(),
        registry.contains_role(role),
        !registry.has_role(role, account),
        forall|j: int|
            0 <= j < registry.names.len() && registry.has_role(
                #[trigger] registry.names[j],
                account,
            ) ==> j < registry.names.index_of(role),
    ensures
        registry.with_member(role, account).roles_of(account) == registry.roles_of(account).push(
            role,
        ),
{
    let names = registry.names;
    let after = registry.with_member(role, account);
    let before_test = registry.held_by(account);
    let after_test = after.held_by(account);
    let k = names.index_of(role);
    let older = names.take(k);
    let newer = names.skip(k + 1);
    assert(names =~= older + seq![role] + newer);
    lemma_filter_agree(older, before_test, after_test);
    lemma_filter_none(newer, before_test);
    lemma_filter_none(newer, after_test);
    Seq::<Seq<char>>::empty().lemma_filter_push(role, before_test);
    Seq::<Seq<char>>::empty().lemma_filter_push(role, after_test);
    lemma_filter_none(Seq::<Seq<char>>::empty(), before_test);
    lemma_filter_none(Seq::<Seq<char>>::empty(), after_test);
    Seq::filter_distributes_over_add(older, seq![role], before_test);
    Seq::filter_distributes_over_add(older + seq![role], newer, before_test);
    Seq::filter_distributes_over_add(older, seq![role], after_test);
    Seq::filter_distributes_over_add(older + seq![role], newer, after_test);
}

/// A role that is created for an account comes last in the account's list.
pub proof fn lemma_created_role_is_listed_last(
    registry: RegistryView,
    role: Seq<char>,
    account: Seq<char>,
)
    requires
        registry.wf(),
        !registry.contains_role(role),
    ensures
        registry.with_role_granted(role, account).roles_of(account) == registry.roles_of(
            account,
        ).push(role),
{
    let created = registry.with_role(role);
    lemma_with_role_wf(registry, role);
    let names = created.names;
    assert(names[registry.names.len() as int] == role);
    lemma_granted_role_is_listed_last(created, role, account);
    let before_test = registry.held_by(account);
    let created_test = created.held_by(account);
    lemma_filter_agree(registry.names, before_test, created_test);
    registry.names.lemma_filter_push(role, created_test);
}

/// Two toggles lead back to the state before them.
pub proof fn lemma_toggle_twice_restores(paused: bool)
    ensures
        toggled(toggled(paused)) == paused,
{
}

} // verus!
