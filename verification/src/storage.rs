//! Names of the storage regions that a host keeps the engine's state under.

use vstd::prelude::*;
use vstd::string::*;
use vstd::utf8::{encode_utf8, encode_utf8_decode_utf8};

verus! {

/// A region of the host's storage.
///
/// Each region has a textual key; the regions of one role are told apart
/// from those of another by the role's name in front of a fixed suffix.
pub enum StorageKey {
    /// The table of all roles.
    Roles,
    /// The host's own records.
    Records,
    /// The admin role of the named role.
    AdminRole(String),
    /// The members of the named role.
    RoleData(String),
}

impl StorageKey {
    /// The key's text.
    pub open spec fn spec_to_string(&self) -> Seq<char> {
        match self {
            StorageKey::Roles => "rol"@,
            StorageKey::Records => "records"@,
            StorageKey::AdminRole(role) => role@ + "adm"@,
            StorageKey::RoleData(role) => role@ + "data"@,
        }
    }

    /// The key's text as UTF-8 bytes.
    pub open spec fn spec_into_bytes(&self) -> Seq<u8> {
        encode_utf8(self.spec_to_string())
    }

    /// Whether two keys name one region: the same kind of region, and of
    /// the same role where it is the region of a role.
    pub open spec fn same_region(&self, other: &StorageKey) -> bool {
        match (self, other) {
            (StorageKey::Roles, StorageKey::Roles) => true,
            (StorageKey::Records, StorageKey::Records) => true,
            (StorageKey::AdminRole(role), StorageKey::AdminRole(other_role)) => role@
                == other_role@,
            (StorageKey::RoleData(role), StorageKey::RoleData(other_role)) => role@ == other_role@,
            _ => false,
        }
    }

    /// The key's text: `rol`, `records`, the role's name followed by `adm`,
    /// or the role's name followed by `data`.
    pub fn to_string(&self) -> (text: String)
        ensures
            text@ == self.spec_to_string(),
    {
        match self {
            StorageKey::Roles => "rol".to_owned(),
            StorageKey::Records => "records".to_owned(),
            StorageKey::AdminRole(role) => role.clone().concat("adm"),
            StorageKey::RoleData(role) => role.clone().concat("data"),
        }
    }

    /// The key's text as UTF-8 bytes.
    pub fn into_bytes(&self) -> (bytes: Vec<u8>)
        ensures
            bytes@ == self.spec_into_bytes(),
    {
        self.to_string().as_str().as_bytes_vec()
    }
}

/// Two texts with one suffix are equal only where what stands before the
/// suffix is equal.
proof fn lemma_same_suffix(first: Seq<char>, second: Seq<char>, suffix: Seq<char>)
    requires
        first + suffix == second + suffix,
    ensures
        first == second,
{
    assert(first =~= (first + suffix).subrange(0, first.len() as int));
    assert(second =~= (second + suffix).subrange(0, second.len() as int));
}

/// No two regions share a key: two keys have one text only where they name
/// one region, and so for their bytes.
pub proof fn lemma_keys_do_not_collide(first: StorageKey, second: StorageKey)
    ensures
        first.spec_to_string() == second.spec_to_string() <==> first.same_region(&second),
        first.spec_into_bytes() == second.spec_into_bytes() <==> first.same_region(&second),
{
    reveal_strlit("rol");
    reveal_strlit("records");
    reveal_strlit("adm");
    reveal_strlit("data");
    let first_text = first.spec_to_string();
    let second_text = second.spec_to_string();
    assert(first_text.last() == match first {
        StorageKey::Roles => 'l',
        StorageKey::Records => 's',
        StorageKey::AdminRole(_) => 'm',
        StorageKey::RoleData(_) => 'a',
    });
    assert(second_text.last() == match second {
        StorageKey::Roles => 'l',
        StorageKey::Records => 's',
        StorageKey::AdminRole(_) => 'm',
        StorageKey::RoleData(_) => 'a',
    });
    if first_text == second_text {
        match (first, second) {
            (StorageKey::AdminRole(role), StorageKey::AdminRole(other_role)) => {
                lemma_same_suffix(role@, other_role@, "adm"@);
            },
            (StorageKey::RoleData(role), StorageKey::RoleData(other_role)) => {
                lemma_same_suffix(role@, other_role@, "data"@);
            },
            _ => {},
        }
    }
    encode_utf8_decode_utf8(first_text);
    encode_utf8_decode_utf8(second_text);
}

} // verus!
