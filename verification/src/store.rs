//! The credential rows that authentication reads, and the accessor
//! operations over them.
//!
//! The relational store itself lives outside the process boundary; what the
//! subsystem needs of it is a snapshot of the account table and the three
//! role-partitioned profile tables. Every accessor here is a total function
//! of that snapshot, specified row by row: lookups scan in table order and
//! return the first match, which is the documented tie-break when data
//! integrity has been violated (for example two profiles sharing an email).

use vstd::prelude::*;

use crate::role::Role;

verus! {

/// One row of the account table: a login identity.
pub struct Account {
    pub id_user: i32,
    pub username: String,
    pub password_hash: String,
    pub role: Role,
    /// Soft-delete tombstone: a deleted account is invisible to every read.
    pub deleted: bool,
}

/// One row of a role profile table: display attributes linked back to an
/// account. The back-reference is nullable; a profile without a link can
/// never be used to log in.
pub struct ProfileRow {
    pub id_user: Option<i32>,
    pub first_name: String,
    pub first_lastname: String,
    pub email: Option<String>,
    pub phone: Option<String>,
}

/// The fields of an account that credential checking needs, as the resolver
/// hands them on.
pub struct AuthUserRaw {
    pub id_user: i32,
    pub username: String,
    pub password_hash: String,
    pub role: Role,
}

/// A snapshot of every credential row the authentication subsystem may read:
/// the account table and one profile table per role that has one. Admin
/// accounts have no profile table.
pub struct CredentialStore {
    pub accounts: Vec<Account>,
    pub patients: Vec<ProfileRow>,
    pub doctors: Vec<ProfileRow>,
    pub admissionists: Vec<ProfileRow>,
}

impl Account {
    /// The resolver's projection of this row.
    pub open spec fn spec_raw(self) -> AuthUserRaw {
        AuthUserRaw {
            id_user: self.id_user,
            username: self.username,
            password_hash: self.password_hash,
            role: self.role,
        }
    }
}

/// Whether a username lookup selects this row: exact match among non-deleted
/// accounts only.
pub open spec fn spec_username_match(a: Account, username: Seq<char>) -> bool {
    &&& !a.deleted
    &&& a.username@ == username
}

/// The first account at index `i` or later that a username lookup selects.
pub open spec fn spec_find_by_username_from(
    accounts: Seq<Account>,
    username: Seq<char>,
    i: int,
) -> Option<Account>
    decreases accounts.len() - i,
{
    if i < 0 || i >= accounts.len() {
        None
    } else if spec_username_match(accounts[i], username) {
        Some(accounts[i])
    } else {
        spec_find_by_username_from(accounts, username, i + 1)
    }
}

/// The account a username lookup returns: the first non-deleted row whose
/// username matches exactly.
pub open spec fn spec_find_by_username(accounts: Seq<Account>, username: Seq<char>) -> Option<
    Account,
> {
    spec_find_by_username_from(accounts, username, 0)
}

/// The first non-deleted account at index `i` or later with the given id.
pub open spec fn spec_account_by_id_from(accounts: Seq<Account>, id: i32, i: int) -> Option<
    Account,
>
    decreases accounts.len() - i,
{
    if i < 0 || i >= accounts.len() {
        None
    } else if !accounts[i].deleted && accounts[i].id_user == id {
        Some(accounts[i])
    } else {
        spec_account_by_id_from(accounts, id, i + 1)
    }
}

/// The non-deleted account a profile's back-reference joins to.
pub open spec fn spec_account_by_id(accounts: Seq<Account>, id: i32) -> Option<Account> {
    spec_account_by_id_from(accounts, id, 0)
}

/// Whether an email lookup selects this profile row.
pub open spec fn spec_email_match(p: ProfileRow, email: Seq<char>) -> bool {
    match p.email {
        Some(e) => e@ == email,
        None => false,
    }
}

/// The non-deleted account, if any, this profile row is linked to.
pub open spec fn spec_linked_account(accounts: Seq<Account>, p: ProfileRow) -> Option<Account> {
    match p.id_user {
        Some(id) => spec_account_by_id(accounts, id),
        None => None,
    }
}

/// The account behind the first profile row at index `i` or later whose email
/// matches and whose back-reference joins a non-deleted account.
pub open spec fn spec_find_by_email_from(
    accounts: Seq<Account>,
    profiles: Seq<ProfileRow>,
    email: Seq<char>,
    i: int,
) -> Option<Account>
    decreases profiles.len() - i,
{
    if i < 0 || i >= profiles.len() {
        None
    } else if spec_email_match(profiles[i], email) && spec_linked_account(
        accounts,
        profiles[i],
    ) is Some {
        spec_linked_account(accounts, profiles[i])
    } else {
        spec_find_by_email_from(accounts, profiles, email, i + 1)
    }
}

/// The account an email probe of one profile table returns.
pub open spec fn spec_find_by_email(
    accounts: Seq<Account>,
    profiles: Seq<ProfileRow>,
    email: Seq<char>,
) -> Option<Account> {
    spec_find_by_email_from(accounts, profiles, email, 0)
}

/// The first profile row at index `i` or later linked to the given account.
pub open spec fn spec_profile_by_account_from(
    profiles: Seq<ProfileRow>,
    id: i32,
    i: int,
) -> Option<ProfileRow>
    decreases profiles.len() - i,
{
    if i < 0 || i >= profiles.len() {
        None
    } else if profiles[i].id_user == Some(id) {
        Some(profiles[i])
    } else {
        spec_profile_by_account_from(profiles, id, i + 1)
    }
}

/// The profile row an attribute lookup returns for an account id.
pub open spec fn spec_profile_by_account(profiles: Seq<ProfileRow>, id: i32) -> Option<
    ProfileRow,
> {
    spec_profile_by_account_from(profiles, id, 0)
}

impl CredentialStore {
    /// The profile table owned by a role, as a sequence; admin owns none.
    pub open spec fn spec_profiles_of(self, role: Role) -> Seq<ProfileRow> {
        match role {
            Role::Patient => self.patients@,
            Role::Doctor => self.doctors@,
            Role::Admissionist => self.admissionists@,
            Role::Admin => Seq::<ProfileRow>::empty(),
        }
    }

    /// Store invariant: at most one non-deleted account per username, and
    /// account ids are unique. Both are what the schema's keys enforce and
    /// what the resolver assumes.
    pub open spec fn wf(self) -> bool {
        &&& forall|j: int, k: int|
            0 <= j < self.accounts@.len() && 0 <= k < self.accounts@.len()
                && !self.accounts@[j].deleted && !self.accounts@[k].deleted
                && self.accounts@[j].username@ == self.accounts@[k].username@ ==> j == k
        &&& forall|j: int, k: int|
            0 <= j < self.accounts@.len() && 0 <= k < self.accounts@.len()
                && self.accounts@[j].id_user == self.accounts@[k].id_user ==> j == k
    }

    /// Looks an account up by exact username among non-deleted rows.
    pub fn find_account_by_username(&self, username: &str) -> (r: Option<AuthUserRaw>)
        ensures
            match r {
                Some(u) => {
                    &&& spec_find_by_username(self.accounts@, username@) matches Some(a)
                    &&& u == a.spec_raw()
                },
                None => spec_find_by_username(self.accounts@, username@) is None,
            },
    {
        let uname: String = username.to_owned();
        let n: usize = self.accounts.len();
        for i in 0..n
            invariant
                n == self.accounts@.len(),
                uname@ == username@,
                spec_find_by_username(self.accounts@, username@) == spec_find_by_username_from(
                    self.accounts@,
                    username@,
                    i as int,
                ),
        {
            let a = &self.accounts[i];
            if !a.deleted && a.username == uname {
                return Some(
                    AuthUserRaw {
                        id_user: a.id_user,
                        username: a.username.clone(),
                        password_hash: a.password_hash.clone(),
                        role: a.role,
                    },
                );
            }
        }
        None
    }

    /// Looks a non-deleted account up by id: the join an email probe makes
    /// from a profile's back-reference.
    fn find_account_by_id(&self, id: i32) -> (r: Option<AuthUserRaw>)
        ensures
            match r {
                Some(u) => {
                    &&& spec_account_by_id(self.accounts@, id) matches Some(a)
                    &&& u == a.spec_raw()
                },
                None => spec_account_by_id(self.accounts@, id) is None,
            },
    {
        let n: usize = self.accounts.len();
        for i in 0..n
            invariant
                n == self.accounts@.len(),
                spec_account_by_id(self.accounts@, id) == spec_account_by_id_from(
                    self.accounts@,
                    id,
                    i as int,
                ),
        {
            let a = &self.accounts[i];
            if !a.deleted && a.id_user == id {
                return Some(
                    AuthUserRaw {
                        id_user: a.id_user,
                        username: a.username.clone(),
                        password_hash: a.password_hash.clone(),
                        role: a.role,
                    },
                );
            }
        }
        None
    }

    /// Probes one role's profile table for a row whose email matches and
    /// whose linked account is non-deleted; returns that account. Rows are
    /// probed in table order, the documented tie-break.
    pub fn find_account_by_profile_email(&self, role: Role, email: &str) -> (r: Option<
        AuthUserRaw,
    >)
        ensures
            match r {
                Some(u) => {
                    &&& spec_find_by_email(
                        self.accounts@,
                        self.spec_profiles_of(role),
                        email@,
                    ) matches Some(a)
                    &&& u == a.spec_raw()
                },
                None => spec_find_by_email(self.accounts@, self.spec_profiles_of(role), email@)
                    is None,
            },
    {
        let profiles: &Vec<ProfileRow> = match role {
            Role::Patient => &self.patients,
            Role::Doctor => &self.doctors,
            Role::Admissionist => &self.admissionists,
            Role::Admin => {
                assert(self.spec_profiles_of(role) =~= Seq::<ProfileRow>::empty());
                return None;
            },
        };
        let mail: String = email.to_owned();
        let n: usize = profiles.len();
        assert(profiles@ =~= self.spec_profiles_of(role));
        for i in 0..n
            invariant
                n == profiles@.len(),
                profiles@ == self.spec_profiles_of(role),
                mail@ == email@,
                spec_find_by_email(self.accounts@, profiles@, email@) == spec_find_by_email_from(
                    self.accounts@,
                    profiles@,
                    email@,
                    i as int,
                ),
        {
            let p = &profiles[i];
            let email_matches: bool = match &p.email {
                Some(e) => *e == mail,
                None => false,
            };
            if email_matches {
                let linked = match p.id_user {
                    Some(id) => self.find_account_by_id(id),
                    None => None,
                };
                if let Some(u) = linked {
                    return Some(u);
                }
            }
        }
        None
    }

    /// Reads the display attributes for an account of a given role: the
    /// first row of that role's profile table linked to the account id.
    /// Admin accounts own no profile table, so the lookup is empty for them.
    pub fn find_profile_attributes(&self, role: Role, id_user: i32) -> (r: Option<ProfileRow>)
        ensures
            r == spec_profile_by_account(self.spec_profiles_of(role), id_user),
    {
        let profiles: &Vec<ProfileRow> = match role {
            Role::Patient => &self.patients,
            Role::Doctor => &self.doctors,
            Role::Admissionist => &self.admissionists,
            Role::Admin => {
                return None;
            },
        };
        let n: usize = profiles.len();
        for i in 0..n
            invariant
                n == profiles@.len(),
                profiles@ == self.spec_profiles_of(role),
                spec_profile_by_account(profiles@, id_user) == spec_profile_by_account_from(
                    profiles@,
                    id_user,
                    i as int,
                ),
        {
            let p = &profiles[i];
            let id_matches: bool = match p.id_user {
                Some(id) => id == id_user,
                None => false,
            };
            if id_matches {
                return Some(
                    ProfileRow {
                        id_user: p.id_user,
                        first_name: p.first_name.clone(),
                        first_lastname: p.first_lastname.clone(),
                        email: clone_opt_string(&p.email),
                        phone: clone_opt_string(&p.phone),
                    },
                );
            }
        }
        None
    }
}

/// Copies an optional string, keeping its value.
pub fn clone_opt_string(o: &Option<String>) -> (r: Option<String>)
    ensures
        r == *o,
{
    match o {
        Some(s) => Some(s.clone()),
        None => None,
    }
}

/// A username lookup returns exactly the non-deleted account bearing that
/// username whenever one exists: under the store invariant there is at most
/// one, so the first match in table order is the only match.
pub proof fn lemma_find_by_username_complete(store: CredentialStore, i: int)
    requires
        store.wf(),
        0 <= i < store.accounts@.len(),
        !store.accounts@[i].deleted,
    ensures
        spec_find_by_username(store.accounts@, store.accounts@[i].username@) == Some(
            store.accounts@[i],
        ),
{
    lemma_find_by_username_from_complete(store, i, 0);
}

proof fn lemma_find_by_username_from_complete(store: CredentialStore, i: int, j: int)
    requires
        store.wf(),
        0 <= j <= i < store.accounts@.len(),
        !store.accounts@[i].deleted,
    ensures
        spec_find_by_username_from(store.accounts@, store.accounts@[i].username@, j) == Some(
            store.accounts@[i],
        ),
    decreases i - j,
{
    if spec_username_match(store.accounts@[j], store.accounts@[i].username@) {
        assert(j == i);
    } else {
        assert(j < i);
        lemma_find_by_username_from_complete(store, i, j + 1);
    }
}

} // verus!
