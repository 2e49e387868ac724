//! The credential store: a single signed-in user record under a well-known
//! per-user directory. The choice of directory and the read-modify-write of
//! the record are decided here; reading the environment and touching the
//! disk are left to the caller, who hands the resolved paths and carries the
//! blob to and from the file.

use vstd::prelude::*;
use vstd::string::StringExecFns;

use crate::subquery::types::User;

verus! {

/// Get subquery home path: an explicit override is used as given; otherwise
/// the first available of home directory, process path and temp directory,
/// with a `.subquery` suffix.
pub fn subquery_home(
    env_override: Option<String>,
    home_dir: Option<String>,
    exe_path: Option<String>,
    temp_dir: String,
) -> (r: String)
    ensures
        (match env_override {
            Some(v) => r@ == v@,
            None => {
                let base = match home_dir {
                    Some(h) => h@,
                    None => match exe_path {
                        Some(e) => e@,
                        None => temp_dir@,
                    },
                };
                r@ == base + "/.subquery"@
            },
        }),
{
    match env_override {
        Some(v) => v,
        None => {
            let mut base = match home_dir {
                Some(h) => h,
                None => match exe_path {
                    Some(e) => e,
                    None => temp_dir,
                },
            };
            base.append("/.subquery");
            base
        },
    }
}

#[derive(Clone, Debug)]
pub struct Config {
    base_path: String,
}

impl Config {
    pub fn new(base_path: String) -> (r: Self)
        ensures
            r.spec_base_path() == base_path,
    {
        Self { base_path }
    }

    pub closed spec fn spec_base_path(self) -> String {
        self.base_path
    }

    /// The file the record lives in, under the base path.
    pub fn config_file(&self) -> (r: String)
        ensures
            r@ == self.spec_base_path()@ + "/subquery.json"@,
    {
        let mut s = self.base_path.clone();
        s.append("/subquery.json");
        s
    }
}

/// The whole stored blob; the file holds exactly one of these.
#[derive(Clone, Debug)]
pub struct ConfigData {
    pub user: Option<User>,
}

/// What storing a credential leaves on disk: whatever blob was there, its
/// user field now holds the credential.
pub open spec fn spec_store_user(data: Option<ConfigData>, user: User) -> Option<ConfigData> {
    Some(ConfigData { user: Some(user) })
}

/// What restoring reads: the user field of the blob, or nothing when no
/// blob was ever written — which is not an error.
pub open spec fn spec_restore_user(data: Option<ConfigData>) -> Option<User> {
    match data {
        Some(d) => d.user,
        None => None,
    }
}

/// The single-record store, as the rest of the library sees it: `data` is
/// the blob on disk, `None` while no file exists yet.
#[derive(Clone, Debug)]
pub struct CredentialStore {
    data: Option<ConfigData>,
}

impl CredentialStore {
    /// A store whose file does not exist yet.
    pub fn new() -> (r: Self)
        ensures
            r.spec_data() is None,
    {
        Self { data: None }
    }

    /// A store holding a blob read back from disk.
    pub fn from_data(data: Option<ConfigData>) -> (r: Self)
        ensures
            r.spec_data() == data,
    {
        Self { data }
    }

    pub closed spec fn spec_data(self) -> Option<ConfigData> {
        self.data
    }

    /// The blob as it would be written to disk.
    pub fn data(&self) -> (r: &Option<ConfigData>)
        ensures
            r == self.spec_data(),
    {
        &self.data
    }

    /// Overwrites the stored record with this user, keeping the blob's
    /// shape: load-or-default, replace the user field, write back.
    pub fn store_user(&mut self, user: User)
        ensures
            final(self).spec_data() == spec_store_user(old(self).spec_data(), user),
    {
        self.data = Some(ConfigData { user: Some(user) });
    }

    /// The stored record, or nothing when none was ever stored.
    pub fn restore_user(&self) -> (r: Option<&User>)
        ensures
            (match r {
                Some(u) => spec_restore_user(self.spec_data()) == Some(*u),
                None => spec_restore_user(self.spec_data()) is None,
            }),
    {
        match &self.data {
            Some(d) => match &d.user {
                Some(u) => Some(u),
                None => None,
            },
            None => None,
        }
    }

    /// Whether a user record is stored.
    pub fn is_login(&self) -> (r: bool)
        ensures
            r == (spec_restore_user(self.spec_data()) is Some),
    {
        self.restore_user().is_some()
    }
}

/// Round trip: storing a credential and then restoring returns that same
/// credential, whatever was stored before; restoring from a store that was
/// never written returns nothing rather than an error.
pub proof fn lemma_store_restore_round_trip(data: Option<ConfigData>, user: User)
    ensures
        spec_restore_user(spec_store_user(data, user)) == Some(user),
        spec_restore_user(None) == None::<User>,
{
}

} // verus!
