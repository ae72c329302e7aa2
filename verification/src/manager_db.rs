//! The records of the machine manager's database and the handle on it.
//!
//! The database itself (SQLite, read by the program around this library)
//! holds machines, their accounts with encrypted credentials, their rules and
//! the command log. This module holds what the library decides about it:
//! when a handle can be opened, and how an account's stored credential is
//! turned into the usable one.

use vstd::prelude::*;
use std::path::PathBuf;
use crate::security::{credential_plaintext, SecurityError, SecurityFault, SecurityManager};
use crate::text::concat2;

verus! {

#[verifier::external_type_specification]
#[verifier::external_body]
pub struct ExPathBuf(PathBuf);

/// A machine registered in the manager.
pub struct Machine {
    pub id: Option<i64>,
    pub name: String,
    pub ip_address: String,
    pub mac_address: Option<String>,
    pub hostname: Option<String>,
    pub purpose: String,
    pub ownership: String,
    pub os_type: String,
    pub status: String,
    pub boot_delay: i64,
}

/// A login account on a machine; `auth_type` is `password` or `key`, and
/// `credential` is the password or the path of the private key.
pub struct Account {
    pub id: Option<i64>,
    pub machine_id: i64,
    pub username: String,
    pub auth_type: String,
    pub credential: String,
}

/// Why the manager database could not be used.
pub enum DbError {
    /// The database file does not exist at this path.
    DatabaseNotFound { path: PathBuf },
    /// The master key could not be obtained; `detail` says why.
    MasterKeyInit { detail: String },
    /// An account's stored credential could not be decrypted.
    CredentialDecrypt { cause: SecurityError },
}

/// Renders a path with its `Debug` impl (`{:?}`: quoted, with escapes).
/// Nothing is stated of the text.
#[verifier::external_body]
fn path_debug_text(path: &PathBuf) -> String {
    format!("{:?}", path)
}

impl DbError {
    /// The text that reports this error. The path of a missing database is
    /// rendered as `Debug` renders it.
    pub fn message(&self) -> (m: String)
        ensures
            self matches DbError::DatabaseNotFound { .. } ==> m@.take(
                "mcp-ssh-manager database not found at "@.len() as int,
            ) == "mcp-ssh-manager database not found at "@,
            self matches DbError::MasterKeyInit { .. } ==> m@
                == "Failed to initialize master key from keyring"@,
            self matches DbError::CredentialDecrypt { .. } ==> m@
                == "Failed to decrypt account credential"@,
    {
        match self {
            DbError::DatabaseNotFound { path } => {
                let shown = path_debug_text(path);
                let m = concat2("mcp-ssh-manager database not found at ", shown.as_str());
                assert(m@.take("mcp-ssh-manager database not found at "@.len() as int)
                    =~= "mcp-ssh-manager database not found at "@);
                m
            },
            DbError::MasterKeyInit { .. } => "Failed to initialize master key from keyring".to_owned(),
            DbError::CredentialDecrypt { .. } => "Failed to decrypt account credential".to_owned(),
        }
    }
}

/// The keyring service under which the manager keeps its master key.
pub open spec fn manager_service() -> Seq<char> {
    "mcp-ssh-manager"@
}

/// Where the manager database is, once its file has been found to exist.
pub struct DbLocation {
    path: PathBuf,
}

impl DbLocation {
    /// The path of the database file.
    pub closed spec fn location(&self) -> PathBuf {
        self.path
    }

    /// The location of the database at `path`, if its file exists there; a
    /// missing file is an error.
    pub fn check(path: PathBuf, path_exists: bool) -> (r: Result<DbLocation, DbError>)
        ensures
            r is Ok <==> path_exists,
            r matches Ok(l) ==> l.location() == path,
            !path_exists ==> (r matches Err(DbError::DatabaseNotFound { path: p }) && p == path),
    {
        if path_exists {
            Ok(DbLocation { path })
        } else {
            Err(DbError::DatabaseNotFound { path })
        }
    }
}

/// A handle on the manager database: where it is, and the master key that
/// decrypts its credentials.
pub struct ManagerDb {
    path: PathBuf,
    security: SecurityManager,
    master_key: [u8; 32],
}

impl ManagerDb {
    /// The master key of this handle.
    pub closed spec fn key(&self) -> Seq<u8> {
        self.master_key@
    }

    /// Where the database file of this handle is.
    pub closed spec fn location(&self) -> PathBuf {
        self.path
    }

    /// The keyring service of this handle.
    pub closed spec fn service(&self) -> Seq<char> {
        self.security@
    }

    /// Opens a handle on the database at a location found to exist (so the
    /// master key is never asked for when the database is missing).
    /// `master_key` is asked, once, for the key of the manager's keyring
    /// service; its failure message becomes the detail of the error.
    pub fn new<F: FnOnce(&SecurityManager) -> Result<[u8; 32], String>>(
        location: DbLocation,
        master_key: F,
    ) -> (r: Result<ManagerDb, DbError>)
        requires
            forall|s: &SecurityManager| #[trigger] master_key.requires((s,)),
        ensures
            r is Ok ==> r->Ok_0.service() == manager_service() && r->Ok_0.location()
                == location.location(),
            r is Ok ==> exists|s: &SecurityManager, k: [u8; 32]|
                s@ == manager_service() && k@ == r->Ok_0.key() && #[trigger] master_key.ensures(
                    (s,),
                    Ok::<[u8; 32], String>(k),
                ),
            r is Err ==> exists|s: &SecurityManager, d: String|
                s@ == manager_service() && r == Err::<ManagerDb, DbError>(
                    DbError::MasterKeyInit { detail: d },
                ) && #[trigger] master_key.ensures((s,), Err::<[u8; 32], String>(d)),
    {
        let DbLocation { path } = location;
        let security = SecurityManager::new("mcp-ssh-manager");
        let obtained = master_key(&security);
        let ghost s = &security;
        proof {
            assert(master_key.ensures((s,), obtained));
        }
        match obtained {
            Ok(key) => {
                let db = ManagerDb { path, security, master_key: key };
                assert(s@ == manager_service() && key@ == db.key() && master_key.ensures(
                    (s,),
                    Ok::<[u8; 32], String>(key),
                ));
                Ok(db)
            },
            Err(detail) => {
                assert(s@ == manager_service() && master_key.ensures(
                    (s,),
                    Err::<[u8; 32], String>(detail),
                ));
                Err(DbError::MasterKeyInit { detail })
            },
        }
    }

    /// Where the database file is.
    pub fn path(&self) -> (p: &PathBuf)
        ensures
            *p == self.location(),
    {
        &self.path
    }

    /// The account read for a machine, with its credential decrypted under the
    /// master key. No row gives no account.
    pub fn get_account_for_machine(&self, row: Option<Account>) -> (r: Result<Option<Account>, DbError>)
        ensures
            match row {
                None => r matches Ok(None),
                Some(a) => match credential_plaintext(self.key(), a.credential@) {
                    Ok(plain) => r matches Ok(Some(b)) && b.id == a.id && b.machine_id
                        == a.machine_id && b.username == a.username && b.auth_type == a.auth_type
                        && b.credential@ == plain,
                    Err(f) => r matches Err(DbError::CredentialDecrypt { cause }) && cause@ == f,
                },
            },
    {
        match row {
            None => Ok(None),
            Some(account) => {
                match self.security.decrypt(&self.master_key, account.credential.as_str()) {
                    Ok(plain) => Ok(
                        Some(
                            Account {
                                id: account.id,
                                machine_id: account.machine_id,
                                username: account.username,
                                auth_type: account.auth_type,
                                credential: plain,
                            },
                        ),
                    ),
                    Err(cause) => Err(DbError::CredentialDecrypt { cause }),
                }
            },
        }
    }
}

} // verus!
