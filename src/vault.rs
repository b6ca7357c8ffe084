//! The vault session: bootstrap, unlocking, and the commands of an unlocked
//! session, which encrypt on write and decrypt on read.
use crate::crypto::{
    aes256_decrypted, aes256_encrypted, decrypt, encrypt, hash_passphrase, passphrase_matches,
    sha512_hex, verify_passphrase, DecryptionError,
};
use crate::db::{
    add_outcome, add_to_meta, add_to_table, create_schema, get_from_meta, get_from_table,
    list_services, has_schema, stored_meta, stored_records, update_meta, Entry, MetaEntry, StorageError,
};
use rusqlite::Connection;
use vstd::prelude::*;

verus! {

/// The meta key under which the verification hash is stored.
pub const MASTER_KEY: &'static str = "master_password";

/// Why a vault operation did not complete.
#[derive(Debug)]
pub enum VaultError {
    /// The database failed.
    Storage(StorageError),
    /// A stored secret could not be decrypted under the passphrase given.
    Decryption(DecryptionError),
    /// No verification hash is stored: the vault was never set up.
    NotInitialized,
}

/// A credential with its secret in plain text.
pub struct Credential {
    pub service: String,
    pub secret: String,
    pub note: String,
}

/// Sets up a vault: creates the tables and stores the verification hash of
/// `passphrase`, unless one is stored already (then `false`, nothing changes).
pub fn initdb(conn: &mut Connection, passphrase: &str) -> (r: Result<bool, VaultError>)
    ensures
        r matches Ok(created) ==> {
            &&& has_schema(*final(conn))
            &&& created == !stored_meta(*old(conn)).contains_key(MASTER_KEY@)
            &&& stored_meta(*final(conn)) == if created {
                stored_meta(*old(conn)).insert(MASTER_KEY@, sha512_hex(passphrase@))
            } else {
                stored_meta(*old(conn))
            }
        },
        r is Err ==> stored_meta(*final(conn)) == stored_meta(*old(conn)),
        stored_records(*final(conn)) == stored_records(*old(conn)),
{
    if let Err(e) = create_schema(conn) {
        return Err(VaultError::Storage(e));
    }
    let entry = MetaEntry { key: String::from_str(MASTER_KEY), value: hash_passphrase(passphrase) };
    match add_to_meta(conn, entry) {
        Ok(created) => Ok(created),
        Err(e) => Err(VaultError::Storage(e)),
    }
}

/// Checks `candidate` against the stored verification hash.
pub fn unlock(conn: &Connection, candidate: &str) -> (r: Result<bool, VaultError>)
    ensures
        r matches Ok(granted) ==> stored_meta(*conn).contains_key(MASTER_KEY@) && granted
            == passphrase_matches(candidate@, stored_meta(*conn)[MASTER_KEY@]),
        r matches Err(VaultError::NotInitialized) ==> !stored_meta(*conn).contains_key(MASTER_KEY@),
        r matches Err(VaultError::Decryption(_)) ==> false,
{
    match get_from_meta(conn, String::from_str(MASTER_KEY)) {
        Ok(Some(stored)) => Ok(verify_passphrase(candidate, stored.value.as_str())),
        Ok(None) => Err(VaultError::NotInitialized),
        Err(e) => Err(VaultError::Storage(e)),
    }
}

/// Stores a credential with its secret encrypted under `passphrase`; refused
/// (`false`) where the service is empty or already stored.
pub fn add_entry(
    conn: &mut Connection,
    passphrase: &str,
    service: String,
    secret: String,
    note: String,
) -> (r: Result<bool, VaultError>)
    ensures
        service@.len() == 0 ==> r matches Ok(false),
        has_schema(*final(conn)) == has_schema(*old(conn)),
        match r {
            Ok(added) => (added, stored_records(*final(conn))) == add_outcome(
                stored_records(*old(conn)),
                service@,
                (aes256_encrypted(passphrase@, secret@), note@),
            ),
            Err(_) => stored_records(*final(conn)) == stored_records(*old(conn)),
        },
        r matches Err(e) ==> e is Storage,
        stored_meta(*final(conn)) == stored_meta(*old(conn)),
{
    let pass = encrypt(String::from_str(passphrase), secret);
    match add_to_table(conn, Entry { service, pass, note }) {
        Ok(added) => Ok(added),
        Err(e) => Err(VaultError::Storage(e)),
    }
}

/// The credential of `service` with its secret decrypted under `passphrase`.
pub fn view_entry(conn: &Connection, passphrase: &str, service: String) -> (r: Result<
    Option<Credential>,
    VaultError,
>)
    ensures
        r matches Ok(Some(c)) ==> {
            &&& stored_records(*conn).contains_key(service@)
            &&& c.service@ == service@
            &&& c.note@ == stored_records(*conn)[service@].1
            &&& aes256_decrypted(passphrase@, stored_records(*conn)[service@].0) == Some(c.secret@)
        },
        r matches Ok(None) ==> !stored_records(*conn).contains_key(service@),
        r matches Err(VaultError::Decryption(_)) ==> {
            &&& stored_records(*conn).contains_key(service@)
            &&& aes256_decrypted(passphrase@, stored_records(*conn)[service@].0) is None
        },
        r matches Err(VaultError::NotInitialized) ==> false,
        forall|x: Seq<char>|
            stored_records(*conn).contains_key(service@) && #[trigger] aes256_encrypted(
                passphrase@,
                x,
            ) == stored_records(*conn)[service@].0 ==> !(r matches Err(VaultError::Decryption(_))),
{
    let entry = match get_from_table(conn, service) {
        Ok(Some(e)) => e,
        Ok(None) => { return Ok(None); },
        Err(e) => { return Err(VaultError::Storage(e)); },
    };
    match decrypt(String::from_str(passphrase), entry.pass) {
        Ok(secret) => Ok(Some(Credential { service: entry.service, secret, note: entry.note })),
        Err(e) => Err(VaultError::Decryption(e)),
    }
}

/// Replaces the verification hash with that of `new_passphrase`. Stored secrets
/// stay encrypted under the old passphrase, so this is refused (`false`,
/// nothing changes) while any credential is stored.
pub fn change_master(conn: &mut Connection, new_passphrase: &str) -> (r: Result<bool, VaultError>)
    ensures
        has_schema(*final(conn)) == has_schema(*old(conn)),
        r matches Ok(changed) ==> {
            &&& changed == stored_records(*old(conn)).is_empty()
            &&& stored_meta(*old(conn)).contains_key(MASTER_KEY@)
            &&& stored_meta(*final(conn)) == if changed {
                stored_meta(*old(conn)).insert(MASTER_KEY@, sha512_hex(new_passphrase@))
            } else {
                stored_meta(*old(conn))
            }
        },
        r matches Err(VaultError::NotInitialized) ==> !stored_meta(*old(conn)).contains_key(
            MASTER_KEY@,
        ),
        r matches Err(VaultError::Decryption(_)) ==> false,
        r is Err ==> stored_meta(*final(conn)) == stored_meta(*old(conn)),
        stored_records(*final(conn)) == stored_records(*old(conn)),
{
    let services = match list_services(conn) {
        Ok(v) => v,
        Err(e) => { return Err(VaultError::Storage(e)); },
    };
    if services.len() > 0 {
        proof {
            let names = services@.map_values(|s: String| s@);
            assert(names.to_set().contains(names[0]));
        }
        return match get_from_meta(conn, String::from_str(MASTER_KEY)) {
            Ok(Some(_)) => Ok(false),
            Ok(None) => Err(VaultError::NotInitialized),
            Err(e) => Err(VaultError::Storage(e)),
        };
    }
    proof {
        let names = services@.map_values(|s: String| s@);
        assert(names.to_set() =~= Set::empty());
        assert(stored_records(*old(conn)).dom() =~= Set::empty());
    }
    let entry = MetaEntry {
        key: String::from_str(MASTER_KEY),
        value: hash_passphrase(new_passphrase),
    };
    match update_meta(conn, entry) {
        Ok(true) => Ok(true),
        Ok(false) => Err(VaultError::NotInitialized),
        Err(e) => Err(VaultError::Storage(e)),
    }
}

/// The meta table that setting up a vault with `passphrase` leaves holds a
/// verification hash that accepts `passphrase`.
pub proof fn lemma_initialized_vault_accepts_passphrase(
    meta: Map<Seq<char>, Seq<char>>,
    passphrase: Seq<char>,
)
    ensures
        ({
            let after = meta.insert(MASTER_KEY@, sha512_hex(passphrase));
            after.contains_key(MASTER_KEY@) && passphrase_matches(passphrase, after[MASTER_KEY@])
        }),
{
}

} // verus!
