use vstd::prelude::*;

verus! {

/// The secret-store namespace under which every connection password is kept.
pub const SERVICE_NAME: &'static str = "pgsql-studio";

/// Any failure of the system secret store: no entry, no access, or a platform
/// error. The message is the store's own description.
pub struct StoreError {
    pub message: String,
}

/// keyring::Entry, a handle on one credential of the system secret store; opaque here.
#[verifier::external_type_specification]
#[verifier::external_body]
pub struct ExKeyringEntry(keyring::Entry);

/// keyring::Error, the store's failure kinds; opaque here, read only through its `Display`.
#[verifier::external_type_specification]
#[verifier::external_body]
pub struct ExKeyringError(keyring::Error);

/// keyring::Entry::new: builds the handle for (service, user) with the default
/// store, or fails; nothing is promised about which. (It panics only when the
/// crate's internal builder lock is poisoned.)
pub assume_specification[ keyring::Entry::new ](service: &str, user: &str) -> Result<
    keyring::Entry,
    keyring::Error,
>;

/// keyring::Entry::set_password: writes the password, or fails.
pub assume_specification[ keyring::Entry::set_password ](
    entry: &keyring::Entry,
    password: &str,
) -> Result<(), keyring::Error>;

/// keyring::Entry::get_password: reads the password, or fails (no entry among others).
pub assume_specification[ keyring::Entry::get_password ](entry: &keyring::Entry) -> Result<
    String,
    keyring::Error,
>;

/// keyring::Entry::delete_credential: removes the stored credential, or fails.
pub assume_specification[ keyring::Entry::delete_credential ](entry: &keyring::Entry) -> Result<
    (),
    keyring::Error,
>;

fn store_error(e: keyring::Error) -> StoreError {
    StoreError { message: e.to_string() }
}

/// Writes `password` into the secret store under `connection_id`.
pub fn save_password(connection_id: &str, password: &str) -> Result<(), StoreError> {
    match keyring::Entry::new(SERVICE_NAME, connection_id) {
        Ok(entry) => match entry.set_password(password) {
            Ok(()) => Ok(()),
            Err(e) => Err(store_error(e)),
        },
        Err(e) => Err(store_error(e)),
    }
}

/// Reads the password stored under `connection_id`.
pub fn get_password(connection_id: &str) -> Result<String, StoreError> {
    match keyring::Entry::new(SERVICE_NAME, connection_id) {
        Ok(entry) => match entry.get_password() {
            Ok(password) => Ok(password),
            Err(e) => Err(store_error(e)),
        },
        Err(e) => Err(store_error(e)),
    }
}

/// Removes the password stored under `connection_id`.
pub fn delete_password(connection_id: &str) -> Result<(), StoreError> {
    match keyring::Entry::new(SERVICE_NAME, connection_id) {
        Ok(entry) => match entry.delete_credential() {
            Ok(()) => Ok(()),
            Err(e) => Err(store_error(e)),
        },
        Err(e) => Err(store_error(e)),
    }
}

} // verus!
