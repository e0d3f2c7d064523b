use vstd::prelude::*;
use crate::models::ConnectionConfig;
use crate::pool::{PoolEntry, PoolManager, drop_session, holds, lemma_drop_session, one_session_per_id};
use crate::registry::{ConnectionRegistry, has_id, ids_unique, lemma_remove_id, remove_id, upsert};
use crate::secrets::{StoreError, delete_password, save_password};
use crate::text::{decimal, decimal_text};
use vstd::string::*;

verus! {

/// Parameters for a one-off connection check.
pub struct TestConnectionRequest {
    pub host: String,
    pub port: u16,
    pub database: String,
    pub username: String,
    pub password: String,
}

/// Outcome of a connection check.
pub struct TestConnectionResponse {
    pub success: bool,
    pub message: String,
}

impl TestConnectionResponse {
    /// The answer to a check whose session opened and answered a probe.
    pub fn succeeded() -> (r: TestConnectionResponse)
        ensures
            r.success,
            r.message@ == "Connection successful"@,
    {
        proof {
            reveal_strlit("Connection successful");
        }
        TestConnectionResponse { success: true, message: String::from_str("Connection successful") }
    }
}

/// The key/value connection string for a session with these settings.
pub open spec fn params_text(
    host: Seq<char>,
    port: u16,
    database: Seq<char>,
    username: Seq<char>,
    password: Seq<char>,
) -> Seq<char> {
    "host="@ + host + " port="@ + decimal(port as int) + " dbname="@ + database + " user="@ + username
        + " password="@ + password
}

/// Builds the connection string `host=.. port=.. dbname=.. user=.. password=..`.
pub fn connection_params(
    host: &String,
    port: u16,
    database: &String,
    username: &String,
    password: &String,
) -> (r: String)
    ensures
        r@ == params_text(host@, port, database@, username@, password@),
{
    let mut s = String::from_str("host=");
    s.append(host.as_str());
    s.append(" port=");
    let p = decimal_text(port as i64);
    s.append(p.as_str());
    s.append(" dbname=");
    s.append(database.as_str());
    s.append(" user=");
    s.append(username.as_str());
    s.append(" password=");
    s.append(password.as_str());
    s
}

/// A connection to create (no `id`) or to edit (`id` given).
pub struct SaveConnectionRequest {
    pub id: Option<String>,
    pub name: String,
    pub host: String,
    pub port: u16,
    pub database: String,
    pub username: String,
    pub password: Option<String>,
}

/// Names the connection to delete.
pub struct DeleteConnectionRequest {
    pub id: String,
}

/// Why a connection could not be saved.
pub enum SaveError {
    /// A new connection came without a non-empty password.
    PasswordRequired,
    /// The secret store refused the password.
    Store(StoreError),
}

/// What saving a request amounts to: the configuration to commit, and the
/// password to write first, if any.
pub struct SavePlan {
    pub config: ConnectionConfig,
    pub password: Option<String>,
}

/// The request carries a non-empty password.
pub open spec fn supplies_password(request: SaveConnectionRequest) -> bool {
    request.password matches Some(p) && p@.len() > 0
}

/// The id the saved connection gets: the request's own, or a freshly generated one.
pub open spec fn effective_id(request: SaveConnectionRequest, fresh_id: String) -> String {
    match request.id {
        Some(id) => id,
        None => fresh_id,
    }
}

/// The request creates a connection: it names no id, or one the registry lacks.
pub open spec fn creates_connection(s: Seq<ConnectionConfig>, request: SaveConnectionRequest) -> bool {
    match request.id {
        Some(id) => !has_id(s, id@),
        None => true,
    }
}

/// The configuration a request describes, under the id `id`.
pub open spec fn config_of(request: SaveConnectionRequest, id: String) -> ConnectionConfig {
    ConnectionConfig {
        id: id,
        name: request.name,
        host: request.host,
        port: request.port,
        database: request.database,
        username: request.username,
    }
}

/// Relies on uuid::Uuid::new_v4 and its `Display`: a random identifier, written
/// in the 36-character hyphenated form.
#[verifier::external_body]
fn fresh_connection_id() -> (r: String)
    ensures
        r@.len() == 36,
{
    uuid::Uuid::new_v4().to_string()
}

/// Decides what saving `request` does against the current registry. A new
/// connection needs a non-empty password; an edit with no or an empty password
/// keeps the stored secret as it is. `fresh_id` is used only when the request
/// names no id.
pub fn plan_save(
    registry: &ConnectionRegistry,
    request: SaveConnectionRequest,
    fresh_id: String,
) -> (r: Result<SavePlan, SaveError>)
    requires
        registry.wf(),
    ensures
        r is Err <==> creates_connection(registry@, request) && !supplies_password(request),
        r matches Err(e) ==> e is PasswordRequired,
        r matches Ok(plan) ==> plan.config == config_of(request, effective_id(request, fresh_id))
            && (supplies_password(request) ==> plan.password == request.password)
            && (!supplies_password(request) ==> plan.password is None),
{
    let supplied = match &request.password {
        Some(p) => !p.as_str().is_empty(),
        None => false,
    };
    let creates = match &request.id {
        Some(id) => registry.find(id).is_none(),
        None => true,
    };
    if creates && !supplied {
        return Err(SaveError::PasswordRequired);
    }
    let id = match request.id {
        Some(id) => id,
        None => fresh_id,
    };
    let password = if supplied { request.password } else { None };
    let config = ConnectionConfig {
        id: id,
        name: request.name,
        host: request.host,
        port: request.port,
        database: request.database,
        username: request.username,
    };
    Ok(SavePlan { config, password })
}

/// Completes a save once the password write (if there was one) has come back
/// as `stored`: on success the configuration is committed and its id returned,
/// on a store failure nothing is committed.
pub fn apply_save(
    registry: &mut ConnectionRegistry,
    plan: SavePlan,
    stored: Result<(), StoreError>,
) -> (r: Result<String, SaveError>)
    requires
        old(registry).wf(),
    ensures
        final(registry).wf(),
        stored is Ok ==> r == Ok::<String, SaveError>(plan.config.id)
            && final(registry)@ == upsert(old(registry)@, plan.config),
        stored matches Err(e) ==> r == Err::<String, SaveError>(SaveError::Store(e))
            && final(registry)@ == old(registry)@,
{
    match stored {
        Ok(()) => {
            let id = plan.config.id.clone();
            registry.store(plan.config);
            Ok(id)
        },
        Err(e) => Err(SaveError::Store(e)),
    }
}

/// Saves a connection: validates the request, writes a supplied password to
/// the secret store, then commits the configuration. Whatever the store
/// answers, the registry either gains exactly the described configuration or
/// stays as it was.
pub fn save_connection(
    registry: &mut ConnectionRegistry,
    request: SaveConnectionRequest,
) -> (r: Result<String, SaveError>)
    requires
        old(registry).wf(),
    ensures
        final(registry).wf(),
        (r matches Err(e) && e is PasswordRequired) <==> creates_connection(old(registry)@, request)
            && !supplies_password(request),
        r matches Ok(id) ==> final(registry)@ == upsert(old(registry)@, config_of(request, id))
            && (request.id matches Some(given) ==> id == given)
            && (request.id is None ==> id@.len() == 36),
        r is Err ==> final(registry)@ == old(registry)@,
        (r matches Err(e) && e is Store) ==> supplies_password(request),
        !creates_connection(old(registry)@, request) && !supplies_password(request) ==> r is Ok,
{
    let fresh_id = match &request.id {
        Some(_) => String::new(),
        None => fresh_connection_id(),
    };
    let ghost req = request;
    let ghost fresh = fresh_id;
    let plan = match plan_save(registry, request, fresh_id) {
        Ok(plan) => plan,
        Err(e) => return Err(e),
    };
    let stored = match &plan.password {
        Some(p) => save_password(plan.config.id.as_str(), p.as_str()),
        None => Ok(()),
    };
    proof {
        assert(plan.config == config_of(req, effective_id(req, fresh)));
    }
    apply_save(registry, plan, stored)
}

/// Deletes a connection: the stored password goes on a best-effort basis (a
/// store failure is ignored), the configuration leaves the registry and any
/// pooled session is dropped. Deleting an unknown id changes nothing.
pub fn delete_connection<S>(registry: &mut ConnectionRegistry, pool: &mut PoolManager<S>, id: &String)
    requires
        old(registry).wf(),
        old(pool).wf(),
    ensures
        final(registry).wf(),
        final(pool).wf(),
        final(registry)@ == remove_id(old(registry)@, id@),
        final(pool)@ == drop_session(old(pool)@, id@),
        !has_id(final(registry)@, id@),
        !holds(final(pool)@, id@),
{
    let _ = delete_password(id.as_str());
    registry.remove(id);
    pool.remove_connection(id);
}

/// Deleting a connection leaves neither a configuration nor a pooled session
/// for its id, whether or not either existed. The registry step and the pool
/// step touch disjoint state, so their order does not matter, and deleting a
/// second time changes nothing.
pub proof fn lemma_delete_clears<S>(configs: Seq<ConnectionConfig>, sessions: Seq<PoolEntry<S>>, id: Seq<char>)
    requires
        ids_unique(configs),
        one_session_per_id(sessions),
    ensures
        !has_id(remove_id(configs, id), id),
        !holds(drop_session(sessions, id), id),
        remove_id(remove_id(configs, id), id) == remove_id(configs, id),
        drop_session(drop_session(sessions, id), id) == drop_session(sessions, id),
{
    lemma_remove_id(configs, id);
    lemma_drop_session(sessions, id);
}

} // verus!
