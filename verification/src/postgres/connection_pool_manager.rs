//! The registry of connection pools, one pool per connection context.
//!
//! A context is asked for by value. The first request for a context creates
//! its pool; every later request for an equal context hands out that same
//! pool. The registry only grows: a pool stays in its slot for as long as
//! the registry lives.

use vstd::prelude::*;
use vstd::string::StringExecFns;
use deadpool_postgres::{CreatePoolError, ManagerConfig, RecyclingMethod, Runtime};
use tokio_postgres::NoTls;
use crate::postgres::error::PoolError;

verus! {

/// `tokio_postgres::Config`, the configuration of the wire client. Nothing
/// is known of its inside but what the four functions below name.
#[verifier::external_type_specification]
#[verifier::external_body]
pub struct ExPgConfig(tokio_postgres::Config);

/// `deadpool_postgres::ConfigError`, why a pool's configuration was refused.
#[verifier::external_type_specification]
#[verifier::external_body]
pub struct ExConfigError(deadpool_postgres::ConfigError);

/// `deadpool::managed::CreatePoolError`, why a pool was not created. Its
/// instance for `ConfigError` is `deadpool_postgres::CreatePoolError`.
#[verifier::external_type_specification]
#[verifier::external_body]
#[verifier::reject_recursive_types(C)]
pub struct ExCreatePoolError<C>(deadpool::managed::CreatePoolError<C>);

/// The hosts of a `tokio_postgres::Config` in the order in which they were
/// added, each as the text it was added with.
pub uninterp spec fn config_hosts(config: tokio_postgres::Config) -> Seq<Seq<char>>;

/// The ports of a `tokio_postgres::Config` in the order in which they were
/// added.
pub uninterp spec fn config_ports(config: tokio_postgres::Config) -> Seq<u16>;

/// The database name of a `tokio_postgres::Config`, if one was set.
pub uninterp spec fn config_dbname(config: tokio_postgres::Config) -> Option<Seq<char>>;

/// The user of a `tokio_postgres::Config`, if one was set.
pub uninterp spec fn config_user(config: tokio_postgres::Config) -> Option<Seq<char>>;

/// `tokio_postgres::Config::new`: a configuration without hosts, ports,
/// database name or user.
#[verifier::external_body]
fn pg_config_new() -> (config: tokio_postgres::Config)
    ensures
        config_hosts(config) == Seq::<Seq<char>>::empty(),
        config_ports(config) == Seq::<u16>::empty(),
        config_dbname(config) is None,
        config_user(config) is None,
{
    tokio_postgres::Config::new()
}

/// `tokio_postgres::Config::host`: adds `host` after the hosts that are
/// there and leaves the other settings.
#[verifier::external_body]
fn pg_config_host(config: &mut tokio_postgres::Config, host: &str)
    ensures
        config_hosts(*final(config)) == config_hosts(*old(config)).push(host@),
        config_ports(*final(config)) == config_ports(*old(config)),
        config_dbname(*final(config)) == config_dbname(*old(config)),
        config_user(*final(config)) == config_user(*old(config)),
{
    config.host(host);
}

/// `tokio_postgres::Config::port`: adds `port` after the ports that are
/// there and leaves the other settings.
#[verifier::external_body]
fn pg_config_port(config: &mut tokio_postgres::Config, port: u16)
    ensures
        config_hosts(*final(config)) == config_hosts(*old(config)),
        config_ports(*final(config)) == config_ports(*old(config)).push(port),
        config_dbname(*final(config)) == config_dbname(*old(config)),
        config_user(*final(config)) == config_user(*old(config)),
{
    config.port(port);
}

/// `tokio_postgres::Config::dbname`: sets the database name and leaves the
/// other settings.
#[verifier::external_body]
fn pg_config_dbname(config: &mut tokio_postgres::Config, dbname: &str)
    ensures
        config_hosts(*final(config)) == config_hosts(*old(config)),
        config_ports(*final(config)) == config_ports(*old(config)),
        config_dbname(*final(config)) == Some(dbname@),
        config_user(*final(config)) == config_user(*old(config)),
{
    config.dbname(dbname);
}

/// `tokio_postgres::Config::user`: sets the user and leaves the other
/// settings.
#[verifier::external_body]
fn pg_config_user(config: &mut tokio_postgres::Config, user: &str)
    ensures
        config_hosts(*final(config)) == config_hosts(*old(config)),
        config_ports(*final(config)) == config_ports(*old(config)),
        config_dbname(*final(config)) == config_dbname(*old(config)),
        config_user(*final(config)) == Some(user@),
{
    config.user(user);
}

/// The key of a pool: where its connections go and as whom.
pub struct ConnectionContext {
    pub host: String,
    pub port: u16,
    pub dbname: String,
    pub user: String,
}

/// What a [`ConnectionContext`] holds. Two contexts are the same key where
/// these are equal.
pub struct ConnectionContextView {
    pub host: Seq<char>,
    pub port: u16,
    pub dbname: Seq<char>,
    pub user: Seq<char>,
}

impl View for ConnectionContext {
    type V = ConnectionContextView;

    open spec fn view(&self) -> ConnectionContextView {
        ConnectionContextView {
            host: self.host@,
            port: self.port,
            dbname: self.dbname@,
            user: self.user@,
        }
    }
}

impl ConnectionContext {
    /// The configuration of the wire client for this context: its one host,
    /// its one port, its database name and its user.
    pub fn to_pg_config(&self) -> (config: tokio_postgres::Config)
        ensures
            config_hosts(config) == seq![self@.host],
            config_ports(config) == seq![self@.port],
            config_dbname(config) == Some(self@.dbname),
            config_user(config) == Some(self@.user),
    {
        let mut config = pg_config_new();
        pg_config_host(&mut config, self.host.as_str());
        pg_config_port(&mut config, self.port);
        pg_config_dbname(&mut config, self.dbname.as_str());
        pg_config_user(&mut config, self.user.as_str());
        assert(config_hosts(config) =~= seq![self@.host]);
        assert(config_ports(config) =~= seq![self@.port]);
        config
    }

    /// Whether the two contexts are the same key.
    pub fn same(&self, other: &ConnectionContext) -> (same: bool)
        ensures
            same == (self@ == other@),
    {
        self.port == other.port && self.host == other.host && self.dbname == other.dbname
            && self.user == other.user
    }
}

/// A pool of `deadpool_postgres`. The pool is shared by reference counting:
/// a copy made by [`share_pool`] is the same pool, and equality of two
/// values of this type means that.
#[verifier::external_body]
pub struct SharedPool {
    pool: deadpool_postgres::Pool,
}

/// Creates a pool with `deadpool_postgres::Config::create_pool`, for the
/// tokio runtime, without TLS and with fast recycling. No connection is
/// opened. The configuration is refused where the database name is empty,
/// and nothing else can fail: no URL is given, and a runtime is.
#[verifier::external_body]
fn create_pool(host: &str, port: u16, dbname: &str, user: &str) -> (created: Result<
    SharedPool,
    CreatePoolError,
>)
    ensures
        created is Ok <==> dbname@.len() > 0,
{
    let mut config = deadpool_postgres::Config::new();
    config.dbname = Some(dbname.to_string());
    config.user = Some(user.to_string());
    config.port = Some(port);
    config.host = Some(host.to_string());
    config.manager = Some(ManagerConfig { recycling_method: RecyclingMethod::Fast });
    config.create_pool(Some(Runtime::Tokio1), NoTls).map(|pool| SharedPool { pool })
}

/// `Clone` of a `deadpool_postgres::Pool`: one more reference to the same
/// pool.
#[verifier::external_body]
fn share_pool(pool: &SharedPool) -> (shared: SharedPool)
    ensures
        shared == *pool,
{
    SharedPool { pool: pool.pool.clone() }
}

/// Tells the two variants of `deadpool_postgres::CreatePoolError` apart and
/// keeps the text of each.
#[verifier::external_body]
fn pool_error(error: CreatePoolError) -> PoolError {
    match error {
        CreatePoolError::Config(cause) => PoolError::Config(cause.to_string()),
        CreatePoolError::Build(cause) => PoolError::Build(cause.to_string()),
    }
}

/// A pool as the registry hands it out: the pool, and the slot of the
/// registry that holds it. The slot is the identity of the handle.
pub struct PooledHandle {
    pub slot: usize,
    pub pool: SharedPool,
}

/// One slot of the registry.
pub struct PoolEntry {
    pub context: ConnectionContext,
    pub pool: SharedPool,
}

/// What a slot of the registry holds.
pub struct PoolEntryView {
    pub context: ConnectionContextView,
    pub pool: SharedPool,
}

impl View for PoolEntry {
    type V = PoolEntryView;

    open spec fn view(&self) -> PoolEntryView {
        PoolEntryView { context: self.context@, pool: self.pool }
    }
}

/// Index of the first slot at or after `from` that holds `context`, or the
/// number of slots when there is none.
pub open spec fn slot_from(slots: Seq<PoolEntryView>, context: ConnectionContextView, from: int) -> int
    decreases slots.len() - from,
{
    if from < 0 || from >= slots.len() {
        slots.len() as int
    } else if slots[from].context == context {
        from
    } else {
        slot_from(slots, context, from + 1)
    }
}

/// Index of the slot that holds `context`, or the number of slots when
/// there is none.
pub open spec fn slot_of(slots: Seq<PoolEntryView>, context: ConnectionContextView) -> int {
    slot_from(slots, context, 0)
}

/// No two slots hold the same context.
pub open spec fn distinct_contexts(slots: Seq<PoolEntryView>) -> bool {
    forall|i: int, j: int|
        0 <= i < j < slots.len() ==> (#[trigger] slots[i]).context != (#[trigger] slots[j]).context
}

/// `before` is the beginning of `after`.
pub open spec fn grown_from(after: Seq<PoolEntryView>, before: Seq<PoolEntryView>) -> bool {
    before.len() <= after.len() && after.subrange(0, before.len() as int) == before
}

/// What a request for `context` does to the slots `before`, and what it
/// answers. A context that has a slot is answered from it and nothing
/// changes. A context without a slot gets a new pool in a new last slot; that
/// fails exactly where the database name is empty, and then nothing changes.
pub open spec fn served(
    before: Seq<PoolEntryView>,
    context: ConnectionContextView,
    after: Seq<PoolEntryView>,
    answer: Result<PooledHandle, PoolError>,
) -> bool {
    let slot = slot_of(before, context);
    if slot < before.len() {
        &&& after == before
        &&& answer matches Ok(handle)
        &&& handle.slot == slot
        &&& handle.pool == before[slot].pool
    } else if context.dbname.len() > 0 {
        &&& answer matches Ok(handle)
        &&& handle.slot == before.len()
        &&& after == before.push(PoolEntryView { context, pool: handle.pool })
    } else {
        &&& after == before
        &&& answer is Err
    }
}

/// The registry of pools.
pub struct ConnectionPoolManager {
    pools: Vec<PoolEntry>,
}

impl View for ConnectionPoolManager {
    type V = Seq<PoolEntryView>;

    /// The slots in the order in which their pools were created.
    closed spec fn view(&self) -> Seq<PoolEntryView> {
        self.pools.deep_view()
    }
}

impl DeepView for PoolEntry {
    type V = PoolEntryView;

    open spec fn deep_view(&self) -> PoolEntryView {
        self@
    }
}

impl ConnectionPoolManager {
    #[verifier::type_invariant]
    spec fn distinct(self) -> bool {
        distinct_contexts(self@)
    }

    /// A registry without pools.
    pub fn new() -> (manager: ConnectionPoolManager)
        ensures
            manager@ == Seq::<PoolEntryView>::empty(),
    {
        let manager = ConnectionPoolManager { pools: Vec::new() };
        assert(manager.pools.deep_view() =~= Seq::<PoolEntryView>::empty());
        manager
    }

    /// The number of pools.
    pub fn len(&self) -> (len: usize)
        ensures
            len == self@.len(),
    {
        self.pools.len()
    }

    /// The pool for the given context: the one in the registry where there
    /// is one, else a new one, which the registry keeps.
    pub fn get_or_create_pool(&mut self, host: &str, port: u16, dbname: &str, user: &str) -> (answer:
        Result<PooledHandle, PoolError>)
        ensures
            served(
                old(self)@,
                (ConnectionContextView { host: host@, port, dbname: dbname@, user: user@ }),
                final(self)@,
                answer,
            ),
            distinct_contexts(final(self)@),
            grown_from(final(self)@, old(self)@),
    {
        proof {
            use_type_invariant(&*self);
        }
        let context = ConnectionContext {
            host: String::from_str(host),
            port,
            dbname: String::from_str(dbname),
            user: String::from_str(user),
        };
        let n = self.pools.len();
        let mut k: usize = 0;
        while k < n
            invariant
                k <= n,
                n == self.pools.len(),
                *self == *old(self),
                distinct_contexts(self@),
                context@ == (ConnectionContextView { host: host@, port, dbname: dbname@, user: user@ }),
                forall|i: int| 0 <= i < k ==> (#[trigger] self@[i]).context != context@,
                slot_of(self@, context@) == slot_from(self@, context@, k as int),
            decreases n - k,
        {
            if self.pools[k].context.same(&context) {
                let pool = share_pool(&self.pools[k].pool);
                assert(self@.subrange(0, self@.len() as int) =~= self@);
                assert(self@[k as int] == self.pools[k as int]@);
                return Ok(PooledHandle { slot: k, pool });
            }
            k = k + 1;
        }
        match create_pool(host, port, dbname, user) {
            Ok(pool) => {
                let shared = share_pool(&pool);
                // The slots leave the registry while one is added, so that the
                // registry's invariant holds at every step.
                let mut pools: Vec<PoolEntry> = Vec::new();
                std::mem::swap(&mut self.pools, &mut pools);
                pools.push(PoolEntry { context, pool });
                proof {
                    assert forall|i: int, j: int| 0 <= i < j < pools.deep_view().len() implies (
                    #[trigger] pools.deep_view()[i]).context != (#[trigger] pools.deep_view()[j]).context by {
                        if j < n {
                            assert(old(self)@[i].context != old(self)@[j].context);
                        } else {
                            assert(old(self)@[i].context != context@);
                        }
                    }
                }
                std::mem::swap(&mut self.pools, &mut pools);
                proof {
                    let entry = PoolEntryView { context: context@, pool: shared };
                    assert(self@ =~= old(self)@.push(entry));
                    assert(self@.subrange(0, old(self)@.len() as int) =~= old(self)@);
                }
                Ok(PooledHandle { slot: n, pool: shared })
            },
            Err(error) => {
                assert(self@.subrange(0, self@.len() as int) =~= self@);
                Err(pool_error(error))
            },
        }
    }
}

/// What `slot_from` finds: the first slot at or after `from` that holds
/// `context`.
proof fn lemma_slot_from(slots: Seq<PoolEntryView>, context: ConnectionContextView, from: int)
    requires
        0 <= from <= slots.len(),
    ensures
        from <= slot_from(slots, context, from) <= slots.len(),
        slot_from(slots, context, from) < slots.len() ==> slots[slot_from(
            slots,
            context,
            from,
        )].context == context,
        forall|j: int|
            from <= j < slot_from(slots, context, from) ==> (#[trigger] slots[j]).context != context,
    decreases slots.len() - from,
{
    if from < slots.len() && slots[from].context != context {
        lemma_slot_from(slots, context, from + 1);
    }
}

/// A slot that holds `context`, with no slot before it that does, is the
/// slot of `context`.
proof fn lemma_slot_found(slots: Seq<PoolEntryView>, context: ConnectionContextView, slot: int)
    requires
        0 <= slot < slots.len(),
        slots[slot].context == context,
        forall|j: int| 0 <= j < slot ==> (#[trigger] slots[j]).context != context,
    ensures
        slot_of(slots, context) == slot,
{
    lemma_slot_from(slots, context, 0);
}

/// Where a request was answered with a handle, the slot of that handle holds
/// the context from then on, and is the slot of the context, however the
/// registry grows.
proof fn lemma_handle_stays(
    before: Seq<PoolEntryView>,
    context: ConnectionContextView,
    after: Seq<PoolEntryView>,
    handle: PooledHandle,
    later: Seq<PoolEntryView>,
)
    requires
        served(before, context, after, Ok(handle)),
        grown_from(later, after),
    ensures
        handle.slot < after.len(),
        later[handle.slot as int] == after[handle.slot as int],
        later[handle.slot as int].context == context,
        later[handle.slot as int].pool == handle.pool,
        slot_of(later, context) == handle.slot,
{
    lemma_slot_from(before, context, 0);
    let slot = handle.slot as int;
    assert forall|j: int| 0 <= j < after.len() implies later[j] == after[j] by {
        assert(later.subrange(0, after.len() as int)[j] == later[j]);
    }
    lemma_slot_found(later, context, slot);
}

/// Requests for one context are answered with one handle. Where a request
/// for `context` was answered with a handle, a later request for the same
/// context is answered with that handle, the same slot and the same pool,
/// and creates nothing, whatever was requested in between.
pub proof fn lemma_same_context_same_handle(
    before: Seq<PoolEntryView>,
    context: ConnectionContextView,
    after: Seq<PoolEntryView>,
    first: PooledHandle,
    later: Seq<PoolEntryView>,
    last: Seq<PoolEntryView>,
    second: Result<PooledHandle, PoolError>,
)
    requires
        served(before, context, after, Ok(first)),
        grown_from(later, after),
        served(later, context, last, second),
    ensures
        second == Ok::<PooledHandle, PoolError>(first),
        last == later,
{
    lemma_handle_stays(before, context, after, first, later);
}

/// Requests for different contexts are answered with different handles.
/// Where a request for one context was answered with a handle, the handle
/// that answers a later request for a context that differs in a field has
/// another slot, and the slot of the first handle keeps its pool.
pub proof fn lemma_other_context_other_handle(
    before: Seq<PoolEntryView>,
    context: ConnectionContextView,
    after: Seq<PoolEntryView>,
    first: PooledHandle,
    later: Seq<PoolEntryView>,
    other: ConnectionContextView,
    last: Seq<PoolEntryView>,
    second: PooledHandle,
)
    requires
        served(before, context, after, Ok(first)),
        grown_from(later, after),
        served(later, other, last, Ok(second)),
        other != context,
    ensures
        second.slot != first.slot,
        last[first.slot as int].context == context,
        last[first.slot as int].pool == first.pool,
        last[second.slot as int].context == other,
{
    lemma_handle_stays(before, context, after, first, later);
    lemma_slot_from(later, other, 0);
}

} // verus!
