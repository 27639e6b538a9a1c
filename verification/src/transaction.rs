//! Driver-neutral PostgreSQL transaction options.
use core::marker::PhantomData;
use vstd::prelude::*;

use crate::common::PostgresTransactionType;

verus! {

/// PostgreSQL transaction isolation level.
#[derive(Debug, Clone, Copy, PartialEq, Eq, Structural)]
pub enum IsolationLevel {
    /// `READ UNCOMMITTED`.
    ReadUncommitted,
    /// `READ COMMITTED`.
    ReadCommitted,
    /// `REPEATABLE READ`.
    RepeatableRead,
    /// `SERIALIZABLE`.
    Serializable,
}

/// The SQL keywords that name an isolation level.
pub open spec fn isolation_keywords(level: IsolationLevel) -> Seq<char> {
    match level {
        IsolationLevel::ReadUncommitted => "READ UNCOMMITTED"@,
        IsolationLevel::ReadCommitted => "READ COMMITTED"@,
        IsolationLevel::RepeatableRead => "REPEATABLE READ"@,
        IsolationLevel::Serializable => "SERIALIZABLE"@,
    }
}

impl IsolationLevel {
    /// The SQL spelling of this isolation level, e.g. `REPEATABLE READ`.
    pub fn as_sql(&self) -> (res: &'static str)
        ensures
            res@ == isolation_keywords(*self),
    {
        match self {
            IsolationLevel::ReadUncommitted => "READ UNCOMMITTED",
            IsolationLevel::ReadCommitted => "READ COMMITTED",
            IsolationLevel::RepeatableRead => "REPEATABLE READ",
            IsolationLevel::Serializable => "SERIALIZABLE",
        }
    }
}

/// PostgreSQL transaction access mode.
#[derive(Debug, Clone, Copy, PartialEq, Eq, Structural)]
pub enum AccessMode {
    /// Reject writes in the transaction.
    ReadOnly,
    /// Permit reads and writes.
    ReadWrite,
}

/// The SQL keywords that name an access mode.
pub open spec fn access_keywords(mode: AccessMode) -> Seq<char> {
    match mode {
        AccessMode::ReadOnly => "READ ONLY"@,
        AccessMode::ReadWrite => "READ WRITE"@,
    }
}

impl AccessMode {
    /// The SQL spelling of this access mode, e.g. `READ ONLY`.
    pub fn as_sql(&self) -> (res: &'static str)
        ensures
            res@ == access_keywords(*self),
    {
        match self {
            AccessMode::ReadOnly => "READ ONLY",
            AccessMode::ReadWrite => "READ WRITE",
        }
    }
}

/// The abstract contents of a [`TransactionConfig`].
pub struct TransactionOptions {
    /// Chosen isolation level; `None` leaves it to the server.
    pub isolation_level: Option<IsolationLevel>,
    /// Chosen access mode; `None` leaves it to the server.
    pub access_mode: Option<AccessMode>,
    /// Whether `DEFERRABLE` was requested.
    pub deferrable: bool,
    /// Whether the configuration came from the legacy `ReadCommitted` setting.
    pub legacy_read_committed: bool,
}

/// Options applied when starting a PostgreSQL transaction.
///
/// The default leaves every choice to the server. `DEFERRABLE` is only ever
/// set together with `SERIALIZABLE` and `READ ONLY`, the combination where
/// PostgreSQL gives the option meaning.
#[derive(Debug, Clone, Copy, PartialEq, Eq, Structural)]
pub struct TransactionConfig {
    isolation_level: Option<IsolationLevel>,
    access_mode: Option<AccessMode>,
    deferrable: bool,
    legacy_read_committed: bool,
}

/// `DEFERRABLE` only accompanies a serializable, read-only transaction.
pub open spec fn deferrable_is_meaningful(o: TransactionOptions) -> bool {
    o.deferrable ==> (o.isolation_level == Some(IsolationLevel::Serializable) && o.access_mode
        == Some(AccessMode::ReadOnly))
}

/// The options of a configuration that leaves everything to the server.
pub open spec fn server_default_options() -> TransactionOptions {
    TransactionOptions {
        isolation_level: None,
        access_mode: None,
        deferrable: false,
        legacy_read_committed: false,
    }
}

/// The options after selecting `level` at runtime: any `DEFERRABLE` and the
/// legacy flag are dropped.
pub open spec fn with_isolation(o: TransactionOptions, level: IsolationLevel) -> TransactionOptions {
    TransactionOptions {
        isolation_level: Some(level),
        deferrable: false,
        legacy_read_committed: false,
        ..o
    }
}

/// The options after selecting `mode` at runtime: any `DEFERRABLE` is dropped.
pub open spec fn with_access(o: TransactionOptions, mode: AccessMode) -> TransactionOptions {
    TransactionOptions { access_mode: Some(mode), deferrable: false, ..o }
}

/// Whether an adapter should leave the isolation level to the server.
pub open spec fn spec_uses_server_default(o: TransactionOptions) -> bool {
    o.isolation_level.is_none() || o.legacy_read_committed
}

impl View for TransactionConfig {
    type V = TransactionOptions;

    closed spec fn view(&self) -> TransactionOptions {
        TransactionOptions {
            isolation_level: self.isolation_level,
            access_mode: self.access_mode,
            deferrable: self.deferrable,
            legacy_read_committed: self.legacy_read_committed,
        }
    }
}

impl TransactionConfig {
    #[verifier::type_invariant]
    spec fn inv(self) -> bool {
        deferrable_is_meaningful(self@)
    }

    /// Uses server defaults for every option.
    pub fn new() -> (res: Self)
        ensures
            res@ == server_default_options(),
    {
        TransactionConfig {
            isolation_level: None,
            access_mode: None,
            deferrable: false,
            legacy_read_committed: false,
        }
    }

    /// Starts a typestated transaction configuration.
    pub fn builder() -> (res: ConfigBuilder)
        ensures
            res.config()@ == server_default_options(),
    {
        ConfigBuilder::new()
    }

    /// Selects an isolation level supplied at runtime.
    pub fn isolation_level(self, level: IsolationLevel) -> (res: Self)
        ensures
            res@ == with_isolation(self@, level),
    {
        TransactionConfig {
            isolation_level: Some(level),
            access_mode: self.access_mode,
            deferrable: false,
            legacy_read_committed: false,
        }
    }

    /// Selects an access mode supplied at runtime.
    pub fn access_mode(self, mode: AccessMode) -> (res: Self)
        ensures
            res@ == with_access(self@, mode),
    {
        TransactionConfig {
            isolation_level: self.isolation_level,
            access_mode: Some(mode),
            deferrable: false,
            legacy_read_committed: self.legacy_read_committed,
        }
    }

    /// Configured isolation level, or `None` to use the server default.
    pub fn isolation(&self) -> (res: Option<IsolationLevel>)
        ensures
            res == self@.isolation_level,
    {
        self.isolation_level
    }

    /// Configured access mode, or `None` to use the server default.
    pub fn access(&self) -> (res: Option<AccessMode>)
        ensures
            res == self@.access_mode,
    {
        self.access_mode
    }

    /// Whether `DEFERRABLE` was requested.
    pub fn is_deferrable(&self) -> (res: bool)
        ensures
            res == self@.deferrable,
            res ==> deferrable_is_meaningful(self@),
    {
        proof {
            use_type_invariant(self);
        }
        self.deferrable
    }

    /// Whether wire-protocol adapters should preserve the legacy
    /// server-default behaviour of `PostgresTransactionType::ReadCommitted`.
    pub fn uses_server_default_isolation(&self) -> (res: bool)
        ensures
            res == spec_uses_server_default(self@),
    {
        self.isolation_level.is_none() || self.legacy_read_committed
    }

    /// Configuration from the legacy transaction type: the matching isolation
    /// level, with `ReadCommitted` still deferring to the server.
    pub fn from_transaction_type(tx_type: PostgresTransactionType) -> (res: Self)
        ensures
            res@ == legacy_options(tx_type),
    {
        let isolation_level = match tx_type {
            PostgresTransactionType::ReadCommitted => Some(IsolationLevel::ReadCommitted),
            PostgresTransactionType::ReadUncommitted => Some(IsolationLevel::ReadUncommitted),
            PostgresTransactionType::RepeatableRead => Some(IsolationLevel::RepeatableRead),
            PostgresTransactionType::Serializable => Some(IsolationLevel::Serializable),
        };
        let legacy = match tx_type {
            PostgresTransactionType::ReadCommitted => true,
            _ => false,
        };
        TransactionConfig {
            isolation_level,
            access_mode: None,
            deferrable: false,
            legacy_read_committed: legacy,
        }
    }
}

/// The options that a legacy transaction type stands for.
pub open spec fn legacy_options(tx_type: PostgresTransactionType) -> TransactionOptions {
    TransactionOptions {
        isolation_level: Some(
            match tx_type {
                PostgresTransactionType::ReadUncommitted => IsolationLevel::ReadUncommitted,
                PostgresTransactionType::ReadCommitted => IsolationLevel::ReadCommitted,
                PostgresTransactionType::RepeatableRead => IsolationLevel::RepeatableRead,
                PostgresTransactionType::Serializable => IsolationLevel::Serializable,
            },
        ),
        access_mode: None,
        deferrable: false,
        legacy_read_committed: tx_type == PostgresTransactionType::ReadCommitted,
    }
}

impl Default for TransactionConfig {
    fn default() -> (res: Self)
        ensures
            res@ == server_default_options(),
    {
        TransactionConfig::new()
    }
}

impl From<PostgresTransactionType> for TransactionConfig {
    fn from(tx_type: PostgresTransactionType) -> (res: Self)
        ensures
            res@ == legacy_options(tx_type),
    {
        TransactionConfig::from_transaction_type(tx_type)
    }
}

impl vstd::std_specs::convert::FromSpecImpl<PostgresTransactionType> for TransactionConfig {
    open spec fn obeys_from_spec() -> bool {
        true
    }

    closed spec fn from_spec(v: PostgresTransactionType) -> TransactionConfig {
        TransactionConfig {
            isolation_level: legacy_options(v).isolation_level,
            access_mode: None,
            deferrable: false,
            legacy_read_committed: legacy_options(v).legacy_read_committed,
        }
    }
}

/// Typestate marker: the option is left to the server.
#[derive(Debug, Clone, Copy, PartialEq, Eq, Structural)]
pub struct ServerDefault;

/// Typestate marker: the option was supplied at runtime.
#[derive(Debug, Clone, Copy, PartialEq, Eq, Structural)]
pub struct Dynamic;

/// Typestate marker: `READ UNCOMMITTED` isolation.
#[derive(Debug, Clone, Copy, PartialEq, Eq, Structural)]
pub struct ReadUncommitted;

/// Typestate marker: `READ COMMITTED` isolation.
#[derive(Debug, Clone, Copy, PartialEq, Eq, Structural)]
pub struct ReadCommitted;

/// Typestate marker: `REPEATABLE READ` isolation.
#[derive(Debug, Clone, Copy, PartialEq, Eq, Structural)]
pub struct RepeatableRead;

/// Typestate marker: `SERIALIZABLE` isolation.
#[derive(Debug, Clone, Copy, PartialEq, Eq, Structural)]
pub struct Serializable;

/// Typestate marker: read-only access.
#[derive(Debug, Clone, Copy, PartialEq, Eq, Structural)]
pub struct ReadOnly;

/// Typestate marker: read-write access.
#[derive(Debug, Clone, Copy, PartialEq, Eq, Structural)]
pub struct ReadWrite;

/// A typestate marker for the isolation level of a [`ConfigBuilder`].
pub trait IsolationState {
    /// The isolation level that the marker stands for, if it names one.
    spec fn fixed_isolation() -> Option<IsolationLevel>;
}

/// A typestate marker for the access mode of a [`ConfigBuilder`].
pub trait AccessState {
    /// The access mode that the marker stands for, if it names one.
    spec fn fixed_access() -> Option<AccessMode>;
}

impl IsolationState for ServerDefault {
    open spec fn fixed_isolation() -> Option<IsolationLevel> {
        None
    }
}

impl IsolationState for Dynamic {
    open spec fn fixed_isolation() -> Option<IsolationLevel> {
        None
    }
}

impl IsolationState for ReadUncommitted {
    open spec fn fixed_isolation() -> Option<IsolationLevel> {
        Some(IsolationLevel::ReadUncommitted)
    }
}

impl IsolationState for ReadCommitted {
    open spec fn fixed_isolation() -> Option<IsolationLevel> {
        Some(IsolationLevel::ReadCommitted)
    }
}

impl IsolationState for RepeatableRead {
    open spec fn fixed_isolation() -> Option<IsolationLevel> {
        Some(IsolationLevel::RepeatableRead)
    }
}

impl IsolationState for Serializable {
    open spec fn fixed_isolation() -> Option<IsolationLevel> {
        Some(IsolationLevel::Serializable)
    }
}

impl AccessState for ServerDefault {
    open spec fn fixed_access() -> Option<AccessMode> {
        None
    }
}

impl AccessState for Dynamic {
    open spec fn fixed_access() -> Option<AccessMode> {
        None
    }
}

impl AccessState for ReadOnly {
    open spec fn fixed_access() -> Option<AccessMode> {
        Some(AccessMode::ReadOnly)
    }
}

impl AccessState for ReadWrite {
    open spec fn fixed_access() -> Option<AccessMode> {
        Some(AccessMode::ReadWrite)
    }
}

/// Typestated builder for [`TransactionConfig`].
///
/// Its markers say which isolation level and access mode the configuration
/// holds; only `ConfigBuilder<Serializable, ReadOnly>` offers `deferrable`.
#[derive(Debug)]
pub struct ConfigBuilder<
    Isolation: IsolationState = ServerDefault,
    Access: AccessState = ServerDefault,
> {
    config: TransactionConfig,
    state: PhantomData<(Isolation, Access)>,
}

/// The configuration holds the isolation level and the access mode that the
/// markers `I` and `A` name.
pub open spec fn matches_markers<I: IsolationState, A: AccessState>(o: TransactionOptions) -> bool {
    &&& (I::fixed_isolation() matches Some(l) ==> o.isolation_level == Some(l))
    &&& (A::fixed_access() matches Some(m) ==> o.access_mode == Some(m))
}

impl<Isolation: IsolationState, Access: AccessState> Clone for ConfigBuilder<Isolation, Access> {
    fn clone(&self) -> (res: Self)
        ensures
            res.config() == self.config(),
    {
        proof {
            use_type_invariant(self);
        }
        ConfigBuilder { config: self.config, state: PhantomData }
    }
}

impl<Isolation: IsolationState, Access: AccessState> Copy for ConfigBuilder<Isolation, Access> {

}

impl ConfigBuilder {
    fn new() -> (res: Self)
        ensures
            res.config()@ == server_default_options(),
    {
        ConfigBuilder { config: TransactionConfig::new(), state: PhantomData }
    }
}

impl<Isolation: IsolationState, Access: AccessState> ConfigBuilder<Isolation, Access> {
    #[verifier::type_invariant]
    spec fn markers_hold(self) -> bool {
        matches_markers::<Isolation, Access>(self.config@)
    }

    /// The configuration built so far.
    pub closed spec fn config(self) -> TransactionConfig {
        self.config
    }

    fn isolation<Next: IsolationState>(self, level: IsolationLevel) -> (res: ConfigBuilder<Next, Access>)
        requires
            Next::fixed_isolation() matches Some(l) ==> l == level,
        ensures
            res.config()@ == with_isolation(self.config()@, level),
    {
        proof {
            use_type_invariant(self);
        }
        ConfigBuilder { config: self.config.isolation_level(level), state: PhantomData }
    }

    fn access<Next: AccessState>(self, mode: AccessMode) -> (res: ConfigBuilder<Isolation, Next>)
        requires
            Next::fixed_access() matches Some(m) ==> m == mode,
        ensures
            res.config()@ == with_access(self.config()@, mode),
    {
        proof {
            use_type_invariant(self);
        }
        ConfigBuilder { config: self.config.access_mode(mode), state: PhantomData }
    }

    /// Selects an isolation level supplied at runtime.
    pub fn isolation_level(self, level: IsolationLevel) -> (res: ConfigBuilder<Dynamic, Access>)
        ensures
            res.config()@ == with_isolation(self.config()@, level),
    {
        self.isolation(level)
    }

    /// Uses `READ UNCOMMITTED` isolation.
    pub fn read_uncommitted(self) -> (res: ConfigBuilder<ReadUncommitted, Access>)
        ensures
            res.config()@ == with_isolation(self.config()@, IsolationLevel::ReadUncommitted),
    {
        self.isolation(IsolationLevel::ReadUncommitted)
    }

    /// Uses `READ COMMITTED` isolation.
    pub fn read_committed(self) -> (res: ConfigBuilder<ReadCommitted, Access>)
        ensures
            res.config()@ == with_isolation(self.config()@, IsolationLevel::ReadCommitted),
    {
        self.isolation(IsolationLevel::ReadCommitted)
    }

    /// Uses `REPEATABLE READ` isolation.
    pub fn repeatable_read(self) -> (res: ConfigBuilder<RepeatableRead, Access>)
        ensures
            res.config()@ == with_isolation(self.config()@, IsolationLevel::RepeatableRead),
    {
        self.isolation(IsolationLevel::RepeatableRead)
    }

    /// Uses `SERIALIZABLE` isolation.
    pub fn serializable(self) -> (res: ConfigBuilder<Serializable, Access>)
        ensures
            res.config()@ == with_isolation(self.config()@, IsolationLevel::Serializable),
    {
        self.isolation(IsolationLevel::Serializable)
    }

    /// Selects an access mode supplied at runtime.
    pub fn access_mode(self, mode: AccessMode) -> (res: ConfigBuilder<Isolation, Dynamic>)
        ensures
            res.config()@ == with_access(self.config()@, mode),
    {
        self.access(mode)
    }

    /// Rejects writes in the transaction.
    pub fn read_only(self) -> (res: ConfigBuilder<Isolation, ReadOnly>)
        ensures
            res.config()@ == with_access(self.config()@, AccessMode::ReadOnly),
    {
        self.access(AccessMode::ReadOnly)
    }

    /// Permits reads and writes in the transaction.
    pub fn read_write(self) -> (res: ConfigBuilder<Isolation, ReadWrite>)
        ensures
            res.config()@ == with_access(self.config()@, AccessMode::ReadWrite),
    {
        self.access(AccessMode::ReadWrite)
    }

    /// Finishes the configuration.
    pub fn build(self) -> (res: TransactionConfig)
        ensures
            res == self.config(),
            matches_markers::<Isolation, Access>(res@),
    {
        proof {
            use_type_invariant(&self);
        }
        self.config
    }
}

impl ConfigBuilder<Serializable, ReadOnly> {
    /// Defers the initial serializable snapshot until it can run without risk
    /// of a serialization failure.
    ///
    /// The typestate guarantees the configuration is `SERIALIZABLE READ ONLY`.
    pub fn deferrable(self) -> (res: Self)
        ensures
            self.config()@.isolation_level == Some(IsolationLevel::Serializable),
            self.config()@.access_mode == Some(AccessMode::ReadOnly),
            res.config()@ == (TransactionOptions { deferrable: true, ..self.config()@ }),
    {
        proof {
            use_type_invariant(&self);
        }
        let c = self.config;
        ConfigBuilder {
            config: TransactionConfig {
                isolation_level: c.isolation_level,
                access_mode: c.access_mode,
                deferrable: true,
                legacy_read_committed: c.legacy_read_committed,
            },
            state: PhantomData,
        }
    }
}

} // verus!

verus! {

/// Selecting an isolation level at runtime drops `DEFERRABLE` and makes
/// adapters send the chosen level instead of the server default.
pub proof fn law_runtime_isolation_is_explicit(o: TransactionOptions, level: IsolationLevel)
    ensures
        !with_isolation(o, level).deferrable,
        !spec_uses_server_default(with_isolation(o, level)),
        with_isolation(o, level).isolation_level == Some(level),
        with_isolation(o, level).access_mode == o.access_mode,
        deferrable_is_meaningful(with_isolation(o, level)),
{
}

/// Changing the access mode drops `DEFERRABLE` and keeps the isolation choice.
pub proof fn law_access_change_clears_deferrable(o: TransactionOptions, mode: AccessMode)
    ensures
        !with_access(o, mode).deferrable,
        with_access(o, mode).access_mode == Some(mode),
        with_access(o, mode).isolation_level == o.isolation_level,
        spec_uses_server_default(with_access(o, mode)) == spec_uses_server_default(o),
        deferrable_is_meaningful(with_access(o, mode)),
{
}

/// The last isolation level and the last access mode chosen win, and the two
/// choices can be made in either order.
pub proof fn law_last_choice_wins(
    o: TransactionOptions,
    a: IsolationLevel,
    b: IsolationLevel,
    m: AccessMode,
    n: AccessMode,
)
    ensures
        with_isolation(with_isolation(o, a), b) == with_isolation(o, b),
        with_access(with_access(o, m), n) == with_access(o, n),
        with_access(with_isolation(o, a), m) == with_isolation(with_access(o, m), a),
{
}

/// A legacy transaction type selects its own isolation level; only
/// `ReadCommitted` keeps deferring to the server's default.
pub proof fn law_legacy_read_committed_defers_to_server(tx_type: PostgresTransactionType)
    ensures
        legacy_options(tx_type).isolation_level.is_some(),
        spec_uses_server_default(legacy_options(tx_type)) == (tx_type
            == PostgresTransactionType::ReadCommitted),
        !legacy_options(tx_type).deferrable,
{
}

/// A configuration that leaves everything to the server uses the server's
/// isolation level and is not deferrable.
pub proof fn law_server_default(o: TransactionOptions)
    requires
        o == server_default_options(),
    ensures
        spec_uses_server_default(o),
        !o.deferrable,
{
}

} // verus!
