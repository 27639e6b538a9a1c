use drizzle_postgres::common::PostgresTransactionType;
use drizzle_postgres::transaction::{AccessMode, IsolationLevel, TransactionConfig};

#[test]
fn default_uses_server_policy() {
    assert_eq!(TransactionConfig::new(), TransactionConfig::default());
}

#[test]
fn builder_preserves_selected_options() {
    let config = TransactionConfig::builder()
        .serializable()
        .read_only()
        .deferrable()
        .build();

    assert_eq!(config.isolation(), Some(IsolationLevel::Serializable));
    assert_eq!(config.access(), Some(AccessMode::ReadOnly));
    assert!(config.is_deferrable());
}

#[test]
fn legacy_read_committed_preserves_adapter_behavior() {
    let config = TransactionConfig::from(PostgresTransactionType::ReadCommitted);
    assert_eq!(config.isolation(), Some(IsolationLevel::ReadCommitted));
    assert!(config.uses_server_default_isolation());
}

#[test]
fn changing_access_clears_deferrable() {
    let config = TransactionConfig::builder()
        .serializable()
        .read_only()
        .deferrable()
        .read_write()
        .build();

    assert_eq!(config.access(), Some(AccessMode::ReadWrite));
    assert!(!config.is_deferrable());
}

#[test]
fn runtime_setters_clear_invalid_deferrable_state() {
    let config = TransactionConfig::builder()
        .serializable()
        .read_only()
        .deferrable()
        .build()
        .access_mode(AccessMode::ReadWrite)
        .isolation_level(IsolationLevel::ReadCommitted);

    assert!(!config.is_deferrable());
    assert!(!config.uses_server_default_isolation());
}

#[test]
fn default_config_chooses_nothing() {
    let config = TransactionConfig::new();
    assert_eq!(config.isolation(), None);
    assert_eq!(config.access(), None);
    assert!(!config.is_deferrable());
    assert!(config.uses_server_default_isolation());
}

#[test]
fn last_isolation_choice_wins() {
    let config = TransactionConfig::builder()
        .read_uncommitted()
        .repeatable_read()
        .build();
    assert_eq!(config.isolation(), Some(IsolationLevel::RepeatableRead));
    assert!(!config.uses_server_default_isolation());
}

#[test]
fn changing_isolation_clears_deferrable() {
    let config = TransactionConfig::builder()
        .serializable()
        .read_only()
        .deferrable()
        .build()
        .isolation_level(IsolationLevel::Serializable);
    assert!(!config.is_deferrable());
}

#[test]
fn transaction_types_map_to_levels() {
    let c = TransactionConfig::from(PostgresTransactionType::Serializable);
    assert_eq!(c.isolation(), Some(IsolationLevel::Serializable));
    assert!(!c.uses_server_default_isolation());
    let c = TransactionConfig::from(PostgresTransactionType::RepeatableRead);
    assert_eq!(c.isolation(), Some(IsolationLevel::RepeatableRead));
    let c = TransactionConfig::from(PostgresTransactionType::ReadUncommitted);
    assert_eq!(c.isolation(), Some(IsolationLevel::ReadUncommitted));
}

#[test]
fn keywords_of_levels_and_modes() {
    assert_eq!(IsolationLevel::ReadUncommitted.as_sql(), "READ UNCOMMITTED");
    assert_eq!(IsolationLevel::ReadCommitted.as_sql(), "READ COMMITTED");
    assert_eq!(IsolationLevel::RepeatableRead.as_sql(), "REPEATABLE READ");
    assert_eq!(IsolationLevel::Serializable.as_sql(), "SERIALIZABLE");
    assert_eq!(AccessMode::ReadOnly.as_sql(), "READ ONLY");
    assert_eq!(AccessMode::ReadWrite.as_sql(), "READ WRITE");
}
