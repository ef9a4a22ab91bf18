use gimme_graphql::build_web_framework_config;
use gimme_graphql::default_database_url_env_var;
use gimme_graphql::default_graphql_path;
use gimme_graphql::default_mount_graphiql_at;
use gimme_graphql::default_mount_graphql_at;
use gimme_graphql::hello_world_app::App;
use gimme_graphql::GraphqlApp;
use gimme_graphql::pool::{PoolError, PoolState};
use gimme_graphql::DEFAULT_DATABASE_CONNECTION_POOL_MAX_SIZE;

#[test]
fn fresh_pool_has_every_slot_free() {
    let pool = PoolState::new(3);
    assert_eq!(pool.max_size, 3);
    assert_eq!(pool.in_use, 0);
    assert_eq!(pool.free_slots(), 3);
}

#[test]
fn checkout_succeeds_while_a_slot_is_free() {
    let mut pool = PoolState::new(2);
    assert!(pool.try_check_out().is_ok());
    assert_eq!(pool.in_use, 1);
    assert!(pool.try_check_out().is_ok());
    assert_eq!(pool.in_use, 2);
}

#[test]
fn checkout_fails_once_exhausted() {
    let mut pool = PoolState::new(1);
    assert!(pool.try_check_out().is_ok());
    let refused = pool.try_check_out();
    assert_eq!(refused, Err(PoolError::Exhausted));
    assert_eq!(pool.in_use, 1);
}

#[test]
fn empty_pool_refuses_every_checkout() {
    let mut pool = PoolState::new(0);
    assert_eq!(pool.try_check_out(), Err(PoolError::Exhausted));
    assert_eq!(pool.in_use, 0);
}

#[test]
fn check_in_frees_a_slot_again() {
    let mut pool = PoolState::new(1);
    assert!(pool.try_check_out().is_ok());
    pool.check_in();
    assert_eq!(pool.in_use, 0);
    assert!(pool.try_check_out().is_ok());
}

#[test]
fn pool_error_message_text() {
    assert_eq!(PoolError::Exhausted.message(), "connection pool exhausted");
}

#[test]
fn default_configuration_values() {
    assert_eq!(default_graphql_path(), "/graphql");
    assert_eq!(default_mount_graphql_at(), "/");
    assert_eq!(default_mount_graphiql_at(), "/");
    assert_eq!(default_database_url_env_var(), "DATABASE_URL");
    assert_eq!(DEFAULT_DATABASE_CONNECTION_POOL_MAX_SIZE, 10);
}

#[test]
fn config_built_from_the_default_app() {
    let config = build_web_framework_config(&App::new());
    assert_eq!(config.graphql_path, "/graphql");
    assert_eq!(config.mount_graphiql_at, "/");
    assert_eq!(config.mount_graphql_at, "/");
    assert_eq!(config.database_connection_pool.max_size, 10);
    assert_eq!(config.database_connection_pool.in_use, 0);
}

#[test]
fn default_app_answers_with_the_default_configuration() {
    let app = App::new();
    assert_eq!(app.graphql_path(), "/graphql");
    assert_eq!(app.mount_graphql_at(), "/");
    assert_eq!(app.mount_graphiql_at(), "/");
    assert_eq!(app.database_connection_pool_max_size(), 10);
    assert_eq!(app.database_url_env_var(), "DATABASE_URL");
}
