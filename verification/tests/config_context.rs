use apalis_core::backend::poll_strategy::{MultiStrategy, StrategyBuilder};
use apalis_rsmq::{Config, RedisMqContext, DEFAULT_BUFFER_SIZE};
use serde::de::Error as _;
use serde_json::Value;

fn strategy() -> MultiStrategy {
    StrategyBuilder::new().build()
}

#[test]
fn config_new_keeps_its_fields() {
    let config = Config::new(strategy(), 7, "emails".to_string());
    assert_eq!(config.buffer_size(), 7);
    assert_eq!(config.namespace(), "emails");
}

#[test]
fn config_default_settings() {
    let config = Config::default_with_strategy(strategy());
    assert_eq!(config.buffer_size(), 100);
    assert_eq!(DEFAULT_BUFFER_SIZE, 100);
    assert_eq!(config.namespace(), "default_queue");
}

#[test]
fn config_set_then_get() {
    let mut config = Config::default_with_strategy(strategy());
    config.set_namespace("email".to_owned());
    assert_eq!(config.namespace(), "email");
    assert_eq!(config.buffer_size(), 100);
    config.set_buffer_size(3);
    assert_eq!(config.buffer_size(), 3);
    assert_eq!(config.namespace(), "email");
    config.set_poll_strategy(strategy());
    assert_eq!(config.buffer_size(), 3);
    assert_eq!(config.namespace(), "email");
    let _ = config.poll_strategy();
}

#[test]
fn config_clone_keeps_settings() {
    let mut config = Config::default_with_strategy(strategy());
    config.set_namespace("jobs".to_owned());
    config.set_buffer_size(12);
    let copy = config.clone();
    assert_eq!(copy.namespace(), "jobs");
    assert_eq!(copy.buffer_size(), 12);
}

#[test]
fn context_new_has_no_meta() {
    let ctx = RedisMqContext::new(5);
    assert_eq!(ctx.max_attempts(), 5);
    assert!(ctx.meta().is_empty());
}

#[test]
fn context_default_is_empty() {
    let ctx = RedisMqContext::default();
    assert_eq!(ctx.max_attempts(), 0);
    assert!(ctx.meta().is_empty());
}

#[test]
fn context_builders_change_one_field() {
    let mut meta = serde_json::Map::new();
    meta.insert("k".to_string(), Value::from(3));
    let ctx = RedisMqContext::new(1).with_meta(meta.clone()).with_max_attempts(9);
    assert_eq!(ctx.max_attempts(), 9);
    assert_eq!(ctx.meta(), &meta);
    let ctx = ctx.with_meta(serde_json::Map::new());
    assert_eq!(ctx.max_attempts(), 9);
    assert!(ctx.meta().is_empty());
}

#[test]
fn context_insert_then_lookup() {
    let mut ctx = RedisMqContext::new(2);
    ctx.insert_meta("a".to_string(), Value::from("x"));
    ctx.insert_meta("b".to_string(), Value::from(1));
    ctx.insert_meta("a".to_string(), Value::from("y"));
    assert_eq!(ctx.lookup_meta("a").unwrap(), &Value::from("y"));
    assert_eq!(ctx.lookup_meta("b").unwrap(), &Value::from(1));
    assert_eq!(ctx.max_attempts(), 2);
}

#[test]
fn context_lookup_missing_reports_type() {
    let ctx = RedisMqContext::new(2);
    let err = ctx.lookup_meta("my_crate::Email").unwrap_err();
    assert_eq!(err.to_string(), "No metadata found for type: my_crate::Email");
}

#[test]
fn context_inject_ok_stores_value() {
    let mut ctx = RedisMqContext::new(2);
    let r = ctx.inject_value("alloc::string::String".to_string(), Ok(Value::from("hello")));
    assert!(r.is_ok());
    assert_eq!(ctx.lookup_meta("alloc::string::String").unwrap(), &Value::from("hello"));
}

#[test]
fn context_inject_error_leaves_context() {
    let mut ctx = RedisMqContext::new(2);
    ctx.insert_meta("t".to_string(), Value::from(4));
    let r = ctx.inject_value("t".to_string(), Err(serde_json::Error::custom("cannot serialize")));
    assert_eq!(r.unwrap_err().to_string(), "cannot serialize");
    assert_eq!(ctx.lookup_meta("t").unwrap(), &Value::from(4));
    assert_eq!(ctx.meta().len(), 1);
}

#[test]
fn context_clone_keeps_everything() {
    let mut ctx = RedisMqContext::new(6);
    ctx.insert_meta("x".to_string(), Value::Bool(true));
    let copy = ctx.clone();
    assert_eq!(copy.max_attempts(), 6);
    assert_eq!(copy.meta(), ctx.meta());
}

#[test]
fn injected_value_survives_other_injects() {
    let mut ctx = RedisMqContext::new(1);
    ctx.inject_value("my::Type".to_string(), Ok(Value::from(10))).unwrap();
    ctx.inject_value("other::A".to_string(), Ok(Value::from(1))).unwrap();
    ctx.inject_value("other::B".to_string(), Ok(Value::from(2))).unwrap();
    let _ = ctx.inject_value("other::C".to_string(), Err(serde_json::Error::custom("x")));
    assert_eq!(ctx.lookup_meta("my::Type").unwrap(), &Value::from(10));
}
