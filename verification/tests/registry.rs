use alluka_rust::client::{BasicContext, Client};
use alluka_rust::values::{InjectionError, Value};

#[test]
fn type_dependency_set_get_remove() {
    let mut client = Client::new();
    assert_eq!(client.get_type_dependency(1, None), Value::Undefined);
    assert_eq!(client.get_type_dependency(1, Some(Value::Plain(9))), Value::Plain(9));

    client.set_type_dependency(1, Value::Plain(10));
    assert_eq!(client.get_type_dependency(1, None), Value::Plain(10));
    assert_eq!(client.get_type_dependency(1, Some(Value::Plain(9))), Value::Plain(10));
    assert_eq!(client.get_type_dependency_rust(1), Some(Value::Plain(10)));
    assert_eq!(client.get_type_dependency_rust(2), None);

    assert_eq!(client.remove_type_dependency(1), Ok(()));
    assert_eq!(client.get_type_dependency(1, None), Value::Undefined);
    assert_eq!(client.remove_type_dependency(1), Err(InjectionError::NotFound));
}

#[test]
fn callback_override_set_get_remove() {
    let mut client = Client::new();
    assert_eq!(client.get_callback_override(100), None);

    client.set_callback_override(100, 200);
    assert_eq!(client.get_callback_override(100), Some(200));

    client.set_callback_override(100, 300);
    assert_eq!(client.get_callback_override(100), Some(300));

    assert_eq!(client.remove_callback_override(100), Ok(()));
    assert_eq!(client.get_callback_override(100), None);
    assert_eq!(client.remove_callback_override(100), Err(InjectionError::NotFound));
}

#[test]
fn context_overrides_shadow_client() {
    let mut client = Client::new();
    let mut ctx = BasicContext::new();
    client.set_type_dependency(5, Value::Plain(50));

    assert_eq!(ctx.get_type_dependency(&client, 5, None), Value::Plain(50));

    ctx.set_type_override(5, Value::Plain(55));
    assert_eq!(ctx.get_type_dependency(&client, 5, None), Value::Plain(55));
    // the client itself is untouched
    assert_eq!(client.get_type_dependency(5, None), Value::Plain(50));

    assert_eq!(ctx.remove_type_override(5), Ok(()));
    assert_eq!(ctx.get_type_dependency(&client, 5, None), Value::Plain(50));
    assert_eq!(ctx.remove_type_override(5), Err(InjectionError::NotFound));
}

#[test]
fn context_query_falls_back_to_default_then_undefined() {
    let client = Client::new();
    let ctx = BasicContext::new();
    assert_eq!(ctx.get_type_dependency(&client, 7, None), Value::Undefined);
    assert_eq!(ctx.get_type_dependency(&client, 7, Some(Value::Absent)), Value::Absent);
}

#[test]
fn context_result_cache() {
    let mut ctx = BasicContext::new();
    assert_eq!(ctx.get_cached_result(11, None), Value::Undefined);
    assert_eq!(ctx.get_cached_result(11, Some(Value::Plain(1))), Value::Plain(1));

    ctx.cache_result(11, Value::Plain(77));
    assert_eq!(ctx.get_cached_result(11, None), Value::Plain(77));
    assert_eq!(ctx.get_cached_result(11, Some(Value::Plain(1))), Value::Plain(77));
}
