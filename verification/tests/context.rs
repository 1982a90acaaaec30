use publish::{Context, Error, Value};

#[test]
fn test_context_set_and_get() {
    let mut context = Context::default();
    assert!(context.is_empty());

    context.set("name", Value::Text("artifact".to_string()));
    context.set("count", Value::Integer(4));
    context.set("ready", Value::Boolean(false));
    context.set("nothing", Value::Null);

    assert_eq!(context.len(), 4);
    assert_eq!(context.get("name").unwrap(), &Value::Text("artifact".to_string()));
    assert_eq!(context.get("count").unwrap(), &Value::Integer(4));
    assert_eq!(context.get("ready").unwrap(), &Value::Boolean(false));
    assert_eq!(context.get("nothing").unwrap(), &Value::Null);
    assert!(context.get("absent").is_none());
}

#[test]
fn test_context_set_replaces() {
    let mut context = Context::default();
    context.set("key", Value::Integer(1));
    context.set("key", Value::Integer(2));

    assert_eq!(context.len(), 1);
    assert_eq!(context.get("key").unwrap(), &Value::Integer(2));
}

#[test]
fn test_context_new_later_entries_win() {
    let context = Context::new(vec![
        ("a".to_string(), Value::Integer(1)),
        ("b".to_string(), Value::Integer(2)),
        ("a".to_string(), Value::Integer(3)),
    ]);

    assert_eq!(context.len(), 2);
    assert_eq!(context.get("a").unwrap(), &Value::Integer(3));
    assert_eq!(context.get("b").unwrap(), &Value::Integer(2));
}

#[test]
fn test_context_entries_keep_insertion_order() {
    let mut context = Context::default();
    context.set("first", Value::Integer(1));
    context.set("second", Value::Integer(2));

    let entries = context.entries();
    assert_eq!(entries.len(), 2);
    assert_eq!(entries[0].0, "first");
    assert_eq!(entries[1].0, "second");
}

#[test]
fn test_context_clone_is_independent() {
    let mut context = Context::default();
    context.set("key", Value::Integer(1));
    let mut copy = context.clone();
    copy.set("key", Value::Integer(9));

    assert_eq!(context.get("key").unwrap(), &Value::Integer(1));
    assert_eq!(copy.get("key").unwrap(), &Value::Integer(9));
}

#[test]
fn test_error_constructors() {
    let publish_err = Error::new_publish("stage failed", None);
    assert!(matches!(publish_err, Error::Publish { .. }));

    let original = Error::new_runtime("low level");
    let rollback_err = Error::new_rollback("undo failed", Box::new(original), None);
    match rollback_err {
        Error::Rollback { message, source, rollback_err } => {
            assert_eq!(message, "undo failed");
            assert!(matches!(*source, Error::Runtime(_)));
            assert!(rollback_err.is_none());
        }
        other => panic!("unexpected error {:?}", other),
    }

    assert!(matches!(Error::new_runtime("oops"), Error::Runtime(_)));

    let io = std::io::Error::new(std::io::ErrorKind::Other, "disk on fire");
    assert!(matches!(Error::new_io(io), Error::IO(_)));
}
