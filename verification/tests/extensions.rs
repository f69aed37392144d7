//! The context's extension store: keyed side data attached by observers.

use errore::extensions::{ExtVal, Extensions};
use errore::hash::fnv1a_hash_64;

fn key_i32() -> u64 {
    fnv1a_hash_64(b"i32")
}

fn key_my_type() -> u64 {
    fnv1a_hash_64(b"MyType")
}

fn key_bool() -> u64 {
    fnv1a_hash_64(b"bool")
}

#[test]
fn test_extensions() {
    let mut extensions = Extensions::new();

    extensions.insert(key_i32(), ExtVal::Int(5));
    extensions.insert(key_my_type(), ExtVal::Int(10));

    assert!(matches!(extensions.get(key_i32()), Some(ExtVal::Int(5))));
    assert!(matches!(extensions.get_mut(key_i32()), Some(ExtVal::Int(5))));
    assert!(matches!(
        extensions.replace(key_i32(), ExtVal::Int(5)),
        Some(ExtVal::Int(5))
    ));

    assert!(matches!(extensions.remove(key_i32()), Some(ExtVal::Int(5))));
    assert!(extensions.get(key_i32()).is_none());

    assert!(extensions.get(key_bool()).is_none());
    assert!(matches!(extensions.get(key_my_type()), Some(ExtVal::Int(10))));
}

#[test]
fn replace_overwrites_and_clear_empties() {
    let mut extensions = Extensions::new();

    assert!(extensions.replace(key_bool(), ExtVal::Flag(true)).is_none());
    assert!(matches!(
        extensions.replace(key_bool(), ExtVal::Flag(false)),
        Some(ExtVal::Flag(true))
    ));
    assert!(matches!(extensions.get(key_bool()), Some(ExtVal::Flag(false))));
    assert_eq!(extensions.len(), 1);

    extensions.insert(key_my_type(), ExtVal::Text("noted".to_string()));
    assert_eq!(extensions.len(), 2);

    // Mutation through the handle is visible on the next lookup.
    if let Some(v) = extensions.get_mut(key_my_type()) {
        *v = ExtVal::Int(3);
    }
    assert!(matches!(extensions.get(key_my_type()), Some(ExtVal::Int(3))));

    extensions.clear();
    assert_eq!(extensions.len(), 0);
    assert!(extensions.get(key_bool()).is_none());
    assert!(extensions.get(key_my_type()).is_none());
}
