use love_unlimited::metadata::{MetaValue, Metadata};

#[test]
fn insert_then_get() {
    let mut m = Metadata::new();
    assert_eq!(m.len(), 0);
    m.insert("language".to_string(), MetaValue::Text("rust".to_string()));
    m.insert("prompt_length".to_string(), MetaValue::Number(12));
    assert_eq!(m.len(), 2);
    assert!(matches!(m.get("language"), Some(MetaValue::Text(s)) if s == "rust"));
    assert!(matches!(m.get("prompt_length"), Some(MetaValue::Number(12))));
    assert!(m.get("missing").is_none());
}

#[test]
fn insert_replaces_existing_key() {
    let mut m = Metadata::new();
    m.insert("flag".to_string(), MetaValue::Flag(false));
    m.insert("other".to_string(), MetaValue::Number(1));
    m.insert("flag".to_string(), MetaValue::Flag(true));
    assert_eq!(m.len(), 2);
    assert!(matches!(m.get("flag"), Some(MetaValue::Flag(true))));
    assert!(matches!(m.get("other"), Some(MetaValue::Number(1))));
    let c = m.clone();
    assert_eq!(c.len(), 2);
    assert!(matches!(c.get("flag"), Some(MetaValue::Flag(true))));
}
