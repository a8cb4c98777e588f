use inference_runtime::json::{copy_of, merge_json, JsonValue, Member};

fn num(n: &str) -> JsonValue {
    JsonValue::Number(n.to_string())
}

fn text(s: &str) -> JsonValue {
    JsonValue::Text(s.to_string())
}

fn obj(members: Vec<(&str, JsonValue)>) -> JsonValue {
    JsonValue::Object(
        members.into_iter().map(|(k, v)| Member { key: k.to_string(), value: v }).collect(),
    )
}

fn show(v: &JsonValue) -> String {
    match v {
        JsonValue::Null => "null".to_string(),
        JsonValue::Bool(b) => b.to_string(),
        JsonValue::Number(n) => n.clone(),
        JsonValue::Text(t) => format!("{:?}", t),
        JsonValue::Array(items) => {
            let parts: Vec<String> = items.iter().map(show).collect();
            format!("[{}]", parts.join(","))
        }
        JsonValue::Object(members) => {
            let parts: Vec<String> =
                members.iter().map(|m| format!("{:?}:{}", m.key, show(&m.value))).collect();
            format!("{{{}}}", parts.join(","))
        }
    }
}

fn to_serde(v: &JsonValue) -> serde_json::Value {
    serde_json::from_str(&show(v)).unwrap()
}

#[test]
fn objects_merge_member_by_member() {
    let base = obj(vec![
        ("model", text("llama3")),
        ("stream", JsonValue::Bool(false)),
        ("options", obj(vec![("temperature", num("0.8")), ("top_k", num("40"))])),
    ]);
    let over = obj(vec![
        ("options", obj(vec![("top_k", num("10")), ("seed", num("7"))])),
        ("keep_alive", text("5m")),
        ("stream", JsonValue::Bool(true)),
    ]);
    let merged = merge_json(base, &over);
    assert_eq!(
        show(&merged),
        r#"{"model":"llama3","stream":true,"options":{"temperature":0.8,"top_k":10,"seed":7},"keep_alive":"5m"}"#
    );
}

#[test]
fn anything_but_two_objects_is_replaced() {
    assert_eq!(show(&merge_json(num("1"), &text("x"))), "\"x\"");
    assert_eq!(show(&merge_json(obj(vec![("a", num("1"))]), &JsonValue::Null)), "null");
    assert_eq!(show(&merge_json(JsonValue::Null, &obj(vec![("a", num("1"))]))), r#"{"a":1}"#);
    let base = obj(vec![("a", JsonValue::Array(vec![num("1"), num("2")]))]);
    let over = obj(vec![("a", JsonValue::Array(vec![num("3")]))]);
    assert_eq!(show(&merge_json(base, &over)), r#"{"a":[3]}"#);
    let base = obj(vec![("a", obj(vec![("b", num("1"))]))]);
    let over = obj(vec![("a", num("5"))]);
    assert_eq!(show(&merge_json(base, &over)), r#"{"a":5}"#);
    let base = obj(vec![("a", num("5"))]);
    let over = obj(vec![("a", obj(vec![("b", num("1"))]))]);
    assert_eq!(show(&merge_json(base, &over)), r#"{"a":{"b":1}}"#);
}

#[test]
fn merging_an_empty_object_changes_nothing() {
    let base = obj(vec![("a", num("1")), ("b", obj(vec![("c", JsonValue::Null)]))]);
    let merged = merge_json(copy_of(&base), &obj(vec![]));
    assert_eq!(show(&merged), show(&base));
}

#[test]
fn nested_objects_merge_recursively() {
    let base = obj(vec![("a", obj(vec![("b", obj(vec![("c", num("1")), ("d", num("2"))]))]))]);
    let over = obj(vec![("a", obj(vec![("b", obj(vec![("d", num("3")), ("e", num("4"))]))]))]);
    assert_eq!(show(&merge_json(base, &over)), r#"{"a":{"b":{"c":1,"d":3,"e":4}}}"#);
}

#[test]
fn repeated_key_in_the_override_is_merged_twice() {
    let base = obj(vec![("a", num("1"))]);
    let over = obj(vec![("b", num("2")), ("b", num("3")), ("a", num("4"))]);
    assert_eq!(show(&merge_json(base, &over)), r#"{"a":4,"b":3}"#);
}

#[test]
fn copy_is_equal_to_its_source() {
    let v = obj(vec![
        ("a", JsonValue::Array(vec![num("1"), text("x"), JsonValue::Null, JsonValue::Bool(true)])),
        ("b", obj(vec![("c", obj(vec![]))])),
    ]);
    assert_eq!(show(&copy_of(&v)), show(&v));
}

#[test]
fn merge_agrees_with_a_merge_of_sorted_maps() {
    fn reference(a: &mut serde_json::Value, b: &serde_json::Value) {
        match (a, b) {
            (serde_json::Value::Object(x), serde_json::Value::Object(y)) => {
                for (k, v) in y {
                    match x.get_mut(k) {
                        Some(entry) => reference(entry, v),
                        None => {
                            x.insert(k.clone(), v.clone());
                        }
                    }
                }
            }
            (a, b) => *a = b.clone(),
        }
    }
    let base = obj(vec![
        ("model", text("m")),
        ("options", obj(vec![("temperature", num("0.8")), ("num_predict", num("-1"))])),
    ]);
    let over = obj(vec![
        ("options", obj(vec![("num_predict", num("128")), ("stop", JsonValue::Array(vec![text("x")]))])),
        ("format", text("json")),
    ]);
    let mut expected = to_serde(&base);
    reference(&mut expected, &to_serde(&over));
    assert_eq!(to_serde(&merge_json(base, &over)), expected);
}

fn keys_are_distinct(v: &JsonValue) -> bool {
    match v {
        JsonValue::Array(items) => items.iter().all(keys_are_distinct),
        JsonValue::Object(members) => {
            let mut keys: Vec<&str> = members.iter().map(|m| m.key.as_str()).collect();
            keys.sort();
            keys.windows(2).all(|w| w[0] != w[1])
                && members.iter().all(|m| keys_are_distinct(&m.value))
        }
        _ => true,
    }
}

#[test]
fn merge_of_values_without_repeated_keys_has_none() {
    let base = obj(vec![
        ("a", num("1")),
        ("b", obj(vec![("c", num("2")), ("d", obj(vec![("e", num("3"))]))])),
    ]);
    let over = obj(vec![
        ("b", obj(vec![("d", obj(vec![("e", num("4")), ("f", num("5"))])), ("g", num("6"))])),
        ("a", JsonValue::Array(vec![obj(vec![("x", num("1")), ("y", num("2"))])])),
        ("h", num("7")),
    ]);
    assert!(keys_are_distinct(&base) && keys_are_distinct(&over));
    let merged = merge_json(base, &over);
    assert!(keys_are_distinct(&merged));
    assert_eq!(
        show(&merged),
        r#"{"a":[{"x":1,"y":2}],"b":{"c":2,"d":{"e":4,"f":5},"g":6},"h":7}"#
    );
}
