use opentelemetry::sdk::Resource;
use opentelemetry::{Key, KeyValue, Value};
use otlp_metrics::resources::ResourceMap;

fn map_of(pairs: &[(&str, &str)]) -> ResourceMap {
    let mut map = ResourceMap::new();
    for (key, value) in pairs {
        map.insert(key.to_string(), value.to_string());
    }
    map
}

#[test]
fn new_map_is_empty() {
    let map = ResourceMap::new();
    assert_eq!(map.len(), 0);
    assert!(map.entries().is_empty());
    assert_eq!(map.get(&"env".to_string()), None);
}

#[test]
fn insert_enters_a_new_key() {
    let map = map_of(&[("env", "prod"), ("service.name", "router")]);
    assert_eq!(map.len(), 2);
    assert_eq!(map.get(&"env".to_string()), Some(&"prod".to_string()));
    assert_eq!(map.get(&"service.name".to_string()), Some(&"router".to_string()));
    assert_eq!(map.get(&"zone".to_string()), None);
}

#[test]
fn insert_replaces_the_value_of_a_key() {
    let map = map_of(&[("env", "prod"), ("zone", "a"), ("env", "staging")]);
    assert_eq!(map.len(), 2);
    assert_eq!(map.get(&"env".to_string()), Some(&"staging".to_string()));
    assert_eq!(map.get(&"zone".to_string()), Some(&"a".to_string()));
    assert_eq!(
        map.entries(),
        &vec![
            ("env".to_string(), "staging".to_string()),
            ("zone".to_string(), "a".to_string())
        ]
    );
}

#[test]
fn keys_are_told_apart_exactly() {
    let map = map_of(&[("env", "1"), ("Env", "2"), ("env ", "3"), ("", "4")]);
    assert_eq!(map.len(), 4);
    assert_eq!(map.get(&"env".to_string()), Some(&"1".to_string()));
    assert_eq!(map.get(&"Env".to_string()), Some(&"2".to_string()));
    assert_eq!(map.get(&"env ".to_string()), Some(&"3".to_string()));
    assert_eq!(map.get(&"".to_string()), Some(&"4".to_string()));
}

#[test]
fn service_name_becomes_exactly_one_attribute() {
    let resource = map_of(&[("service.name", "x")]).to_resource();
    assert_eq!(resource.len(), 1);
    assert_eq!(resource.get(Key::new("service.name")), Some(Value::from("x")));
    let entries: Vec<(String, String)> = resource
        .iter()
        .map(|(key, value)| (key.as_str().to_string(), value.as_str().into_owned()))
        .collect();
    assert_eq!(entries, vec![("service.name".to_string(), "x".to_string())]);
}

#[test]
fn every_pair_becomes_an_attribute_and_no_other_is_added() {
    let map = map_of(&[("service.name", "x"), ("env", "prod"), ("empty", ""), ("env", "dev")]);
    let resource = map.to_resource();
    assert_eq!(resource.len(), 3);
    assert_eq!(resource.len(), map.len());
    for (key, value) in map.entries() {
        assert_eq!(resource.get(Key::new(key.clone())), Some(Value::from(value.clone())));
    }
    for (key, value) in resource.iter() {
        assert_eq!(map.get(&key.as_str().to_string()), Some(&value.as_str().into_owned()));
    }
    assert_eq!(resource.get(Key::new("env")), Some(Value::from("dev")));
    assert_eq!(resource.get(Key::new("empty")), Some(Value::from("")));
    assert_eq!(resource.schema_url(), None);
}

#[test]
fn empty_map_becomes_the_empty_resource() {
    let resource = ResourceMap::new().to_resource();
    assert!(resource.is_empty());
    assert_eq!(resource, Resource::empty());
}

#[test]
fn resource_equals_the_one_made_of_the_same_pairs() {
    let resource = map_of(&[("a", "1"), ("b", "2")]).to_resource();
    let expected = Resource::new(vec![KeyValue::new("b", "2"), KeyValue::new("a", "1")]);
    assert_eq!(resource, expected);
}
