use dynisland::activity::{ActivityIdentifier, ActivityMap, ActivityMapError};
use dynisland::config_variable::ConfigVariable;

#[test]
fn activity_identifier_parts_and_text() {
    let id = ActivityIdentifier::new("music-module", "music-activity");
    assert_eq!(id.module(), "music-module");
    assert_eq!(id.activity(), "music-activity");
    assert_eq!(id.to_string(), "music-activity@music-module");
}

#[test]
fn registry_insert_then_get() {
    let mut map: ActivityMap<u32> = ActivityMap::new();
    assert_eq!(map.get_activity("a"), Err(ActivityMapError::NotFound("a".to_string())));
    assert_eq!(map.insert_activity("a".to_string(), 1), Ok(()));
    assert_eq!(map.insert_activity("b".to_string(), 2), Ok(()));
    assert_eq!(map.get_activity("a"), Ok(&1));
    assert_eq!(map.get_activity("b"), Ok(&2));
    assert!(map.contains("a"));
    assert!(!map.contains("c"));
}

#[test]
fn registry_refuses_a_second_registration() {
    let mut map: ActivityMap<u32> = ActivityMap::new();
    map.insert_activity("a".to_string(), 1).unwrap();
    assert_eq!(
        map.insert_activity("a".to_string(), 9),
        Err(ActivityMapError::AlreadyRegistered("a".to_string()))
    );
    assert_eq!(map.get_activity("a"), Ok(&1));
}

#[test]
fn registry_remove() {
    let mut map: ActivityMap<u32> = ActivityMap::new();
    map.insert_activity("a".to_string(), 1).unwrap();
    map.insert_activity("b".to_string(), 2).unwrap();
    assert_eq!(map.remove("a"), Some(1));
    assert_eq!(map.remove("a"), None);
    assert!(map.get_activity("a").is_err());
    assert_eq!(map.get_activity("b"), Ok(&2));
    // the name is free again
    assert_eq!(map.insert_activity("a".to_string(), 3), Ok(()));
}

#[test]
fn registry_get_mut_replaces() {
    let mut map: ActivityMap<Vec<u32>> = ActivityMap::new();
    map.insert_activity("a".to_string(), vec![]).unwrap();
    map.get_activity_mut("a").unwrap().push(4);
    assert_eq!(map.get_activity("a"), Ok(&vec![4]));
    assert_eq!(map.get_activity_mut("z"), Err(ActivityMapError::NotFound("z".to_string())));
}

#[test]
fn registry_targets() {
    let mut map: ActivityMap<u32> = ActivityMap::new();
    map.insert_activity("a".to_string(), 1).unwrap();
    map.insert_activity("b".to_string(), 2).unwrap();
    assert_eq!(map.targets("*"), Ok(vec![&1, &2]));
    assert_eq!(map.targets("b"), Ok(vec![&2]));
    assert_eq!(map.targets("c"), Err(ActivityMapError::NotFound("c".to_string())));
}

#[test]
fn config_variable_module_setting_sticks() {
    let mut c = ConfigVariable::new(5);
    assert!(!c.is_set_by_module());
    c.set(6, false);
    assert_eq!(*c.get(), 6);
    c.set(7, true);
    assert!(c.is_set_by_module());
    c.set(8, false);
    assert_eq!(*c.get(), 7);
    c.set(9, true);
    assert_eq!(*c.get(), 9);
}
