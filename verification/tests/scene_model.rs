use engine_core::attribute::{Attribute, AttributeType, AttributeValue};
use engine_core::entity::{Entity, ResourceKind};
use engine_core::error::{LoadError, SceneError};
use engine_core::handle::Handle;
use engine_core::predefined::{find_template, is_predefined, predefined_entities};
use engine_core::scene::Scene;
use engine_core::scene_manager::SceneManager;

fn names(list: &[engine_core::listing::ListEntry]) -> Vec<String> {
    list.iter().map(|e| e.name.clone()).collect()
}

#[test]
fn handle_round_trips_its_number() {
    let h = Handle::from_raw(42);
    assert_eq!(h.to_raw(), 42);
    assert_eq!(h, Handle { raw: 42 });
    assert_ne!(h, Handle::from_raw(43));
}

#[test]
fn attribute_new_checks_the_shape() {
    let a = Attribute::new("health", AttributeType::Int, AttributeValue::Int(100)).unwrap();
    assert_eq!(a.name(), "health");
    assert_eq!(a.value_type(), AttributeType::Int);
    assert_eq!(a.value(), &AttributeValue::Int(100));
    let bad = Attribute::new("health", AttributeType::Int, AttributeValue::Bool(true));
    assert_eq!(bad, Err(SceneError::TypeMismatch));
}

#[test]
fn attribute_of_takes_the_shape_of_its_value() {
    let a = Attribute::of("label", AttributeValue::String("hi".to_string()));
    assert_eq!(a.value_type(), AttributeType::String);
    assert_eq!(AttributeValue::Float(7).kind(), AttributeType::Float);
    assert_eq!(AttributeValue::Bool(false).kind(), AttributeType::Bool);
}

#[test]
fn attribute_set_value_refuses_another_shape() {
    let mut a = Attribute::of("health", AttributeValue::Int(100));
    assert_eq!(a.set_value(AttributeValue::Int(90)), Ok(()));
    assert_eq!(a.value(), &AttributeValue::Int(90));
    assert_eq!(a.set_value(AttributeValue::Float(0)), Err(SceneError::TypeMismatch));
    assert_eq!(a.value(), &AttributeValue::Int(90));
}

#[test]
fn attribute_clone_is_equal() {
    let a = Attribute::of("label", AttributeValue::String("hi".to_string()));
    assert_eq!(a.clone(), a);
}

#[test]
fn create_attribute_reports_duplicates_before_mismatches() {
    let mut e = Entity::new(Handle::from_raw(0), "Player");
    assert_eq!(e.create_attribute("health", AttributeType::Int, AttributeValue::Int(100)), Ok(()));
    assert_eq!(
        e.create_attribute("health", AttributeType::Int, AttributeValue::Int(5)),
        Err(SceneError::DuplicateAttribute)
    );
    assert_eq!(
        e.create_attribute("health", AttributeType::Int, AttributeValue::Bool(true)),
        Err(SceneError::DuplicateAttribute)
    );
    assert_eq!(
        e.create_attribute("speed", AttributeType::Float, AttributeValue::Int(5)),
        Err(SceneError::TypeMismatch)
    );
    assert_eq!(e.attributes().len(), 1);
    assert_eq!(e.get_attribute("health").unwrap().value(), &AttributeValue::Int(100));
    assert!(e.get_attribute("speed").is_none());
}

#[test]
fn set_attribute_reports_not_found_and_mismatch() {
    let mut e = Entity::new(Handle::from_raw(0), "Player");
    e.create_attribute("health", AttributeType::Int, AttributeValue::Int(100)).unwrap();
    e.create_attribute("alive", AttributeType::Bool, AttributeValue::Bool(true)).unwrap();
    assert_eq!(e.set_attribute("mana", AttributeValue::Int(1)), Err(SceneError::NotFound));
    assert_eq!(e.set_attribute("health", AttributeValue::Bool(true)), Err(SceneError::TypeMismatch));
    assert_eq!(e.set_attribute("health", AttributeValue::Int(50)), Ok(()));
    assert_eq!(e.get_attribute("health").unwrap().value(), &AttributeValue::Int(50));
    assert_eq!(e.get_attribute("alive").unwrap().value(), &AttributeValue::Bool(true));
    let order: Vec<&str> = e.attributes().iter().map(|a| a.name().as_str()).collect();
    assert_eq!(order, vec!["health", "alive"]);
}

#[test]
fn delete_attribute_says_whether_it_was_there() {
    let mut e = Entity::new(Handle::from_raw(0), "Player");
    e.create_attribute("a", AttributeType::Int, AttributeValue::Int(1)).unwrap();
    e.create_attribute("b", AttributeType::Int, AttributeValue::Int(2)).unwrap();
    e.create_attribute("c", AttributeType::Int, AttributeValue::Int(3)).unwrap();
    assert!(e.delete_attribute("b"));
    assert!(!e.delete_attribute("b"));
    let order: Vec<&str> = e.attributes().iter().map(|a| a.name().as_str()).collect();
    assert_eq!(order, vec!["a", "c"]);
}

#[test]
fn attaching_a_path_twice_keeps_one_entry() {
    let mut e = Entity::new(Handle::from_raw(0), "Player");
    assert!(!e.has_resources());
    assert!(e.attach_resource(ResourceKind::Image, "assets/images/hero.png"));
    assert!(!e.attach_resource(ResourceKind::Image, "assets/images/hero.png"));
    assert_eq!(e.images(), &vec!["assets/images/hero.png".to_string()]);
    assert!(e.sounds().is_empty());
    assert!(e.attach_resource(ResourceKind::Sound, "assets/images/hero.png"));
    assert_eq!(e.resources(ResourceKind::Sound).len(), 1);
    assert!(e.has_resources());
}

#[test]
fn detach_resource_checks_the_index() {
    let mut e = Entity::new(Handle::from_raw(0), "Player");
    e.attach_resource(ResourceKind::Image, "a.png");
    e.attach_resource(ResourceKind::Image, "b.png");
    assert_eq!(e.detach_resource(ResourceKind::Image, 2), Err(SceneError::IndexOutOfRange));
    assert_eq!(e.detach_resource(ResourceKind::Sound, 0), Err(SceneError::IndexOutOfRange));
    assert_eq!(e.images().len(), 2);
    assert_eq!(e.detach_resource(ResourceKind::Image, 0), Ok(()));
    assert_eq!(e.images(), &vec!["b.png".to_string()]);
}

#[test]
fn detach_many_removes_the_listed_places() {
    let mut e = Entity::new(Handle::from_raw(0), "Player");
    for p in ["a", "b", "c", "d", "e"] {
        e.attach_resource(ResourceKind::Sound, p);
    }
    assert_eq!(e.detach_many(ResourceKind::Sound, &vec![1, 3]), Ok(()));
    assert_eq!(e.sounds(), &vec!["a".to_string(), "c".to_string(), "e".to_string()]);
    assert_eq!(e.detach_many(ResourceKind::Sound, &vec![]), Ok(()));
    assert_eq!(e.sounds().len(), 3);
}

#[test]
fn detach_many_refuses_bad_places_and_removes_nothing() {
    let mut e = Entity::new(Handle::from_raw(0), "Player");
    for p in ["a", "b", "c"] {
        e.attach_resource(ResourceKind::Image, p);
    }
    assert_eq!(e.detach_many(ResourceKind::Image, &vec![0, 3]), Err(SceneError::IndexOutOfRange));
    assert_eq!(e.detach_many(ResourceKind::Image, &vec![2, 1]), Err(SceneError::IndexOutOfRange));
    assert_eq!(e.detach_many(ResourceKind::Image, &vec![1, 1]), Err(SceneError::IndexOutOfRange));
    assert_eq!(e.images().len(), 3);
}

#[test]
fn rename_takes_any_name() {
    let mut e = Entity::new(Handle::from_raw(3), "Player");
    e.rename("");
    assert_eq!(e.name(), "");
    assert_eq!(e.id(), Handle::from_raw(3));
    e.rename("Hero");
    assert_eq!(e.name(), "Hero");
}

#[test]
fn entity_clone_is_deep_and_equal() {
    let mut e = Entity::new(Handle::from_raw(3), "Player");
    e.create_attribute("health", AttributeType::Int, AttributeValue::Int(100)).unwrap();
    e.attach_resource(ResourceKind::Image, "a.png");
    let copy = e.clone();
    assert_eq!(copy, e);
    e.set_attribute("health", AttributeValue::Int(1)).unwrap();
    assert_eq!(copy.get_attribute("health").unwrap().value(), &AttributeValue::Int(100));
}

#[test]
fn restored_entity_equals_what_was_stored() {
    let mut e = Entity::new(Handle::from_raw(9), "Player");
    e.create_attribute("health", AttributeType::Int, AttributeValue::Int(100)).unwrap();
    e.create_attribute("name", AttributeType::String, AttributeValue::String("x".into())).unwrap();
    e.attach_resource(ResourceKind::Image, "a.png");
    e.attach_resource(ResourceKind::Sound, "a.ogg");
    e.attach_resource(ResourceKind::Sound, "b.ogg");
    let back = Entity::restore(e.id(), e.name(), e.attributes(), e.images(), e.sounds());
    assert_eq!(back, e);
}

#[test]
fn restore_passes_over_doubles() {
    let attrs = vec![
        Attribute::of("a", AttributeValue::Int(1)),
        Attribute::of("a", AttributeValue::Int(2)),
    ];
    let images = vec!["x".to_string(), "x".to_string(), "y".to_string()];
    let e = Entity::restore(Handle::from_raw(0), "E", &attrs, &images, &vec![]);
    assert_eq!(e.attributes().len(), 1);
    assert_eq!(e.get_attribute("a").unwrap().value(), &AttributeValue::Int(1));
    assert_eq!(e.images(), &vec!["x".to_string(), "y".to_string()]);
}

#[test]
fn create_entity_issues_handles_that_are_never_reused() {
    let mut s = Scene::new(Handle::from_raw(0), "Level1");
    let a = s.create_entity("A").unwrap();
    let b = s.create_entity("B").unwrap();
    assert_ne!(a, b);
    assert!(s.delete_entity(b));
    let c = s.create_entity("C").unwrap();
    assert_ne!(c, a);
    assert_ne!(c, b);
    assert_eq!(s.entity_count(), 2);
    assert_eq!(s.next_entity(), 3);
}

#[test]
fn create_entity_refuses_blank_names() {
    let mut s = Scene::new(Handle::from_raw(0), "Level1");
    assert_eq!(s.create_entity(""), Err(SceneError::InvalidName));
    assert_eq!(s.create_entity("  \t\n"), Err(SceneError::InvalidName));
    assert_eq!(s.entity_count(), 0);
    assert_eq!(s.next_entity(), 0);
    let h = s.create_entity(" Player ").unwrap();
    assert_eq!(s.get_entity(h).unwrap().name(), " Player ");
}

#[test]
fn get_entity_reports_not_found() {
    let mut s = Scene::new(Handle::from_raw(0), "Level1");
    let h = s.create_entity("Player").unwrap();
    assert!(s.contains_entity(h));
    assert_eq!(s.get_entity(Handle::from_raw(77)).err(), Some(SceneError::NotFound));
    assert_eq!(s.get_entity_mut(Handle::from_raw(77)).err(), Some(SceneError::NotFound));
    s.get_entity_mut(h).unwrap().rename("Hero");
    assert_eq!(s.get_entity(h).unwrap().name(), "Hero");
}

#[test]
fn delete_entity_is_idempotent() {
    let mut s = Scene::new(Handle::from_raw(0), "Level1");
    let h = s.create_entity("Player").unwrap();
    assert!(s.delete_entity(h));
    assert!(!s.delete_entity(h));
    assert!(!s.contains_entity(h));
    assert_eq!(s.get_entity(h).err(), Some(SceneError::NotFound));
}

#[test]
fn create_camera_populates_the_transform() {
    let mut s = Scene::new(Handle::from_raw(0), "Level1");
    let h = s.create_camera("Main").unwrap();
    let e = s.get_entity(h).unwrap();
    let names: Vec<&str> = e.attributes().iter().map(|a| a.name().as_str()).collect();
    assert_eq!(
        names,
        vec![
            "transform_position_x",
            "transform_position_y",
            "transform_position_z",
            "transform_rotation_x",
            "transform_rotation_y",
            "transform_rotation_z",
            "transform_scale_x",
            "transform_scale_y",
            "transform_scale_z",
        ]
    );
    assert_eq!(
        e.get_attribute("transform_position_x").unwrap().value(),
        &AttributeValue::Float(0.0f32.to_bits())
    );
    assert_eq!(
        e.get_attribute("transform_scale_y").unwrap().value(),
        &AttributeValue::Float(1.0f32.to_bits())
    );
    assert_eq!(s.create_camera("  "), Err(SceneError::InvalidName));
}

#[test]
fn create_predefined_refuses_unknown_kinds() {
    let mut s = Scene::new(Handle::from_raw(0), "Level1");
    assert_eq!(s.create_predefined("Spaceship", "X"), Err(SceneError::NotFound));
    assert_eq!(s.create_predefined("Spaceship", ""), Err(SceneError::InvalidName));
    assert_eq!(s.entity_count(), 0);
    assert!(is_predefined("Camera"));
    assert!(!is_predefined("camera"));
    assert!(find_template("Camera").is_some());
    assert_eq!(predefined_entities().len(), 1);
    assert_eq!(predefined_entities()[0].name, "Camera");
}

#[test]
fn list_entities_sorts_by_name_without_case() {
    let mut s = Scene::new(Handle::from_raw(0), "Level1");
    for n in ["delta", "Alpha", "charlie", "Bravo", "alpha"] {
        s.create_entity(n).unwrap();
    }
    let list = s.list_entities();
    assert_eq!(names(&list), vec!["Alpha", "alpha", "Bravo", "charlie", "delta"]);
    assert_eq!(list[0].id, Handle::from_raw(1));
    assert_eq!(list[1].id, Handle::from_raw(4));
}

#[test]
fn scene_rename_and_clone() {
    let mut s = Scene::new(Handle::from_raw(5), "Level1");
    s.create_entity("Player").unwrap();
    let copy = s.clone();
    s.rename("Level2");
    assert_eq!(s.name(), "Level2");
    assert_eq!(s.id(), Handle::from_raw(5));
    assert_eq!(copy.name(), "Level1");
    assert_eq!(copy.entity_count(), 1);
}

#[test]
fn scene_restore_round_trips() {
    let mut s = Scene::new(Handle::from_raw(5), "Level1");
    s.create_entity("A").unwrap();
    let b = s.create_entity("B").unwrap();
    s.create_entity("C").unwrap();
    s.delete_entity(b);
    let back = Scene::restore(s.id(), s.name(), s.entities().clone(), s.next_entity()).unwrap();
    assert_eq!(back, s);
}

#[test]
fn scene_restore_refuses_broken_content() {
    let e0 = Entity::new(Handle::from_raw(0), "A");
    let e0b = Entity::new(Handle::from_raw(0), "B");
    let e5 = Entity::new(Handle::from_raw(5), "C");
    let id = Handle::from_raw(1);
    assert_eq!(
        Scene::restore(id, "S", vec![e0.clone(), e0b], 9).err(),
        Some(LoadError::DuplicateHandle)
    );
    assert_eq!(
        Scene::restore(id, "S", vec![e0.clone(), e5.clone()], 5).err(),
        Some(LoadError::UnissuedHandle)
    );
    assert!(Scene::restore(id, "S", vec![e0, e5], 6).is_ok());
}

#[test]
fn create_scene_issues_handles_that_are_never_reused() {
    let mut m = SceneManager::new();
    let a = m.create_scene("A").unwrap();
    let b = m.create_scene("B").unwrap();
    assert_ne!(a, b);
    assert!(m.delete_scene(a));
    assert!(m.delete_scene(b));
    let c = m.create_scene("C").unwrap();
    assert_ne!(c, a);
    assert_ne!(c, b);
    assert_eq!(m.scene_count(), 1);
    assert_eq!(m.next_scene(), 3);
}

#[test]
fn create_scene_refuses_blank_names() {
    let mut m = SceneManager::new();
    assert_eq!(m.create_scene(""), Err(SceneError::InvalidName));
    assert_eq!(m.create_scene(" \u{2003} "), Err(SceneError::InvalidName));
    assert_eq!(m.scene_count(), 0);
}

#[test]
fn deleting_the_active_scene_clears_it() {
    let mut m = SceneManager::new();
    let a = m.create_scene("A").unwrap();
    let b = m.create_scene("B").unwrap();
    assert_eq!(m.set_active(a), Ok(()));
    assert_eq!(m.active_scene(), Some(a));
    assert_eq!(m.get_active_scene().unwrap().name(), "A");
    assert!(m.delete_scene(a));
    assert_eq!(m.active_scene(), None);
    assert!(m.get_active_scene().is_none());
    assert!(m.contains_scene(b));
}

#[test]
fn deleting_another_scene_keeps_the_active_one() {
    let mut m = SceneManager::new();
    let a = m.create_scene("A").unwrap();
    let b = m.create_scene("B").unwrap();
    m.set_active(a).unwrap();
    assert!(m.delete_scene(b));
    assert!(!m.delete_scene(b));
    assert_eq!(m.active_scene(), Some(a));
}

#[test]
fn set_active_and_lookups_report_not_found() {
    let mut m = SceneManager::new();
    let a = m.create_scene("A").unwrap();
    let ghost = Handle::from_raw(99);
    assert_eq!(m.set_active(ghost), Err(SceneError::NotFound));
    assert_eq!(m.active_scene(), None);
    m.set_active(a).unwrap();
    assert_eq!(m.set_active(ghost), Err(SceneError::NotFound));
    assert_eq!(m.active_scene(), Some(a));
    assert_eq!(m.get_scene(ghost).err(), Some(SceneError::NotFound));
    assert_eq!(m.get_scene_mut(ghost).err(), Some(SceneError::NotFound));
    m.get_scene_mut(a).unwrap().rename("Z");
    assert_eq!(m.get_scene(a).unwrap().name(), "Z");
}

#[test]
fn list_scene_sorts_by_name_without_case() {
    let mut m = SceneManager::new();
    for n in ["menu", "Level2", "level1", "Boss"] {
        m.create_scene(n).unwrap();
    }
    assert_eq!(names(&m.list_scene()), vec!["Boss", "level1", "Level2", "menu"]);
}

#[test]
fn manager_clone_is_a_value_of_its_own() {
    let mut m = SceneManager::new();
    let a = m.create_scene("A").unwrap();
    let e = m.get_scene_mut(a).unwrap().create_entity("Player").unwrap();
    let copy = m.clone();
    assert_eq!(copy, m);
    m.get_scene_mut(a).unwrap().get_entity_mut(e).unwrap().rename("Changed");
    m.delete_scene(a);
    assert_eq!(copy.get_scene(a).unwrap().get_entity(e).unwrap().name(), "Player");
}

#[test]
fn manager_restore_round_trips() {
    let mut m = SceneManager::new();
    let a = m.create_scene("A").unwrap();
    let b = m.create_scene("B").unwrap();
    m.create_scene("C").unwrap();
    {
        let s = m.get_scene_mut(b).unwrap();
        let e = s.create_entity("Player").unwrap();
        let e = s.get_entity_mut(e).unwrap();
        e.create_attribute("health", AttributeType::Int, AttributeValue::Int(100)).unwrap();
        e.attach_resource(ResourceKind::Image, "hero.png");
    }
    m.delete_scene(a);
    m.set_active(b).unwrap();
    let back = SceneManager::restore(m.scenes().clone(), m.active_scene(), m.next_scene()).unwrap();
    assert_eq!(back, m);
}

#[test]
fn manager_restore_refuses_broken_content() {
    let s0 = Scene::new(Handle::from_raw(0), "A");
    let s1 = Scene::new(Handle::from_raw(1), "B");
    assert_eq!(
        SceneManager::restore(vec![s0.clone(), s0.clone()], None, 5).err(),
        Some(LoadError::DuplicateHandle)
    );
    assert_eq!(
        SceneManager::restore(vec![s0.clone(), s1.clone()], None, 1).err(),
        Some(LoadError::UnissuedHandle)
    );
    assert_eq!(
        SceneManager::restore(vec![s0.clone(), s1.clone()], Some(Handle::from_raw(4)), 5).err(),
        Some(LoadError::MissingActiveScene)
    );
    let m = SceneManager::restore(vec![s0, s1], Some(Handle::from_raw(1)), 2).unwrap();
    assert_eq!(m.active_scene(), Some(Handle::from_raw(1)));
}

#[test]
fn errors_have_messages_and_classes() {
    assert!(SceneError::InvalidName.is_validation());
    assert!(SceneError::DuplicateAttribute.is_validation());
    assert!(SceneError::TypeMismatch.is_validation());
    assert!(!SceneError::NotFound.is_validation());
    assert!(!SceneError::IndexOutOfRange.is_validation());
    assert_eq!(SceneError::NotFound.message(), "not found");
    assert_eq!(SceneError::InvalidName.message(), "name must not be empty");
    assert_eq!(LoadError::DuplicateHandle.message(), "two items share a handle");
    assert_eq!(LoadError::UnissuedHandle.message(), "a handle was never issued");
    assert_eq!(LoadError::MissingActiveScene.message(), "the active scene is missing");
}
