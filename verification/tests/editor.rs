use engine_core::attribute::AttributeValue;
use engine_core::engine_gui::{
    ConsoleMessageType, ControlButton, EngineGui, ViewportMode, WindowAction, WindowEvent,
};
use engine_core::entity::ResourceKind;
use engine_core::error::SceneError;
use engine_core::game_runtime::{CameraState, FrameStep, InputTarget, RuntimeError, RuntimeState};
use engine_core::gui::gui_state::{GuiState, SaveReason, SelectedItem};
use engine_core::gui::menus::file_menu::{
    ActivePopup, FileAction, FileMenu, FileMenuAction, FileMenuClick, ProjectPopupEvent,
    SaveDecision,
};
use engine_core::gui::scene_hierarchy::entity_item::{EntityClick, EntityItem};
use engine_core::gui::scene_hierarchy::popup::{PopupClick, PopupManager, RenameTarget};
use engine_core::gui::scene_hierarchy::{HierarchyEvent, ItemKind, SceneHierarchy};
use engine_core::text::is_blank_text;
use engine_core::handle::Handle;
use engine_core::project::{LoadedProject, ProjectMetadata};
use engine_core::scene_manager::SceneManager;

fn open_state() -> GuiState {
    let mut g = GuiState::new();
    g.scene_manager = Some(SceneManager::new());
    g.load_project = true;
    g
}

fn frame(gui: &mut EngineGui, event: WindowEvent, subsystems_ready: bool) -> WindowAction {
    gui.show_windows(event, subsystems_ready, (0, 0), 0).action
}

fn manager(g: &GuiState) -> &SceneManager {
    g.scene_manager.as_ref().unwrap()
}

fn loaded(name: &str) -> LoadedProject {
    let mut m = SceneManager::new();
    m.create_scene("Main").unwrap();
    LoadedProject {
        metadata: ProjectMetadata {
            project_name: name.to_string(),
            version: "1.0.0".to_string(),
            project_path: format!("/p/{}", name),
        },
        scene_manager: m,
    }
}

#[test]
fn gui_state_starts_empty() {
    let g = GuiState::new();
    assert!(g.scene_manager.is_none());
    assert_eq!(g.selected_item, SelectedItem::Nothing);
    assert_eq!(g.scene_panel_selected_item, SelectedItem::Nothing);
    assert!(!g.load_project);
    assert!(g.any_panel_visible());
    assert!(g.dark_mode);
}

#[test]
fn any_panel_visible_needs_one_panel() {
    let mut g = GuiState::new();
    g.show_hierarchy_filesystem = false;
    g.show_inspector = false;
    assert!(g.any_panel_visible());
    g.show_console = false;
    assert!(!g.any_panel_visible());
}

#[test]
fn gui_create_scene_picks_the_scene() {
    let mut g = open_state();
    let a = g.create_scene("A").unwrap();
    assert_eq!(g.selected_item, SelectedItem::Scene(a));
    assert_eq!(g.scene_panel_selected_item, SelectedItem::Scene(a));
    assert_eq!(g.create_scene(" "), Err(SceneError::InvalidName));
    assert_eq!(g.selected_item, SelectedItem::Scene(a));
    let mut none = GuiState::new();
    assert_eq!(none.create_scene("A"), Err(SceneError::NotFound));
}

#[test]
fn gui_create_entity_uses_the_table_of_kinds() {
    let mut g = open_state();
    let s = g.create_scene("A").unwrap();
    let plain = g.create_entity(s, "Entity", "Box").unwrap();
    assert_eq!(g.selected_item, SelectedItem::Entity(s, plain));
    let cam = g.create_entity(s, "Camera", "Main").unwrap();
    assert_eq!(g.scene_panel_selected_item, SelectedItem::Entity(s, cam));
    let scene = manager(&g).get_scene(s).unwrap();
    assert_eq!(scene.get_entity(plain).unwrap().attributes().len(), 0);
    assert_eq!(scene.get_entity(cam).unwrap().attributes().len(), 9);
    assert_eq!(g.create_entity(Handle::from_raw(9), "Entity", "X"), Err(SceneError::NotFound));
    assert_eq!(g.create_entity(s, "Entity", ""), Err(SceneError::InvalidName));
}

#[test]
fn deleting_a_picked_scene_clears_the_pick() {
    let mut g = open_state();
    let a = g.create_scene("A").unwrap();
    let b = g.create_scene("B").unwrap();
    g.selected_item = SelectedItem::Scene(a);
    g.scene_panel_selected_item = SelectedItem::Scene(b);
    assert!(g.delete_scene(a));
    assert_eq!(g.selected_item, SelectedItem::Nothing);
    assert_eq!(g.scene_panel_selected_item, SelectedItem::Scene(b));
    assert!(!g.delete_scene(a));
}

#[test]
fn deleting_a_scene_clears_a_pick_of_its_entities() {
    let mut g = open_state();
    let a = g.create_scene("A").unwrap();
    let e = g.create_entity(a, "Entity", "Box").unwrap();
    assert_eq!(g.selected_item, SelectedItem::Entity(a, e));
    assert!(g.delete_scene(a));
    assert_eq!(g.selected_item, SelectedItem::Nothing);
    assert_eq!(g.scene_panel_selected_item, SelectedItem::Nothing);
}

#[test]
fn deleting_a_picked_entity_clears_the_pick() {
    let mut g = open_state();
    let a = g.create_scene("A").unwrap();
    let e1 = g.create_entity(a, "Entity", "One").unwrap();
    let e2 = g.create_entity(a, "Entity", "Two").unwrap();
    g.selected_item = SelectedItem::Entity(a, e1);
    assert!(g.delete_entity(a, e1));
    assert_eq!(g.selected_item, SelectedItem::Nothing);
    assert_eq!(g.scene_panel_selected_item, SelectedItem::Entity(a, e2));
    assert!(!g.delete_entity(a, e1));
    assert!(!g.delete_entity(Handle::from_raw(9), e2));
    assert_eq!(g.scene_panel_selected_item, SelectedItem::Entity(a, e2));
}

#[test]
fn gui_rename_says_whether_the_item_was_there() {
    let mut g = open_state();
    let a = g.create_scene("A").unwrap();
    let e = g.create_entity(a, "Entity", "Box").unwrap();
    assert!(g.rename_scene(a, "Z"));
    assert!(g.rename_entity(a, e, "Crate"));
    assert!(!g.rename_scene(Handle::from_raw(9), "Q"));
    assert!(!g.rename_entity(a, Handle::from_raw(9), "Q"));
    let scene = manager(&g).get_scene(a).unwrap();
    assert_eq!(scene.name(), "Z");
    assert_eq!(scene.get_entity(e).unwrap().name(), "Crate");
}

#[test]
fn selected_item_refers_to_scene() {
    let a = Handle::from_raw(1);
    let b = Handle::from_raw(2);
    assert!(SelectedItem::Scene(a).refers_to_scene(a));
    assert!(SelectedItem::Entity(a, b).refers_to_scene(a));
    assert!(!SelectedItem::Entity(a, b).refers_to_scene(b));
    assert!(!SelectedItem::Nothing.refers_to_scene(a));
}

#[test]
fn popup_manager_starts_closed() {
    let p = PopupManager::new();
    assert_eq!(p.create_item_type, "Scene");
    assert_eq!(p.selected_resource_type, "Images");
    assert!(!p.create_popup_active);
    assert!(p.rename_target().is_none());
    assert_eq!(PopupManager::item_types(), vec!["Scene", "Entity", "Camera", "Physics"]);
}

#[test]
fn rename_popup_prefers_the_scene() {
    let mut p = PopupManager::new();
    let s = Handle::from_raw(1);
    let e = Handle::from_raw(2);
    p.start_rename_entity(s, e, "Box".to_string());
    assert_eq!(p.rename_input, "Box");
    let t = p.rename_target().unwrap();
    assert_eq!(t, RenameTarget { scene: s, entity: Some(e) });
    assert_eq!(t.title(), "Rename Entity");
    p.start_rename_scene(s, "Level".to_string());
    let t = p.rename_target().unwrap();
    assert_eq!(t, RenameTarget { scene: s, entity: None });
    assert_eq!(t.title(), "Rename Scene");
    p.error_message = "x".to_string();
    p.reset_rename_scene();
    assert_eq!(p.scene_rename_scene, None);
    assert_eq!(p.entity_rename_entity, Some((s, e)));
    assert_eq!(p.rename_input, "");
    assert_eq!(p.error_message, "");
    p.reset_rename();
    assert!(p.rename_target().is_none());
}

#[test]
fn rename_item_trims_and_asks_for_a_save() {
    let mut g = open_state();
    let a = g.create_scene("A").unwrap();
    let e = g.create_entity(a, "Entity", "Box").unwrap();
    let mut p = PopupManager::new();
    p.start_rename_entity(a, e, "Box".to_string());
    p.rename_input = "  Crate  ".to_string();
    assert_eq!(p.render_rename_popup(PopupClick::Confirm, &mut g), Some(SaveReason::Renamed));
    assert_eq!(manager(&g).get_scene(a).unwrap().get_entity(e).unwrap().name(), "Crate");
    assert!(p.rename_target().is_none());
    p.start_rename_scene(a, "A".to_string());
    p.rename_input = " Level ".to_string();
    assert_eq!(p.rename_item(a, None, &mut g), Some(SaveReason::Renamed));
    assert_eq!(manager(&g).get_scene(a).unwrap().name(), "Level");
    p.start_rename_scene(a, "Level".to_string());
    assert_eq!(p.render_rename_popup(PopupClick::Cancel, &mut g), None);
    assert!(p.rename_target().is_none());
    assert_eq!(p.render_rename_popup(PopupClick::Confirm, &mut g), None);
    let mut none = GuiState::new();
    p.start_rename_scene(a, "x".to_string());
    assert_eq!(p.rename_item(a, None, &mut none), None);
    assert!(p.rename_target().is_none());
}

#[test]
fn handle_create_makes_a_scene() {
    let mut g = open_state();
    let mut p = PopupManager::new();
    p.create_popup_active = true;
    p.create_item_name = "  Level1 ".to_string();
    assert_eq!(p.handle_create(&mut g), Some(SaveReason::CreatedScene));
    assert!(!p.create_popup_active);
    assert_eq!(p.create_item_name, "");
    assert_eq!(p.error_message, "");
    let list = manager(&g).list_scene();
    assert_eq!(list.len(), 1);
    assert_eq!(list[0].name, "Level1");
    assert_eq!(g.selected_item, SelectedItem::Scene(list[0].id));
}

#[test]
fn handle_create_refuses_blank_names() {
    let mut g = open_state();
    let mut p = PopupManager::new();
    p.create_popup_active = true;
    p.create_item_name = "   ".to_string();
    assert_eq!(p.handle_create(&mut g), None);
    assert_eq!(p.error_message, "Please select an item type and enter a valid name.");
    assert!(p.create_popup_active);
    assert_eq!(p.create_new_scene(&mut g), None);
    assert_eq!(p.error_message, "Scene name cannot be empty.");
    assert_eq!(p.create_new_entity(&mut g, "Empty"), None);
    assert_eq!(p.error_message, "Entity name cannot be empty.");
    assert_eq!(manager(&g).scene_count(), 0);
}

#[test]
fn handle_create_needs_a_scene_manager() {
    let mut g = GuiState::new();
    let mut p = PopupManager::new();
    p.create_item_name = "Level1".to_string();
    assert_eq!(p.handle_create(&mut g), None);
    assert_eq!(p.error_message, "Scene manager is not available.");
    p.select_item_type("Entity");
    assert_eq!(p.handle_create(&mut g), None);
    assert_eq!(p.error_message, "Scene manager is not available.");
}

#[test]
fn handle_create_makes_entities_in_the_picked_scene() {
    let mut g = open_state();
    let a = g.create_scene("A").unwrap();
    let mut p = PopupManager::new();
    p.select_item_type("Camera");
    p.create_item_name = "Main".to_string();
    p.create_popup_active = true;
    assert_eq!(p.render_create_popup(PopupClick::Confirm, &mut g), Some(SaveReason::CreatedEntity));
    let cam = match g.selected_item {
        SelectedItem::Entity(s, e) => {
            assert_eq!(s, a);
            e
        }
        other => panic!("unexpected pick {:?}", other),
    };
    assert_eq!(manager(&g).get_scene(a).unwrap().get_entity(cam).unwrap().attributes().len(), 9);
    assert!(!p.create_popup_active);
    p.select_item_type("Entity");
    p.create_item_name = "Box".to_string();
    assert_eq!(p.handle_create(&mut g), None);
    assert_eq!(p.error_message, "Please select a scene first to add the entity.");
    g.scene_panel_selected_item = SelectedItem::Scene(Handle::from_raw(40));
    assert_eq!(p.handle_create(&mut g), None);
    assert_eq!(p.error_message, "The selected scene could not be found.");
    g.scene_panel_selected_item = SelectedItem::Scene(a);
    p.select_item_type("Physics");
    assert_eq!(p.handle_create(&mut g), Some(SaveReason::CreatedEntity));
    assert_eq!(p.error_message, "");
    assert_eq!(manager(&g).get_scene(a).unwrap().entity_count(), 2);
}

#[test]
fn handle_create_ignores_unknown_types() {
    let mut g = open_state();
    let mut p = PopupManager::new();
    p.select_item_type("Spaceship");
    p.create_item_name = "X".to_string();
    p.create_popup_active = true;
    assert_eq!(p.handle_create(&mut g), None);
    assert!(!p.create_popup_active);
    assert_eq!(manager(&g).scene_count(), 0);
    p.create_popup_active = true;
    p.create_item_name = "X".to_string();
    assert_eq!(p.render_create_popup(PopupClick::Cancel, &mut g), None);
    assert!(!p.create_popup_active);
    assert_eq!(p.create_item_name, "");
}

#[test]
fn render_popups_plans_the_frame() {
    let mut g = open_state();
    let mut p = PopupManager::new();
    let plan = p.render_popups(&g);
    assert!(plan.rename.is_none() && !plan.create && !plan.manage_assets && !plan.resource_selection);
    p.create_popup_active = true;
    p.start_manage_assets(Handle::from_raw(0), Handle::from_raw(0));
    p.resource_selection = Some((Handle::from_raw(0), Handle::from_raw(0)));
    p.start_rename_scene(Handle::from_raw(0), "A".to_string());
    let plan = p.render_popups(&g);
    assert!(plan.rename.is_some() && plan.create && plan.manage_assets && plan.resource_selection);
    g.scene_manager = None;
    let plan = p.render_popups(&g);
    assert!(plan.rename.is_some() && plan.create && !plan.manage_assets && !plan.resource_selection);
}

#[test]
fn resource_folder_follows_the_type() {
    let mut p = PopupManager::new();
    assert_eq!(p.resource_folder(), vec!["assets", "images"]);
    p.selected_resource_type = "Sounds".to_string();
    assert_eq!(p.resource_folder(), vec!["assets", "sounds"]);
    p.selected_resource_type = "Scripts".to_string();
    assert_eq!(p.resource_folder(), vec!["assets", "scripts"]);
    p.selected_resource_type = "Other".to_string();
    assert_eq!(p.resource_folder(), vec!["assets"]);
    p.set_available_resources(vec!["a.png".to_string()]);
    assert_eq!(p.available_resources, vec!["a.png"]);
}

#[test]
fn resource_popup_attaches_once() {
    let mut g = open_state();
    let a = g.create_scene("A").unwrap();
    let e = g.create_entity(a, "Entity", "Box").unwrap();
    let mut m = g.scene_manager.take().unwrap();
    let mut p = PopupManager::new();
    assert!(!p.attach_selected(&mut m, "x.png"));
    p.resource_selection = Some((a, e));
    p.resource_selection_popup_active = true;
    assert!(p.show_resource_selection_popup(&mut m, None, Some("x.png")));
    assert!(!p.show_resource_selection_popup(&mut m, None, Some("x.png")));
    assert!(!p.show_resource_selection_popup(&mut m, None, None));
    p.selected_resource_type = "Sounds".to_string();
    assert!(p.attach_selected(&mut m, "x.ogg"));
    p.selected_resource_type = "Scripts".to_string();
    assert!(!p.attach_selected(&mut m, "x.lua"));
    let entity = m.get_scene(a).unwrap().get_entity(e).unwrap();
    assert_eq!(entity.resources(ResourceKind::Image), &vec!["x.png".to_string()]);
    assert_eq!(entity.resources(ResourceKind::Sound), &vec!["x.ogg".to_string()]);
    assert_eq!(p.resource_selection, Some((a, e)));
    p.resource_selection_popup_active = false;
    p.show_resource_selection_popup(&mut m, None, None);
    assert_eq!(p.resource_selection, None);
}

#[test]
fn manage_assets_popup_removes_resources() {
    let mut g = open_state();
    let a = g.create_scene("A").unwrap();
    let e = g.create_entity(a, "Entity", "Box").unwrap();
    let mut m = g.scene_manager.take().unwrap();
    {
        let entity = m.get_scene_mut(a).unwrap().get_entity_mut(e).unwrap();
        for p in ["a.png", "b.png", "c.png"] {
            entity.attach_resource(ResourceKind::Image, p);
        }
        entity.attach_resource(ResourceKind::Sound, "a.ogg");
    }
    let mut p = PopupManager::new();
    assert!(!p.remove_assets(&mut m, ResourceKind::Image, &vec![0]));
    p.start_manage_assets(a, e);
    assert!(p.manage_assets_popup_active);
    p.show_manage_assets_popup(&mut m, &vec![0, 2], &vec![0]);
    let entity = m.get_scene(a).unwrap().get_entity(e).unwrap();
    assert_eq!(entity.images(), &vec!["b.png".to_string()]);
    assert!(entity.sounds().is_empty());
    assert!(!p.remove_assets(&mut m, ResourceKind::Image, &vec![4]));
    assert_eq!(m.get_scene(a).unwrap().get_entity(e).unwrap().images().len(), 1);
}

#[test]
fn hierarchy_starts_empty_and_defaults_to_scene() {
    let mut h = SceneHierarchy::new();
    assert_eq!(h.create_item_type, "");
    assert_eq!(h.selected_item, None);
    let mut g = open_state();
    assert_eq!(h.show(HierarchyEvent::Idle, &mut g).0, None);
    assert_eq!(h.create_item_type, "Scene");
    h.select_item_type("Entity");
    h.ensure_default_item_type();
    assert_eq!(h.create_item_type, "Entity");
    h.create_item_type = String::new();
    assert_eq!(h.show(HierarchyEvent::OpenCreatePopup, &mut g).0, None);
    assert!(h.show_create_popup);
    assert_eq!(h.create_item_type, "");
    h.ensure_default_item_type();
    assert_eq!(h.create_item_type, "");
}

#[test]
fn hierarchy_create_flow_waits_for_the_save() {
    let mut g = open_state();
    let mut h = SceneHierarchy::new();
    h.open_create_popup();
    h.select_item_type("Scene");
    h.create_item_name = " Level1 ".to_string();
    assert_eq!(h.render_create_popup(PopupClick::Confirm, &mut g), Some(SaveReason::CreatedScene));
    let scene = manager(&g).list_scene()[0].id;
    assert_eq!(manager(&g).get_scene(scene).unwrap().name(), "Level1");
    assert_eq!(h.selected_item, Some((ItemKind::Scene, scene)));
    assert!(h.is_scene_selected(scene));
    assert!(h.show_create_popup);
    h.save_finished(SaveReason::CreatedScene, Err("disk full".to_string()));
    assert_eq!(h.error_message, "Error saving project after creating a scene: disk full");
    assert!(h.show_create_popup);
    h.save_finished(SaveReason::CreatedScene, Ok(()));
    assert_eq!(h.error_message, "");
    assert!(!h.show_create_popup);
    h.open_create_popup();
    h.select_item_type("Camera");
    h.create_item_name = "Main".to_string();
    assert_eq!(h.confirm_create(&mut g), Some(SaveReason::CreatedEntity));
    h.save_finished(SaveReason::CreatedEntity, Err("oops".to_string()));
    assert_eq!(h.error_message, "Error saving project after creating an entity: oops");
    h.save_finished(SaveReason::Renamed, Ok(()));
    assert_eq!(h.error_message, "Error saving project after creating an entity: oops");
    let entity = match h.selected_item {
        Some((ItemKind::Entity, e)) => e,
        other => panic!("unexpected pick {:?}", other),
    };
    assert!(h.is_entity_selected(entity));
    assert_eq!(g.selected_item, SelectedItem::Entity(scene, entity));
    assert_eq!(
        manager(&g).get_scene(scene).unwrap().get_entity(entity).unwrap().attributes().len(),
        9
    );
}

#[test]
fn hierarchy_create_reports_what_is_wrong() {
    let mut g = GuiState::new();
    let mut h = SceneHierarchy::new();
    h.select_item_type("Scene");
    assert_eq!(h.confirm_create(&mut g), None);
    assert_eq!(h.error_message, "Please select an item type and enter a valid name.");
    h.create_item_name = "X".to_string();
    assert_eq!(h.confirm_create(&mut g), None);
    assert_eq!(h.error_message, "Scene manager is not initialized.");
    assert_eq!(h.create_new_scene(&mut g), None);
    assert_eq!(h.error_message, "Scene manager is not available.");
    let mut g = open_state();
    h.select_item_type("Spaceship");
    assert_eq!(h.confirm_create(&mut g), None);
    assert_eq!(h.error_message, "Invalid item type selected.");
    h.select_item_type("Entity");
    assert_eq!(h.confirm_create(&mut g), None);
    assert_eq!(h.error_message, "Please select a scene first to add the entity.");
    h.selected_item = Some((ItemKind::Scene, Handle::from_raw(7)));
    assert_eq!(h.create_new_entity("Entity", &mut g), None);
    assert_eq!(h.error_message, "The selected scene could not be found.");
    h.create_item_name = " ".to_string();
    assert_eq!(h.create_new_entity("Entity", &mut g), None);
    assert_eq!(h.error_message, "Entity name cannot be empty.");
    assert_eq!(h.create_new_scene(&mut g), None);
    assert_eq!(h.error_message, "Scene name cannot be empty.");
    h.show_create_popup = true;
    h.cancel_create();
    assert!(!h.show_create_popup);
    assert_eq!(h.error_message, "");
    assert_eq!(h.create_item_name, "");
}

#[test]
fn hierarchy_delete_clears_every_pick() {
    let mut g = open_state();
    let mut h = SceneHierarchy::new();
    let a = g.create_scene("A").unwrap();
    let e = g.create_entity(a, "Entity", "Box").unwrap();
    assert_eq!(h.show(HierarchyEvent::SelectEntity(a, e), &mut g).0, None);
    assert_eq!(h.selected_item, Some((ItemKind::Entity, e)));
    assert_eq!(h.show(HierarchyEvent::DeleteScene(a), &mut g).0, Some(SaveReason::DeletedScene));
    assert_eq!(h.selected_item, None);
    assert_eq!(g.selected_item, SelectedItem::Nothing);
    assert_eq!(h.show(HierarchyEvent::DeleteScene(a), &mut g).0, None);
    let b = g.create_scene("B").unwrap();
    let e1 = g.create_entity(b, "Entity", "One").unwrap();
    let e2 = g.create_entity(b, "Entity", "Two").unwrap();
    h.show(HierarchyEvent::SelectScene(b), &mut g).0;
    assert_eq!(g.selected_item, SelectedItem::Scene(b));
    assert_eq!(h.delete_entity(b, e1, &mut g), Some(SaveReason::DeletedEntity));
    assert_eq!(h.selected_item, Some((ItemKind::Scene, b)));
    h.show(HierarchyEvent::SelectEntity(b, e2), &mut g).0;
    assert_eq!(h.show(HierarchyEvent::DeleteEntity(b, e2), &mut g).0, Some(SaveReason::DeletedEntity));
    assert_eq!(h.selected_item, None);
    assert_eq!(g.selected_item, SelectedItem::Nothing);
    assert_eq!(h.delete_entity(b, e2, &mut g), None);
}

#[test]
fn hierarchy_rename_flow() {
    let mut g = open_state();
    let mut h = SceneHierarchy::new();
    let a = g.create_scene("A").unwrap();
    let e = g.create_entity(a, "Entity", "Box").unwrap();
    h.show(HierarchyEvent::RenameScene(a), &mut g).0;
    assert_eq!(h.renaming_scene, Some(a));
    assert_eq!(h.rename_input, "A");
    h.rename_input = " Level ".to_string();
    assert_eq!(h.open_rename_popup(PopupClick::Confirm, a, None, &mut g), Some(SaveReason::Renamed));
    assert_eq!(manager(&g).get_scene(a).unwrap().name(), "Level");
    assert_eq!(h.renaming_scene, None);
    assert_eq!(h.rename_input, "");
    h.show(HierarchyEvent::RenameEntity(a, e), &mut g).0;
    assert_eq!(h.renaming_entity, Some((a, e)));
    assert_eq!(h.rename_input, "Box");
    assert_eq!(h.open_rename_popup(PopupClick::Cancel, a, Some(e), &mut g), None);
    assert_eq!(h.renaming_entity, None);
    h.rename_input = "Crate".to_string();
    assert_eq!(h.confirm_rename(a, Some(e), &mut g), Some(SaveReason::Renamed));
    assert_eq!(manager(&g).get_scene(a).unwrap().get_entity(e).unwrap().name(), "Crate");
    h.show(HierarchyEvent::RenameScene(Handle::from_raw(9)), &mut g).0;
    assert_eq!(h.renaming_scene, None);
    h.begin_rename_scene(a, "x");
    h.begin_rename_entity(a, e, "y");
    assert_eq!(h.rename_input, "y");
    h.cancel_rename();
    assert_eq!((h.renaming_scene, h.renaming_entity), (None, None));
}

#[test]
fn entity_visible_follows_the_search() {
    let mut h = SceneHierarchy::new();
    assert!(h.entity_visible("Player"));
    h.search_query = "LAY".to_string();
    assert!(h.entity_visible("Player"));
    assert!(!h.entity_visible("Enemy"));
}

#[test]
fn show_entities_sorts_and_filters() {
    let mut g = open_state();
    let a = g.create_scene("A").unwrap();
    let mut ids = Vec::new();
    for n in ["Zebra", "apple", "Banana", "avocado"] {
        ids.push(g.create_entity(a, "Entity", n).unwrap());
    }
    {
        let m = g.scene_manager.as_mut().unwrap();
        let e = m.get_scene_mut(a).unwrap().get_entity_mut(ids[2]).unwrap();
        e.attach_resource(ResourceKind::Image, "b.png");
    }
    let scene = manager(&g).get_scene(a).unwrap();
    let rows = EntityItem::show_entities(scene, "");
    let names: Vec<&str> = rows.iter().map(|r| r.name.as_str()).collect();
    assert_eq!(names, vec!["apple", "avocado", "Banana", "Zebra"]);
    let flags: Vec<bool> = rows.iter().map(|r| r.has_resources).collect();
    assert_eq!(flags, vec![false, false, true, false]);
    let rows = EntityItem::show_entities(scene, "A");
    let names: Vec<&str> = rows.iter().map(|r| r.name.as_str()).collect();
    assert_eq!(names, vec!["apple", "avocado", "Banana", "Zebra"]);
    let rows = EntityItem::show_entities(scene, "AN");
    assert_eq!(rows.len(), 1);
    assert_eq!(rows[0].id, ids[2]);
    assert!(EntityItem::show_entities(scene, "xyz").is_empty());
}

#[test]
fn entity_item_actions() {
    let mut g = open_state();
    let mut h = SceneHierarchy::new();
    let a = g.create_scene("A").unwrap();
    let e = g.create_entity(a, "Entity", "Box").unwrap();
    g.scene_panel_selected_item = SelectedItem::Nothing;
    assert!(!EntityItem::is_selected(&g, a, e));
    EntityItem::select(&mut g, a, e);
    assert!(EntityItem::is_selected(&g, a, e));
    assert_eq!(g.selected_item, SelectedItem::Entity(a, e));
    EntityItem::manage_resources(&mut h, a, e);
    assert_eq!(h.popup_manager.manage_assets_entity, Some((a, e)));
    assert!(h.popup_manager.manage_assets_popup_active);
    EntityItem::rename(&mut h, a, e, "Box");
    assert_eq!(h.popup_manager.entity_rename_entity, Some((a, e)));
    assert_eq!(h.popup_manager.rename_input, "Box");
    assert_eq!(EntityItem::delete(&mut g, a, e), Some(SaveReason::DeletedEntity));
    assert_eq!(g.selected_item, SelectedItem::Nothing);
    assert_eq!(g.scene_panel_selected_item, SelectedItem::Nothing);
    assert_eq!(EntityItem::delete(&mut g, a, e), None);
}

#[test]
fn file_menu_starts_empty() {
    let f = FileMenu::new();
    assert_eq!(f.temp_project_path(), "");
    assert_eq!(f.error_message(), "");
    assert!(!f.new_error_visible());
    assert!(!f.open_error_visible());
}

#[test]
fn file_menu_clicks_open_one_popup() {
    let mut f = FileMenu::new();
    let mut g = GuiState::new();
    f.new_project_path_typed("/tmp/x");
    assert_eq!(f.show(FileMenuClick::NewProject, &mut g), FileMenuAction::Nothing);
    assert_eq!(f.temp_project_path(), "");
    assert_eq!(f.show_active_popup(&g), ActivePopup::NewProject);
    assert_eq!(f.show(FileMenuClick::OpenProject, &mut g), FileMenuAction::Nothing);
    assert_eq!(f.show_active_popup(&g), ActivePopup::OpenProject);
    assert!(!g.show_new_project_popup);
    g.show_new_project_popup = true;
    assert_eq!(f.show_active_popup(&g), ActivePopup::NewProject);
    assert_eq!(f.show(FileMenuClick::SaveProject, &mut g), FileMenuAction::SaveProject);
    assert_eq!(f.show(FileMenuClick::Exit, &mut g), FileMenuAction::Exit);
    f.cancel_new_project(&mut g);
    f.cancel_open_project(&mut g);
    assert_eq!(f.show_active_popup(&g), ActivePopup::Nothing);
}

#[test]
fn file_menu_new_project_flow() {
    let mut f = FileMenu::new();
    let mut g = GuiState::new();
    f.show(FileMenuClick::NewProject, &mut g);
    f.new_project_path_typed("/p/demo");
    assert_eq!(f.create_clicked(true), FileAction::Nothing);
    assert_eq!(f.error_message(), "Error: Project path already exists.");
    assert!(f.new_error_visible());
    assert_eq!(f.create_clicked(false), FileAction::CreateProject);
    assert_eq!(f.project_created(Err("denied".to_string())), FileAction::Nothing);
    assert_eq!(f.error_message(), "Error creating project: denied");
    assert_eq!(f.project_created(Ok(())), FileAction::LoadProject);
    f.new_project_loaded(&mut g, Err("broken".to_string()));
    assert_eq!(f.error_message(), "Error loading project: broken");
    assert!(g.show_new_project_popup);
    assert!(!g.load_project);
    g.selected_item = SelectedItem::Scene(Handle::from_raw(3));
    f.new_project_loaded(&mut g, Ok(loaded("demo")));
    assert_eq!(f.error_message(), "");
    assert_eq!(f.temp_project_path(), "/p/demo");
    assert!(!g.show_new_project_popup);
    assert!(g.load_project);
    assert_eq!(g.project_name, "demo");
    assert_eq!(g.project_path, "/p/demo");
    assert_eq!(g.project_metadata.as_ref().unwrap().version, "1.0.0");
    assert_eq!(manager(&g).scene_count(), 1);
    assert_eq!(g.selected_item, SelectedItem::Nothing);
}

#[test]
fn file_menu_open_project_flow() {
    let mut f = FileMenu::new();
    let mut g = GuiState::new();
    f.show(FileMenuClick::OpenProject, &mut g);
    assert_eq!(f.open_clicked(true), FileAction::Nothing);
    assert_eq!(f.error_message(), "");
    f.open_project_path_typed("/p/demo");
    assert_eq!(f.open_clicked(false), FileAction::Nothing);
    assert_eq!(f.error_message(), "Error: Path does not exist.");
    assert!(f.open_error_visible());
    f.open_project_path_typed("/p/demo2");
    assert_eq!(f.error_message(), "");
    assert_eq!(f.open_clicked(true), FileAction::LoadProject);
    f.open_project_loaded(&mut g, Err("broken".to_string()));
    assert_eq!(f.error_message(), "Error loading project: broken");
    assert!(g.show_open_project_popup);
    f.open_project_loaded(&mut g, Ok(loaded("demo2")));
    assert_eq!(f.error_message(), "");
    assert_eq!(f.temp_project_path(), "");
    assert!(!g.show_open_project_popup);
    assert_eq!(g.project_name, "demo2");
}

#[test]
fn save_project_decides() {
    let f = FileMenu::new();
    let mut g = GuiState::new();
    assert_eq!(f.save_project(&g, true), SaveDecision::NoProjectLoaded);
    g.load_project = true;
    assert_eq!(f.save_project(&g, false), SaveDecision::InvalidProject);
    assert_eq!(f.save_project(&g, true), SaveDecision::NoSceneManager);
    g.scene_manager = Some(SceneManager::new());
    assert_eq!(f.save_project(&g, true), SaveDecision::Save);
}

#[test]
fn engine_gui_starts_in_the_viewer() {
    let gui = EngineGui::new();
    assert_eq!(gui.viewport_mode(), ViewportMode::Scene);
    assert_eq!(gui.console_level(), ConsoleMessageType::Info);
    assert_eq!(gui.get_background_color(), 30);
    assert_eq!(gui.game_runtime().get_state(), RuntimeState::Stopped);
    assert_eq!(gui.game_runtime().target_fps(), 60);
    assert_eq!(gui.editor_content(), "");
    assert!(gui.current_edited_file().is_none());
    let b = gui.control_buttons();
    assert!(!b.enabled);
    assert_eq!(b.first, ControlButton::Play);
    assert!(!gui.shows_camera_bounds());
}

#[test]
fn background_follows_the_theme() {
    let mut gui = EngineGui::new();
    gui.gui_state.dark_mode = false;
    assert_eq!(gui.get_background_color(), 240);
}

#[test]
fn console_filter_by_level() {
    let (info, warning, error, debug) = (
        ConsoleMessageType::Info,
        ConsoleMessageType::Warning,
        ConsoleMessageType::Error,
        ConsoleMessageType::Debug,
    );
    let all = vec![info, warning, error, debug];
    assert_eq!(EngineGui::show_console_messages(&all, info), vec![true, true, true, false]);
    assert_eq!(EngineGui::show_console_messages(&all, warning), vec![false, true, true, false]);
    assert_eq!(EngineGui::show_console_messages(&all, error), vec![false, false, true, false]);
    assert_eq!(EngineGui::show_console_messages(&all, debug), vec![false, false, false, true]);
    assert_eq!(info.rank(), 0);
    assert_eq!(error.rank(), 2);
    assert_eq!(warning.prefix(), "\u{26a0}");
    assert_eq!(info.prefix(), "\u{2139}");
    assert_eq!(error.prefix(), "\u{274c}");
    assert_eq!(debug.prefix(), "\u{1f527}");
}

#[test]
fn window_events_switch_views_and_tabs() {
    let mut gui = EngineGui::new();
    assert_eq!(frame(&mut gui, WindowEvent::ShowEditor, true), WindowAction::Nothing);
    assert_eq!(gui.viewport_mode(), ViewportMode::Editor);
    assert_eq!(frame(&mut gui, WindowEvent::ShowViewer, true), WindowAction::Nothing);
    gui.file_opened("/p/a.lua".to_string(), "print(1)".to_string());
    assert_eq!(gui.editor_content(), "print(1)");
    assert_eq!(gui.current_edited_file().as_deref(), Some("/p/a.lua"));
    assert!(gui.editor_changed("print(2)".to_string()));
    assert_eq!(gui.editor_content(), "print(2)");
    assert_eq!(frame(&mut gui, WindowEvent::ShowViewer, true), WindowAction::WriteFile);
    assert_eq!(frame(&mut gui, WindowEvent::ConsoleDebug, true), WindowAction::Nothing);
    assert_eq!(gui.console_level(), ConsoleMessageType::Debug);
    frame(&mut gui, WindowEvent::LogLevel(ConsoleMessageType::Error), true);
    assert_eq!(gui.console_level(), ConsoleMessageType::Debug);
    frame(&mut gui, WindowEvent::ConsoleOutput, true);
    assert_eq!(gui.console_level(), ConsoleMessageType::Error);
    let mut fresh = EngineGui::new();
    assert!(!fresh.editor_changed("x".to_string()));
}

#[test]
fn control_buttons_need_a_project() {
    let mut gui = EngineGui::new();
    gui.gui_state.scene_manager = Some(SceneManager::new());
    assert_eq!(frame(&mut gui, WindowEvent::Control(ControlButton::Play), true), WindowAction::Nothing);
    assert_eq!(gui.game_runtime().get_state(), RuntimeState::Stopped);
    gui.gui_state.load_project = true;
    assert_eq!(
        frame(&mut gui, WindowEvent::Control(ControlButton::Play), true),
        WindowAction::GameFailed(RuntimeError::NoActiveScene)
    );
    assert_eq!(gui.game_runtime().get_state(), RuntimeState::Stopped);
    assert_eq!(frame(&mut gui, WindowEvent::Control(ControlButton::Pause), true), WindowAction::Nothing);
    assert_eq!(gui.game_runtime().get_state(), RuntimeState::Stopped);
}

#[test]
fn play_pause_resume_reset() {
    let mut gui = EngineGui::new();
    gui.gui_state = open_state();
    let a = gui.gui_state.create_scene("A").unwrap();
    gui.gui_state.scene_manager.as_mut().unwrap().set_active(a).unwrap();
    assert!(gui.shows_camera_bounds());
    assert_eq!(
        frame(&mut gui, WindowEvent::Control(ControlButton::Play), false),
        WindowAction::GameFailed(RuntimeError::SubsystemInitFailed)
    );
    assert_eq!(frame(&mut gui, WindowEvent::Control(ControlButton::Play), true), WindowAction::GameStarted);
    assert_eq!(gui.game_runtime().get_state(), RuntimeState::Playing);
    assert_eq!(gui.viewport_mode(), ViewportMode::Game);
    let out = gui.show_windows(WindowEvent::Idle, true, (1, 2), 3);
    assert_eq!(out.action, WindowAction::Nothing);
    assert_eq!(
        out.steps,
        vec![
            FrameStep::SyncCamera(CameraState { x: 1, y: 2, zoom: 3 }),
            FrameStep::StepPhysics,
            FrameStep::SubmitRender,
            FrameStep::RouteInput(InputTarget::Runtime),
        ]
    );
    assert_eq!(out.steps, gui.game_runtime().frame_steps());
    assert_eq!(gui.control_buttons().first, ControlButton::Pause);
    assert!(!gui.editor_camera_pans(true, true, false, false));
    assert_eq!(gui.game_runtime().camera().zoom, 3);
    assert_eq!(
        gui.show_windows(WindowEvent::Control(ControlButton::Pause), true, (1, 2), 3).action,
        WindowAction::Nothing
    );
    assert_eq!(gui.game_runtime().get_state(), RuntimeState::Paused);
    let out = gui.show_windows(WindowEvent::Idle, true, (9, 9), 9);
    assert_eq!(out.steps, vec![FrameStep::RouteInput(InputTarget::Editor)]);
    assert_eq!(gui.game_runtime().camera().zoom, 3);
    assert_eq!(gui.control_buttons().first, ControlButton::Resume);
    assert_eq!(frame(&mut gui, WindowEvent::Control(ControlButton::Resume), false), WindowAction::Nothing);
    assert_eq!(gui.game_runtime().get_state(), RuntimeState::Playing);
    assert_eq!(frame(&mut gui, WindowEvent::Reset, true), WindowAction::Nothing);
    assert_eq!(gui.game_runtime().get_state(), RuntimeState::Stopped);
    assert_eq!(gui.game_runtime().get_scene_manager().scene_count(), 0);
    assert_eq!(manager(&gui.gui_state).scene_count(), 1);
}

#[test]
fn play_takes_a_fresh_copy_of_the_scenes() {
    let mut gui = EngineGui::new();
    gui.gui_state = open_state();
    let a = gui.gui_state.create_scene("A").unwrap();
    gui.gui_state.scene_manager.as_mut().unwrap().set_active(a).unwrap();
    frame(&mut gui, WindowEvent::Control(ControlButton::Play), true);
    let cam = gui.gui_state.create_entity(a, "Camera", "Late").unwrap();
    assert_eq!(gui.game_runtime().get_scene_manager().get_scene(a).unwrap().entity_count(), 0);
    frame(&mut gui, WindowEvent::Reset, true);
    frame(&mut gui, WindowEvent::Control(ControlButton::Play), true);
    assert_eq!(gui.game_runtime().get_scene_manager().get_scene(a).unwrap().entity_count(), 1);
    assert!(gui.apply_transform(cam, "transform_scale_x", AttributeValue::Float(2.0f32.to_bits())));
    let scale = |m: &SceneManager| {
        m.get_scene(a)
            .unwrap()
            .get_entity(cam)
            .unwrap()
            .get_attribute("transform_scale_x")
            .unwrap()
            .value()
            .clone()
    };
    assert_eq!(scale(gui.game_runtime().get_scene_manager()), AttributeValue::Float(2.0f32.to_bits()));
    assert_eq!(scale(manager(&gui.gui_state)), AttributeValue::Float(1.0f32.to_bits()));
    gui.sync_scene_manager_to_runtime();
    assert_eq!(scale(gui.game_runtime().get_scene_manager()), AttributeValue::Float(1.0f32.to_bits()));
}

#[test]
fn editor_camera_follows_the_mouse_while_editing() {
    let gui = EngineGui::new();
    assert!(gui.editor_camera_pans(true, true, false, false));
    assert!(gui.editor_camera_pans(true, false, true, true));
    assert!(!gui.editor_camera_pans(true, false, true, false));
    assert!(!gui.editor_camera_pans(true, false, false, true));
    assert!(!gui.editor_camera_pans(false, true, true, true));
}

#[test]
fn keys_label_joins_with_commas() {
    assert_eq!(EngineGui::keys_label(&vec![]), "None");
    assert_eq!(EngineGui::keys_label(&vec!["W".to_string()]), "W");
    assert_eq!(
        EngineGui::keys_label(&vec!["W".to_string(), "Shift".to_string(), "Mouse1".to_string()]),
        "W, Shift, Mouse1"
    );
}

#[test]
fn new_project_popup_steps() {
    let mut f = FileMenu::new();
    let mut g = GuiState::new();
    f.show(FileMenuClick::NewProject, &mut g);
    let typed = ProjectPopupEvent::PathTyped("/p/demo".to_string());
    assert_eq!(f.show_new_project_popup_window(typed, &mut g), FileAction::Nothing);
    assert_eq!(f.temp_project_path(), "/p/demo");
    let taken = ProjectPopupEvent::Confirmed { path_exists: true };
    assert_eq!(f.show_new_project_popup_window(taken, &mut g), FileAction::Nothing);
    assert_eq!(f.error_message(), "Error: Project path already exists.");
    let free = ProjectPopupEvent::Confirmed { path_exists: false };
    assert_eq!(f.show_new_project_popup_window(free, &mut g), FileAction::CreateProject);
    let failed = ProjectPopupEvent::Created(Err("denied".to_string()));
    assert_eq!(f.show_new_project_popup_window(failed, &mut g), FileAction::Nothing);
    assert_eq!(f.error_message(), "Error creating project: denied");
    let made = ProjectPopupEvent::Created(Ok(()));
    assert_eq!(f.show_new_project_popup_window(made, &mut g), FileAction::LoadProject);
    let read = ProjectPopupEvent::Loaded(Ok(loaded("demo")));
    assert_eq!(f.show_new_project_popup_window(read, &mut g), FileAction::Nothing);
    assert!(g.load_project);
    assert!(!g.show_new_project_popup);
    assert_eq!(f.error_message(), "");
    g.show_new_project_popup = true;
    assert_eq!(f.show_new_project_popup_window(ProjectPopupEvent::Cancelled, &mut g), FileAction::Nothing);
    assert!(!g.show_new_project_popup);
    assert_eq!(f.temp_project_path(), "");
}

#[test]
fn open_project_popup_steps() {
    let mut f = FileMenu::new();
    let mut g = GuiState::new();
    f.show(FileMenuClick::OpenProject, &mut g);
    let there = ProjectPopupEvent::Confirmed { path_exists: true };
    assert_eq!(f.show_open_project_popup_window(there, &mut g), FileAction::Nothing);
    let typed = ProjectPopupEvent::PathTyped("/p/demo".to_string());
    assert_eq!(f.show_open_project_popup_window(typed, &mut g), FileAction::Nothing);
    let missing = ProjectPopupEvent::Confirmed { path_exists: false };
    assert_eq!(f.show_open_project_popup_window(missing, &mut g), FileAction::Nothing);
    assert_eq!(f.error_message(), "Error: Path does not exist.");
    let there = ProjectPopupEvent::Confirmed { path_exists: true };
    assert_eq!(f.show_open_project_popup_window(there, &mut g), FileAction::LoadProject);
    let made = ProjectPopupEvent::Created(Ok(()));
    assert_eq!(f.show_open_project_popup_window(made, &mut g), FileAction::Nothing);
    let broken = ProjectPopupEvent::Loaded(Err("broken".to_string()));
    assert_eq!(f.show_open_project_popup_window(broken, &mut g), FileAction::Nothing);
    assert_eq!(f.error_message(), "Error loading project: broken");
    let read = ProjectPopupEvent::Loaded(Ok(loaded("demo")));
    assert_eq!(f.show_open_project_popup_window(read, &mut g), FileAction::Nothing);
    assert_eq!(g.project_name, "demo");
    assert!(!g.show_open_project_popup);
    g.show_open_project_popup = true;
    f.show_open_project_popup_window(ProjectPopupEvent::Cancelled, &mut g);
    assert!(!g.show_open_project_popup);
}

#[test]
fn tree_item_entity_takes_each_press() {
    let mut g = open_state();
    let mut h = SceneHierarchy::new();
    let a = g.create_scene("A").unwrap();
    let e = g.create_entity(a, "Entity", "Box").unwrap();
    g.selected_item = SelectedItem::Nothing;
    assert_eq!(EntityItem::tree_item_entity(&mut h, &mut g, a, e, "Box", EntityClick::Select), None);
    assert_eq!(g.selected_item, SelectedItem::Entity(a, e));
    assert_eq!(
        EntityItem::tree_item_entity(&mut h, &mut g, a, e, "Box", EntityClick::ManageResources),
        None
    );
    assert_eq!(h.popup_manager.manage_assets_entity, Some((a, e)));
    assert_eq!(EntityItem::tree_item_entity(&mut h, &mut g, a, e, "Box", EntityClick::Rename), None);
    assert_eq!(h.popup_manager.rename_input, "Box");
    assert_eq!(
        EntityItem::tree_item_entity(&mut h, &mut g, a, e, "Box", EntityClick::Delete),
        Some(SaveReason::DeletedEntity)
    );
    assert_eq!(g.selected_item, SelectedItem::Nothing);
    assert_eq!(EntityItem::tree_item_entity(&mut h, &mut g, a, e, "Box", EntityClick::Delete), None);
}

#[test]
fn panel_rows_are_sorted_and_filtered() {
    let mut g = open_state();
    let mut h = SceneHierarchy::new();
    let menu = g.create_scene("menu").unwrap();
    let boss = g.create_scene("Boss").unwrap();
    let level = g.create_scene("level").unwrap();
    for n in ["Zebra", "apple", "Banana"] {
        g.create_entity(level, "Entity", n).unwrap();
    }
    let cam = g.create_entity(boss, "Camera", "Main").unwrap();
    g.scene_manager
        .as_mut()
        .unwrap()
        .get_scene_mut(boss)
        .unwrap()
        .get_entity_mut(cam)
        .unwrap()
        .attach_resource(ResourceKind::Sound, "roar.ogg");
    let (save, rows) = h.show(HierarchyEvent::Idle, &mut g);
    assert_eq!(save, None);
    let scenes: Vec<(&str, Handle)> = rows.iter().map(|r| (r.name.as_str(), r.id)).collect();
    assert_eq!(scenes, vec![("Boss", boss), ("level", level), ("menu", menu)]);
    let names = |i: usize| -> Vec<&str> { rows[i].entities.iter().map(|e| e.name.as_str()).collect() };
    assert_eq!(names(0), vec!["Main"]);
    assert!(rows[0].entities[0].has_resources);
    assert_eq!(names(1), vec!["apple", "Banana", "Zebra"]);
    assert!(names(2).is_empty());
    h.search_query = "AN".to_string();
    let rows = h.rows(&g);
    assert_eq!(rows.len(), 3);
    assert!(rows[0].entities.is_empty());
    assert_eq!(rows[1].entities.len(), 1);
    assert_eq!(rows[1].entities[0].name, "Banana");
    let (save, rows) = h.show(HierarchyEvent::DeleteScene(level), &mut g);
    assert_eq!(save, Some(SaveReason::DeletedScene));
    assert_eq!(rows.len(), 2);
    assert_eq!(rows[0].id, boss);
    assert_eq!(rows[1].id, menu);
}

#[test]
fn panel_has_no_rows_without_scenes() {
    let mut g = GuiState::new();
    let mut h = SceneHierarchy::new();
    assert!(h.rows(&g).is_empty());
    assert!(h.show(HierarchyEvent::Idle, &mut g).1.is_empty());
    g.scene_manager = Some(SceneManager::new());
    assert!(h.rows(&g).is_empty());
}

#[test]
fn panel_create_leaves_the_pick_of_the_scene_panel() {
    let mut g = open_state();
    let mut h = SceneHierarchy::new();
    h.create_item_name = "A".to_string();
    assert_eq!(h.create_new_scene(&mut g), Some(SaveReason::CreatedScene));
    let a = manager(&g).list_scene()[0].id;
    assert_eq!(g.selected_item, SelectedItem::Scene(a));
    assert_eq!(g.scene_panel_selected_item, SelectedItem::Nothing);
    assert_eq!(h.create_new_scene(&mut g), Some(SaveReason::CreatedScene));
    let list = manager(&g).list_scene();
    assert_eq!(list.len(), 2);
    assert_eq!((list[0].name.as_str(), list[1].name.as_str()), ("A", "A"));
    assert_ne!(list[0].id, list[1].id);
    h.selected_item = Some((ItemKind::Scene, a));
    h.create_item_name = " Box ".to_string();
    assert_eq!(h.create_new_entity("Entity", &mut g), Some(SaveReason::CreatedEntity));
    assert_eq!(g.scene_panel_selected_item, SelectedItem::Nothing);
    let e0 = match g.selected_item {
        SelectedItem::Entity(_, e) => e,
        other => panic!("unexpected pick {:?}", other),
    };
    assert!(g.delete_entity(a, e0));
    h.selected_item = Some((ItemKind::Scene, a));
    assert_eq!(h.create_new_entity("Entity", &mut g), Some(SaveReason::CreatedEntity));
    match g.selected_item {
        SelectedItem::Entity(s, e) => {
            assert_eq!(s, a);
            assert_ne!(e, e0);
            assert_eq!(manager(&g).get_scene(a).unwrap().get_entity(e).unwrap().name(), "Box");
        }
        other => panic!("unexpected pick {:?}", other),
    }
}

#[test]
fn resource_popup_takes_the_listing() {
    let mut g = open_state();
    let a = g.create_scene("A").unwrap();
    let e = g.create_entity(a, "Entity", "Box").unwrap();
    let mut m = g.scene_manager.take().unwrap();
    let mut p = PopupManager::new();
    let found = vec!["a.png".to_string(), "b.png".to_string()];
    p.show_resource_selection_popup(&mut m, Some(found.clone()), None);
    assert!(p.available_resources.is_empty());
    p.resource_selection = Some((a, e));
    p.resource_selection_popup_active = true;
    p.show_resource_selection_popup(&mut m, Some(found.clone()), None);
    assert_eq!(p.available_resources, found);
    p.show_resource_selection_popup(&mut m, None, None);
    assert_eq!(p.available_resources, found);
    assert!(p.show_resource_selection_popup(&mut m, Some(vec!["c.png".to_string()]), Some("c.png")));
    assert_eq!(p.available_resources, vec!["c.png"]);
    assert_eq!(m.get_scene(a).unwrap().get_entity(e).unwrap().images(), &vec!["c.png".to_string()]);
}

#[test]
fn cancel_needs_no_free_handle() {
    let mut g = open_state();
    let mut p = PopupManager::new();
    p.create_popup_active = true;
    p.create_item_name = "X".to_string();
    assert_eq!(p.render_create_popup(PopupClick::Cancel, &mut g), None);
    assert!(!p.create_popup_active);
    assert!(is_blank_text(&p.create_item_name));
    assert_eq!(p.render_create_popup(PopupClick::Confirm, &mut g), None);
    assert_eq!(p.error_message, "Please select an item type and enter a valid name.");
    let mut h = SceneHierarchy::new();
    h.show_create_popup = true;
    assert_eq!(h.render_create_popup(PopupClick::Cancel, &mut g), None);
    assert!(!h.show_create_popup);
}

#[test]
fn frame_in_the_text_editor_hands_on_no_input() {
    let mut gui = EngineGui::new();
    let out = gui.show_windows(WindowEvent::ShowEditor, true, (1, 2), 3);
    assert!(out.steps.is_empty());
    let out = gui.show_windows(WindowEvent::Control(ControlButton::Play), true, (1, 2), 3);
    assert_eq!(out.action, WindowAction::Nothing);
    assert!(out.steps.is_empty());
    let out = gui.show_windows(WindowEvent::ShowViewer, true, (1, 2), 3);
    assert_eq!(out.steps, vec![FrameStep::RouteInput(InputTarget::Editor)]);
    assert_eq!(gui.game_runtime().camera(), CameraState { x: 0, y: 0, zoom: 0 });
}

#[test]
fn frame_routes_input_by_the_state_after_the_press() {
    let mut gui = EngineGui::new();
    gui.gui_state = open_state();
    let a = gui.gui_state.create_scene("A").unwrap();
    gui.gui_state.scene_manager.as_mut().unwrap().set_active(a).unwrap();
    let out = gui.show_windows(WindowEvent::Control(ControlButton::Play), true, (1, 2), 3);
    assert_eq!(out.action, WindowAction::GameStarted);
    assert_eq!(out.steps, vec![FrameStep::RouteInput(InputTarget::Runtime)]);
    assert_eq!(gui.game_runtime().camera(), CameraState { x: 0, y: 0, zoom: 0 });
    let out = gui.show_windows(WindowEvent::Control(ControlButton::Pause), true, (4, 5), 6);
    assert_eq!(
        out.steps,
        vec![
            FrameStep::SyncCamera(CameraState { x: 4, y: 5, zoom: 6 }),
            FrameStep::StepPhysics,
            FrameStep::SubmitRender,
            FrameStep::RouteInput(InputTarget::Editor),
        ]
    );
    assert_eq!(gui.game_runtime().get_state(), RuntimeState::Paused);
    let out = gui.show_windows(WindowEvent::Control(ControlButton::Resume), true, (7, 8), 9);
    assert_eq!(out.steps, vec![FrameStep::RouteInput(InputTarget::Runtime)]);
    assert_eq!(gui.game_runtime().camera(), CameraState { x: 4, y: 5, zoom: 6 });
}

#[test]
fn frame_leaves_health_alone() {
    let mut gui = EngineGui::new();
    gui.gui_state = open_state();
    let a = gui.gui_state.create_scene("Level1").unwrap();
    let player = gui.gui_state.create_entity(a, "Entity", "Player").unwrap();
    {
        let m = gui.gui_state.scene_manager.as_mut().unwrap();
        m.set_active(a).unwrap();
        let e = m.get_scene_mut(a).unwrap().get_entity_mut(player).unwrap();
        e.set_attribute("health", AttributeValue::Int(1)).unwrap_err();
        e.create_attribute("health", engine_core::attribute::AttributeType::Int, AttributeValue::Int(100))
            .unwrap();
    }
    frame(&mut gui, WindowEvent::Control(ControlButton::Play), true);
    let out = gui.show_windows(WindowEvent::Idle, true, (0, 0), 0);
    assert_eq!(out.steps.len(), 4);
    assert!(!gui.apply_transform(player, "health", AttributeValue::Int(0)));
    let working = gui.game_runtime().get_scene_manager().get_scene(a).unwrap();
    let entity = working.get_entity(player).unwrap();
    assert_eq!(entity.get_attribute("health").unwrap().value(), &AttributeValue::Int(100));
    assert_eq!(entity.name(), "Player");
}
