pub mod gui_state;
pub mod menus;
pub mod scene_hierarchy;
