pub mod file_menu;
