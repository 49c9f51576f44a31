use crate::entity::ResourceKind;
use crate::gui::gui_state::{GuiState, GuiStateView, SaveReason, SelectedItem};
use crate::handle::Handle;
use crate::predefined::{is_predefined, template_of};
use crate::scene_manager::{SceneManager, SceneManagerView};
use crate::text::{
    is_blank, is_blank_text, lemma_trimmed_not_blank, same_text, text_views, trim, trimmed,
};
use vstd::prelude::*;
use vstd::string::*;

verus! {

/// What a rename popup renames: a scene, or an entity of a scene.
#[derive(Clone, Copy, Debug, PartialEq, Eq, Structural, Hash)]
pub struct RenameTarget {
    pub scene: Handle,
    pub entity: Option<Handle>,
}

impl RenameTarget {
    pub open spec fn spec_title(self) -> Seq<char> {
        if self.entity is Some {
            "Rename Entity"@
        } else {
            "Rename Scene"@
        }
    }

    /// The title of the popup.
    pub fn title(&self) -> (s: String)
        ensures
            s@ == self.spec_title(),
    {
        if self.entity.is_some() {
            "Rename Entity".to_owned()
        } else {
            "Rename Scene".to_owned()
        }
    }
}

/// The two ways out of a popup.
#[derive(Clone, Copy, Debug, PartialEq, Eq, Structural, Hash)]
pub enum PopupClick {
    Confirm,
    Cancel,
}

/// Which popups a frame shows.
#[derive(Clone, Copy, Debug, PartialEq, Eq, Structural, Hash)]
pub struct PopupPlan {
    pub rename: Option<RenameTarget>,
    pub create: bool,
    pub manage_assets: bool,
    pub resource_selection: bool,
}

pub open spec fn msg_no_manager() -> Seq<char> {
    "Scene manager is not available."@
}

pub open spec fn msg_enter_name() -> Seq<char> {
    "Please select an item type and enter a valid name."@
}

pub open spec fn msg_scene_name_empty() -> Seq<char> {
    "Scene name cannot be empty."@
}

pub open spec fn msg_entity_name_empty() -> Seq<char> {
    "Entity name cannot be empty."@
}

pub open spec fn msg_select_scene() -> Seq<char> {
    "Please select a scene first to add the entity."@
}

pub open spec fn msg_scene_missing() -> Seq<char> {
    "The selected scene could not be found."@
}

/// The list of resources that a type of resource in the popup stands for.
pub open spec fn resource_kind_of(resource_type: Seq<char>) -> Option<ResourceKind> {
    if resource_type == "Images"@ {
        Some(ResourceKind::Image)
    } else if resource_type == "Sounds"@ {
        Some(ResourceKind::Sound)
    } else {
        None
    }
}

/// The folder below the project in which the resources of a type lie, as the
/// names of the folders on the way.
pub open spec fn resource_folder(resource_type: Seq<char>) -> Seq<Seq<char>> {
    if resource_type == "Images"@ {
        seq!["assets"@, "images"@]
    } else if resource_type == "Sounds"@ {
        seq!["assets"@, "sounds"@]
    } else if resource_type == "Scripts"@ {
        seq!["assets"@, "scripts"@]
    } else {
        seq!["assets"@]
    }
}

/// The state of the popups of the scene panel.
#[derive(Debug)]
pub struct PopupManager {
    pub create_item_name: String,
    pub error_message: String,
    pub rename_input: String,
    pub scene_rename_scene: Option<Handle>,
    pub entity_rename_entity: Option<(Handle, Handle)>,
    pub create_popup_active: bool,
    pub create_item_type: String,
    pub create_entity_popup_active: bool,
    pub create_entity_name: String,
    pub manage_assets_entity: Option<(Handle, Handle)>,
    pub manage_assets_popup_active: bool,
    pub resource_selection: Option<(Handle, Handle)>,
    pub resource_selection_popup_active: bool,
    pub selected_resource_type: String,
    pub available_resources: Vec<String>,
}

/// What a `PopupManager` stands for.
pub struct PopupManagerView {
    pub create_item_name: Seq<char>,
    pub error_message: Seq<char>,
    pub rename_input: Seq<char>,
    pub scene_rename_scene: Option<Handle>,
    pub entity_rename_entity: Option<(Handle, Handle)>,
    pub create_popup_active: bool,
    pub create_item_type: Seq<char>,
    pub create_entity_popup_active: bool,
    pub create_entity_name: Seq<char>,
    pub manage_assets_entity: Option<(Handle, Handle)>,
    pub manage_assets_popup_active: bool,
    pub resource_selection: Option<(Handle, Handle)>,
    pub resource_selection_popup_active: bool,
    pub selected_resource_type: Seq<char>,
    pub available_resources: Seq<Seq<char>>,
}

impl View for PopupManager {
    type V = PopupManagerView;

    open spec fn view(&self) -> PopupManagerView {
        PopupManagerView {
            create_item_name: self.create_item_name@,
            error_message: self.error_message@,
            rename_input: self.rename_input@,
            scene_rename_scene: self.scene_rename_scene,
            entity_rename_entity: self.entity_rename_entity,
            create_popup_active: self.create_popup_active,
            create_item_type: self.create_item_type@,
            create_entity_popup_active: self.create_entity_popup_active,
            create_entity_name: self.create_entity_name@,
            manage_assets_entity: self.manage_assets_entity,
            manage_assets_popup_active: self.manage_assets_popup_active,
            resource_selection: self.resource_selection,
            resource_selection_popup_active: self.resource_selection_popup_active,
            selected_resource_type: self.selected_resource_type@,
            available_resources: text_views(self.available_resources@),
        }
    }
}

/// What pressing `Create` leads to: the popups, the editor, and whether the
/// project has to be saved.
pub struct CreateOutcome {
    pub popup: PopupManagerView,
    pub gui: GuiStateView,
    pub save: Option<SaveReason>,
}

impl PopupManagerView {
    /// No popup is open, and a scene would be made.
    pub open spec fn initial() -> PopupManagerView {
        PopupManagerView {
            create_item_name: Seq::empty(),
            error_message: Seq::empty(),
            rename_input: Seq::empty(),
            scene_rename_scene: None,
            entity_rename_entity: None,
            create_popup_active: false,
            create_item_type: "Scene"@,
            create_entity_popup_active: false,
            create_entity_name: Seq::empty(),
            manage_assets_entity: None,
            manage_assets_popup_active: false,
            resource_selection: None,
            resource_selection_popup_active: false,
            selected_resource_type: "Images"@,
            available_resources: Seq::empty(),
        }
    }

    pub open spec fn start_rename_scene(self, scene: Handle, name: Seq<char>) -> PopupManagerView {
        PopupManagerView { scene_rename_scene: Some(scene), rename_input: name, ..self }
    }

    pub open spec fn reset_rename_scene(self) -> PopupManagerView {
        PopupManagerView {
            scene_rename_scene: None,
            rename_input: Seq::empty(),
            error_message: Seq::empty(),
            ..self
        }
    }

    pub open spec fn start_rename_entity(self, scene: Handle, entity: Handle, name: Seq<char>) -> PopupManagerView {
        PopupManagerView { entity_rename_entity: Some((scene, entity)), rename_input: name, ..self }
    }

    pub open spec fn reset_rename(self) -> PopupManagerView {
        PopupManagerView {
            scene_rename_scene: None,
            entity_rename_entity: None,
            rename_input: Seq::empty(),
            error_message: Seq::empty(),
            ..self
        }
    }

    /// What the rename popup renames, if it is open: a scene goes before an
    /// entity.
    pub open spec fn rename_target(self) -> Option<RenameTarget> {
        match self.scene_rename_scene {
            Some(scene) => Some(RenameTarget { scene, entity: None }),
            None => match self.entity_rename_entity {
                Some((scene, entity)) => Some(RenameTarget { scene, entity: Some(entity) }),
                None => None,
            },
        }
    }

    pub open spec fn reset_create_popup(self) -> PopupManagerView {
        PopupManagerView {
            create_popup_active: false,
            create_item_name: Seq::empty(),
            error_message: Seq::empty(),
            ..self
        }
    }

    pub open spec fn with_error(self, message: Seq<char>) -> PopupManagerView {
        PopupManagerView { error_message: message, ..self }
    }

    /// The popups that a frame shows. The popups that work on scenes show
    /// only while there are scenes.
    pub open spec fn popup_plan(self, gui: GuiStateView) -> PopupPlan {
        PopupPlan {
            rename: self.rename_target(),
            create: self.create_popup_active,
            manage_assets: self.manage_assets_popup_active && gui.scene_manager is Some,
            resource_selection: self.resource_selection is Some && gui.scene_manager is Some,
        }
    }

    /// What renaming leads to: the name in the input, without the whitespace
    /// at its ends, goes to the entity or to the scene, the project is to be
    /// saved, and the popup closes. Without scenes only the popup closes.
    pub open spec fn rename_item(self, target: RenameTarget, gui: GuiStateView) -> CreateOutcome {
        let name = trimmed(self.rename_input);
        CreateOutcome {
            popup: self.reset_rename(),
            gui: match target.entity {
                Some(entity) => gui.rename_entity(target.scene, entity, name),
                None => gui.rename_scene(target.scene, name),
            },
            save: if gui.scene_manager is Some {
                Some(SaveReason::Renamed)
            } else {
                None
            },
        }
    }

    /// What asking for a scene leads to.
    pub open spec fn create_new_scene(self, gui: GuiStateView) -> CreateOutcome {
        if gui.scene_manager is None {
            CreateOutcome { popup: self.with_error(msg_no_manager()), gui, save: None }
        } else if is_blank(self.create_item_name) {
            CreateOutcome { popup: self.with_error(msg_scene_name_empty()), gui, save: None }
        } else {
            CreateOutcome {
                popup: self.reset_create_popup(),
                gui: gui.create_scene(trimmed(self.create_item_name)).unwrap(),
                save: Some(SaveReason::CreatedScene),
            }
        }
    }

    /// What asking for an entity of the kind `kind` leads to. The entity goes
    /// into the scene that is picked in the scene panel.
    pub open spec fn create_new_entity(self, gui: GuiStateView, kind: Seq<char>) -> CreateOutcome {
        if gui.scene_manager is None {
            CreateOutcome { popup: self.with_error(msg_no_manager()), gui, save: None }
        } else if is_blank(self.create_item_name) {
            CreateOutcome { popup: self.with_error(msg_entity_name_empty()), gui, save: None }
        } else {
            match gui.scene_panel_selected_item {
                SelectedItem::Scene(scene) => if !gui.has_scene(scene) {
                    CreateOutcome { popup: self.with_error(msg_scene_missing()), gui, save: None }
                } else {
                    CreateOutcome {
                        popup: self.reset_create_popup(),
                        gui: gui.create_entity(
                            scene,
                            kind,
                            trimmed(self.create_item_name),
                        ).unwrap(),
                        save: Some(SaveReason::CreatedEntity),
                    }
                },
                _ => CreateOutcome { popup: self.with_error(msg_select_scene()), gui, save: None },
            }
        }
    }

    /// What pressing `Create` leads to, by the type that is chosen, before
    /// the popup is closed.
    pub open spec fn dispatch_create(self, gui: GuiStateView) -> CreateOutcome {
        let t = self.create_item_type;
        if t == "Scene"@ {
            self.create_new_scene(gui)
        } else if t == "Entity"@ {
            self.create_new_entity(gui, "Empty"@)
        } else if t == "Camera"@ {
            self.create_new_entity(gui, "Camera"@)
        } else if t == "Physics"@ {
            self.create_new_entity(gui, "Physics"@)
        } else if template_of(t) is Some {
            self.create_new_entity(gui, t)
        } else {
            CreateOutcome { popup: self, gui, save: None }
        }
    }

    /// What pressing `Create` leads to. A blank name is refused before
    /// anything else. The popup closes where no message is left to show.
    pub open spec fn handle_create(self, gui: GuiStateView) -> CreateOutcome {
        if is_blank(self.create_item_name) {
            CreateOutcome { popup: self.with_error(msg_enter_name()), gui, save: None }
        } else {
            let out = self.dispatch_create(gui);
            if out.popup.error_message.len() == 0 {
                CreateOutcome { popup: out.popup.reset_create_popup(), ..out }
            } else {
                out
            }
        }
    }

    /// What a press in the rename popup leads to.
    pub open spec fn render_rename_popup(self, click: PopupClick, gui: GuiStateView) -> CreateOutcome {
        match self.rename_target() {
            None => CreateOutcome { popup: self, gui, save: None },
            Some(target) => match click {
                PopupClick::Confirm => self.rename_item(target, gui),
                PopupClick::Cancel => CreateOutcome { popup: self.reset_rename(), gui, save: None },
            },
        }
    }

    /// What a press in the create popup leads to.
    pub open spec fn render_create_popup(self, click: PopupClick, gui: GuiStateView) -> CreateOutcome {
        match click {
            PopupClick::Confirm => self.handle_create(gui),
            PopupClick::Cancel => CreateOutcome {
                popup: self.reset_create_popup(),
                gui,
                save: None,
            },
        }
    }

    /// The scenes after the path `path` was picked in the popup that
    /// attaches resources: the path is attached to the entity the popup
    /// works on, to the list that the chosen type stands for.
    pub open spec fn attach_selected(self, m: SceneManagerView, path: Seq<char>) -> SceneManagerView {
        match (self.resource_selection, resource_kind_of(self.selected_resource_type)) {
            (Some((scene, entity)), Some(kind)) => if m.has_entity(scene, entity) {
                m.with_entity(scene, m.scenes[scene].entities[entity].attach_resource(kind, path))
            } else {
                m
            },
            _ => m,
        }
    }

    /// The scenes after the resources at `places` were removed in the popup
    /// that manages assets. Places that are not in rising order or not in
    /// the list remove nothing.
    pub open spec fn remove_assets(
        self,
        m: SceneManagerView,
        kind: ResourceKind,
        places: Seq<usize>,
    ) -> SceneManagerView {
        match self.manage_assets_entity {
            Some((scene, entity)) => if m.has_entity(scene, entity) {
                match m.scenes[scene].entities[entity].detach_many(kind, places) {
                    Ok(after) => m.with_entity(scene, after),
                    Err(_) => m,
                }
            } else {
                m
            },
            None => m,
        }
    }
}

impl PopupManager {
    /// No popup is open, and a scene would be made.
    pub fn new() -> (p: PopupManager)
        ensures
            p@ == PopupManagerView::initial(),
    {
        let p = PopupManager {
            create_item_name: String::new(),
            error_message: String::new(),
            rename_input: String::new(),
            scene_rename_scene: None,
            entity_rename_entity: None,
            create_popup_active: false,
            create_item_type: "Scene".to_owned(),
            create_entity_popup_active: false,
            create_entity_name: String::new(),
            manage_assets_entity: None,
            manage_assets_popup_active: false,
            resource_selection: None,
            resource_selection_popup_active: false,
            selected_resource_type: "Images".to_owned(),
            available_resources: Vec::new(),
        };
        assert(p@.available_resources =~= Seq::empty());
        p
    }

    /// Opens the rename popup for a scene, with the name it has.
    pub fn start_rename_scene(&mut self, scene_id: Handle, current_name: String)
        ensures
            final(self)@ == old(self)@.start_rename_scene(scene_id, current_name@),
    {
        self.scene_rename_scene = Some(scene_id);
        self.rename_input = current_name;
    }

    /// Closes the rename popup of a scene.
    pub fn reset_rename_scene(&mut self)
        ensures
            final(self)@ == old(self)@.reset_rename_scene(),
    {
        self.scene_rename_scene = None;
        self.rename_input = String::new();
        self.error_message = String::new();
    }

    /// Opens the rename popup for an entity, with the name it has.
    pub fn start_rename_entity(&mut self, scene_id: Handle, entity_id: Handle, current_name: String)
        ensures
            final(self)@ == old(self)@.start_rename_entity(scene_id, entity_id, current_name@),
    {
        self.entity_rename_entity = Some((scene_id, entity_id));
        self.rename_input = current_name;
    }

    /// Closes the rename popup.
    pub fn reset_rename(&mut self)
        ensures
            final(self)@ == old(self)@.reset_rename(),
    {
        self.scene_rename_scene = None;
        self.entity_rename_entity = None;
        self.rename_input = String::new();
        self.error_message = String::new();
    }

    /// What the rename popup renames, if it is open.
    pub fn rename_target(&self) -> (t: Option<RenameTarget>)
        ensures
            t == self@.rename_target(),
    {
        match self.scene_rename_scene {
            Some(scene) => Some(RenameTarget { scene, entity: None }),
            None => match self.entity_rename_entity {
                Some((scene, entity)) => Some(RenameTarget { scene, entity: Some(entity) }),
                None => None,
            },
        }
    }

    /// Renames what the popup works on to the name in the input, and closes
    /// the popup. Says whether the project has to be saved.
    pub fn rename_item(&mut self, scene_id: Handle, entity_id: Option<Handle>, gui_state: &mut GuiState) -> (save:
        Option<SaveReason>)
        requires
            old(gui_state).wf(),
        ensures
            final(gui_state).wf(),
            ({
                let out = old(self)@.rename_item(
                    RenameTarget { scene: scene_id, entity: entity_id },
                    old(gui_state)@,
                );
                &&& final(self)@ == out.popup
                &&& final(gui_state)@ == out.gui
                &&& save == out.save
            }),
    {
        let mut save: Option<SaveReason> = None;
        if gui_state.scene_manager.is_some() {
            let new_name = trim(self.rename_input.as_str());
            match entity_id {
                Some(entity) => {
                    gui_state.rename_entity(scene_id, entity, new_name.as_str());
                },
                None => {
                    gui_state.rename_scene(scene_id, new_name.as_str());
                },
            }
            save = Some(SaveReason::Renamed);
        }
        self.reset_rename();
        save
    }

    /// The types of item that the create popup offers, in their order. The
    /// table of kinds has a row for `Camera` and none for `Physics`: an
    /// entity of the type `Physics` is made with nothing on it.
    pub fn item_types() -> (types: Vec<String>)
        ensures
            text_views(types@) == seq!["Scene"@, "Entity"@, "Camera"@, "Physics"@],
    {
        let mut types: Vec<String> = Vec::new();
        types.push("Scene".to_owned());
        types.push("Entity".to_owned());
        types.push("Camera".to_owned());
        types.push("Physics".to_owned());
        assert(text_views(types@) =~= seq!["Scene"@, "Entity"@, "Camera"@, "Physics"@]);
        types
    }

    /// Chooses the type of item to make.
    pub fn select_item_type(&mut self, item_type: &str)
        ensures
            final(self)@ == (PopupManagerView { create_item_type: item_type@, ..old(self)@ }),
    {
        self.create_item_type = item_type.to_owned();
    }

    /// Closes the create popup and clears what was typed.
    pub fn reset_create_popup(&mut self)
        ensures
            final(self)@ == old(self)@.reset_create_popup(),
    {
        self.create_popup_active = false;
        self.create_item_name = String::new();
        self.error_message = String::new();
    }

    /// Makes a scene of the name that was typed, and picks it. Says whether
    /// the project has to be saved.
    pub fn create_new_scene(&mut self, gui_state: &mut GuiState) -> (save: Option<SaveReason>)
        requires
            old(gui_state).wf(),
            !is_blank(old(self)@.create_item_name) ==> old(gui_state)@.has_room(),
        ensures
            final(gui_state).wf(),
            ({
                let out = old(self)@.create_new_scene(old(gui_state)@);
                &&& final(self)@ == out.popup
                &&& final(gui_state)@ == out.gui
                &&& save == out.save
            }),
    {
        if gui_state.scene_manager.is_none() {
            self.error_message = "Scene manager is not available.".to_owned();
            return None;
        }
        if is_blank_text(self.create_item_name.as_str()) {
            self.error_message = "Scene name cannot be empty.".to_owned();
            return None;
        }
        let name = trim(self.create_item_name.as_str());
        proof {
            lemma_trimmed_not_blank(self.create_item_name@);
        }
        match gui_state.create_scene(name.as_str()) {
            Ok(_) => {
                self.reset_create_popup();
                Some(SaveReason::CreatedScene)
            },
            Err(e) => {
                self.error_message = "Failed to create scene: ".to_owned().concat(
                    e.message().as_str(),
                );
                None
            },
        }
    }

    /// Makes an entity of the name that was typed in the scene that is
    /// picked in the scene panel, and picks the entity. Says whether the
    /// project has to be saved.
    pub fn create_new_entity(&mut self, gui_state: &mut GuiState, predefined_type: &str) -> (save:
        Option<SaveReason>)
        requires
            old(gui_state).wf(),
            !is_blank(old(self)@.create_item_name) ==> old(gui_state)@.has_room(),
        ensures
            final(gui_state).wf(),
            ({
                let out = old(self)@.create_new_entity(old(gui_state)@, predefined_type@);
                &&& final(self)@ == out.popup
                &&& final(gui_state)@ == out.gui
                &&& save == out.save
            }),
    {
        if gui_state.scene_manager.is_none() {
            self.error_message = "Scene manager is not available.".to_owned();
            return None;
        }
        if is_blank_text(self.create_item_name.as_str()) {
            self.error_message = "Entity name cannot be empty.".to_owned();
            return None;
        }
        let name = trim(self.create_item_name.as_str());
        let scene_id = match gui_state.scene_panel_selected_item {
            SelectedItem::Scene(scene_id) => scene_id,
            _ => {
                self.error_message = "Please select a scene first to add the entity.".to_owned();
                return None;
            },
        };
        let scene_there = match &gui_state.scene_manager {
            Some(m) => m.contains_scene(scene_id),
            None => false,
        };
        if !scene_there {
            self.error_message = "The selected scene could not be found.".to_owned();
            return None;
        }
        proof {
            lemma_trimmed_not_blank(self.create_item_name@);
        }
        match gui_state.create_entity(scene_id, predefined_type, name.as_str()) {
            Ok(_) => {
                self.reset_create_popup();
                Some(SaveReason::CreatedEntity)
            },
            Err(e) => {
                self.error_message = "Failed to create entity: ".to_owned().concat(
                    e.message().as_str(),
                );
                None
            },
        }
    }

    /// What pressing `Create` does: makes the scene or the entity that was
    /// asked for, and closes the popup where no message is left to show. Says
    /// whether the project has to be saved.
    pub fn handle_create(&mut self, gui_state: &mut GuiState) -> (save: Option<SaveReason>)
        requires
            old(gui_state).wf(),
            !is_blank(old(self)@.create_item_name) ==> old(gui_state)@.has_room(),
        ensures
            final(gui_state).wf(),
            ({
                let out = old(self)@.handle_create(old(gui_state)@);
                &&& final(self)@ == out.popup
                &&& final(gui_state)@ == out.gui
                &&& save == out.save
            }),
    {
        if is_blank_text(self.create_item_name.as_str()) {
            self.error_message = "Please select an item type and enter a valid name.".to_owned();
            return None;
        }
        let item_type = self.create_item_type.clone();
        let t = item_type.as_str();
        let save = if same_text(t, "Scene") {
            self.create_new_scene(gui_state)
        } else if same_text(t, "Entity") {
            self.create_new_entity(gui_state, "Empty")
        } else if same_text(t, "Camera") {
            self.create_new_entity(gui_state, "Camera")
        } else if same_text(t, "Physics") {
            self.create_new_entity(gui_state, "Physics")
        } else if is_predefined(t) {
            self.create_new_entity(gui_state, t)
        } else {
            None
        };
        if self.error_message.as_str().unicode_len() == 0 {
            self.reset_create_popup();
        }
        save
    }

    /// Takes a press in the rename popup: `Confirm` renames, `Cancel` closes
    /// the popup. While the popup is closed nothing happens. Says whether
    /// the project has to be saved.
    pub fn render_rename_popup(&mut self, click: PopupClick, gui_state: &mut GuiState) -> (save: Option<
        SaveReason,
    >)
        requires
            old(gui_state).wf(),
        ensures
            final(gui_state).wf(),
            ({
                let out = old(self)@.render_rename_popup(click, old(gui_state)@);
                &&& final(self)@ == out.popup
                &&& final(gui_state)@ == out.gui
                &&& save == out.save
            }),
    {
        match self.rename_target() {
            None => None,
            Some(target) => match click {
                PopupClick::Confirm => self.rename_item(target.scene, target.entity, gui_state),
                PopupClick::Cancel => {
                    self.reset_rename();
                    None
                },
            },
        }
    }

    /// Takes a press in the create popup: `Confirm` makes what was asked
    /// for, `Cancel` closes the popup. Says whether the project has to be
    /// saved.
    pub fn render_create_popup(&mut self, click: PopupClick, gui_state: &mut GuiState) -> (save: Option<
        SaveReason,
    >)
        requires
            old(gui_state).wf(),
            click == PopupClick::Confirm && !is_blank(old(self)@.create_item_name) ==> old(
                gui_state,
            )@.has_room(),
        ensures
            final(gui_state).wf(),
            ({
                let out = old(self)@.render_create_popup(click, old(gui_state)@);
                &&& final(self)@ == out.popup
                &&& final(gui_state)@ == out.gui
                &&& save == out.save
            }),
    {
        match click {
            PopupClick::Confirm => self.handle_create(gui_state),
            PopupClick::Cancel => {
                self.reset_create_popup();
                None
            },
        }
    }

    /// Which popups the frame shows.
    pub fn render_popups(&self, gui_state: &GuiState) -> (plan: PopupPlan)
        ensures
            plan == self@.popup_plan(gui_state@),
    {
        PopupPlan {
            rename: self.rename_target(),
            create: self.create_popup_active,
            manage_assets: self.manage_assets_popup_active && gui_state.scene_manager.is_some(),
            resource_selection: self.resource_selection.is_some()
                && gui_state.scene_manager.is_some(),
        }
    }

    /// The folder below the project in which the resources of the chosen
    /// type lie, as the names of the folders on the way.
    pub fn resource_folder(&self) -> (parts: Vec<String>)
        ensures
            text_views(parts@) == resource_folder(self@.selected_resource_type),
    {
        let t = self.selected_resource_type.as_str();
        let mut parts: Vec<String> = Vec::new();
        parts.push("assets".to_owned());
        if same_text(t, "Images") {
            parts.push("images".to_owned());
        } else if same_text(t, "Sounds") {
            parts.push("sounds".to_owned());
        } else if same_text(t, "Scripts") {
            parts.push("scripts".to_owned());
        }
        assert(text_views(parts@) =~= resource_folder(self@.selected_resource_type));
        parts
    }

    /// Takes the list of the resources that were found on disk.
    pub fn set_available_resources(&mut self, resources: Vec<String>)
        ensures
            final(self)@ == (PopupManagerView {
                available_resources: text_views(resources@),
                ..old(self)@
            }),
    {
        self.available_resources = resources;
    }

    /// Attaches the path that was picked to the entity that the popup works
    /// on. A path that is attached already stays once. Says whether the path
    /// was appended.
    pub fn attach_selected(&self, scene_manager: &mut SceneManager, path: &str) -> (added: bool)
        requires
            old(scene_manager).wf(),
        ensures
            final(scene_manager).wf(),
            final(scene_manager)@ == self@.attach_selected(old(scene_manager)@, path@),
            added == (final(scene_manager)@ != old(scene_manager)@),
    {
        let (scene_id, entity_id) = match self.resource_selection {
            Some(pair) => pair,
            None => {
                return false;
            },
        };
        let t = self.selected_resource_type.as_str();
        let kind = if same_text(t, "Images") {
            ResourceKind::Image
        } else if same_text(t, "Sounds") {
            ResourceKind::Sound
        } else {
            return false;
        };
        let ghost before = scene_manager@;
        proof {
            scene_manager.lemma_view_wf();
        }
        let added = match scene_manager.get_scene_mut(scene_id) {
            Err(_) => false,
            Ok(scene) => match scene.get_entity_mut(entity_id) {
                Err(_) => false,
                Ok(e) => e.attach_resource(kind, path),
            },
        };
        proof {
            if before.scenes.contains_key(scene_id) {
                let s = before.scenes[scene_id];
                if !added {
                    if s.entities.contains_key(entity_id) {
                        assert(s.entities.insert(entity_id, s.entities[entity_id])
                            =~= s.entities);
                    }
                    assert(before.scenes.insert(scene_id, s) =~= before.scenes);
                } else {
                    let e = s.entities[entity_id];
                    let e2 = e.attach_resource(kind, path@);
                    assert(e2.resources(kind).len() == e.resources(kind).len() + 1);
                    assert(e2 != e);
                    let m2 = scene_manager@;
                    assert(m2.scenes[scene_id].entities[entity_id] == e2);
                }
            }
        }
        added
    }

    /// Removes the resources at `places` from the entity that the popup
    /// works on, from the last place to the first. Says whether they were
    /// removed.
    pub fn remove_assets(&self, scene_manager: &mut SceneManager, kind: ResourceKind, places: &Vec<usize>) -> (removed:
        bool)
        requires
            old(scene_manager).wf(),
        ensures
            final(scene_manager).wf(),
            final(scene_manager)@ == self@.remove_assets(old(scene_manager)@, kind, places@),
            removed == (self@.manage_assets_entity matches Some((scene, entity)) && old(
                scene_manager,
            )@.has_entity(scene, entity) && old(scene_manager)@.scenes[scene].entities[entity].detach_many(
                kind,
                places@,
            ) is Ok),
    {
        let (scene_id, entity_id) = match self.manage_assets_entity {
            Some(pair) => pair,
            None => {
                return false;
            },
        };
        let ghost before = scene_manager@;
        let removed = match scene_manager.get_scene_mut(scene_id) {
            Err(_) => false,
            Ok(scene) => match scene.get_entity_mut(entity_id) {
                Err(_) => false,
                Ok(e) => e.detach_many(kind, places).is_ok(),
            },
        };
        proof {
            if before.scenes.contains_key(scene_id) && !removed {
                let s = before.scenes[scene_id];
                if s.entities.contains_key(entity_id) {
                    assert(s.entities.insert(entity_id, s.entities[entity_id]) =~= s.entities);
                }
                assert(before.scenes.insert(scene_id, s) =~= before.scenes);
            }
        }
        removed
    }

    /// One frame of the popup that attaches resources. While the popup works
    /// on no entity nothing happens. Else a listing of the folder that was
    /// read takes the place of the old one, and one that could not be read
    /// leaves the old one; the path that was picked, if one was, is
    /// attached; and the entity is forgotten once the window was closed.
    /// Says whether a path was appended.
    pub fn show_resource_selection_popup(
        &mut self,
        scene_manager: &mut SceneManager,
        listing: Option<Vec<String>>,
        picked: Option<&str>,
    ) -> (added: bool)
        requires
            old(scene_manager).wf(),
        ensures
            final(scene_manager).wf(),
            final(scene_manager)@ == match picked {
                Some(path) => old(self)@.attach_selected(old(scene_manager)@, path@),
                None => old(scene_manager)@,
            },
            added == (final(scene_manager)@ != old(scene_manager)@),
            final(self)@ == (PopupManagerView {
                resource_selection: if old(self)@.resource_selection_popup_active {
                    old(self)@.resource_selection
                } else {
                    None
                },
                available_resources: match listing {
                    Some(l) => if old(self)@.resource_selection is Some {
                        text_views(l@)
                    } else {
                        old(self)@.available_resources
                    },
                    None => old(self)@.available_resources,
                },
                ..old(self)@
            }),
    {
        if self.resource_selection.is_none() {
            return false;
        }
        if let Some(found) = listing {
            self.set_available_resources(found);
        }
        let added = match picked {
            Some(path) => self.attach_selected(scene_manager, path),
            None => false,
        };
        self.sync_resource_selection();
        added
    }

    /// One frame of the popup that manages assets: removes the images and
    /// then the sounds whose `Remove` was pressed, each list from its last
    /// place to its first.
    pub fn show_manage_assets_popup(
        &self,
        scene_manager: &mut SceneManager,
        images_to_remove: &Vec<usize>,
        sounds_to_remove: &Vec<usize>,
    )
        requires
            old(scene_manager).wf(),
        ensures
            final(scene_manager).wf(),
            final(scene_manager)@ == self@.remove_assets(
                self@.remove_assets(old(scene_manager)@, ResourceKind::Image, images_to_remove@),
                ResourceKind::Sound,
                sounds_to_remove@,
            ),
    {
        self.remove_assets(scene_manager, ResourceKind::Image, images_to_remove);
        self.remove_assets(scene_manager, ResourceKind::Sound, sounds_to_remove);
    }

    /// Opens the popup that manages the assets of an entity.
    pub fn start_manage_assets(&mut self, scene_id: Handle, entity_id: Handle)
        ensures
            final(self)@ == (PopupManagerView {
                manage_assets_entity: Some((scene_id, entity_id)),
                manage_assets_popup_active: true,
                ..old(self)@
            }),
    {
        self.manage_assets_entity = Some((scene_id, entity_id));
        self.manage_assets_popup_active = true;
    }

    /// Forgets the entity of the popup that attaches resources once its
    /// window was closed.
    pub fn sync_resource_selection(&mut self)
        ensures
            final(self)@ == (PopupManagerView {
                resource_selection: if old(self)@.resource_selection_popup_active {
                    old(self)@.resource_selection
                } else {
                    None
                },
                ..old(self)@
            }),
    {
        if !self.resource_selection_popup_active {
            self.resource_selection = None;
        }
    }
}

} // verus!
