pub mod entity_item;
pub mod popup;

use crate::gui::gui_state::{GuiState, GuiStateView, SaveReason, SelectedItem};
use crate::gui::scene_hierarchy::entity_item::{entity_rows_of, EntityItem, EntityRow};
use crate::listing::{entry_ids, entry_views, is_sorted, ListEntryView};
use crate::scene_manager::SceneManagerView;
use crate::gui::scene_hierarchy::popup::{
    msg_entity_name_empty, msg_enter_name, msg_no_manager, msg_scene_missing,
    msg_scene_name_empty, msg_select_scene, PopupClick, PopupManager, PopupManagerView,
};
use crate::handle::Handle;
use crate::predefined::{is_predefined, template_of};
use crate::text::{
    is_blank, is_blank_text, lemma_trimmed_not_blank, matches_filter, passes_filter, same_text,
    trim, trimmed,
};
use vstd::prelude::*;
use vstd::string::*;

verus! {

/// Whether a line of the scene panel is a scene or an entity.
#[derive(Clone, Copy, Debug, PartialEq, Eq, Structural, Hash)]
pub enum ItemKind {
    Scene,
    Entity,
}

/// What the user did in the list of the scene panel.
#[derive(Clone, Copy, Debug, PartialEq, Eq, Structural, Hash)]
pub enum HierarchyEvent {
    /// Nothing.
    Idle,
    /// Pressed `+`.
    OpenCreatePopup,
    /// Pressed the line of a scene.
    SelectScene(Handle),
    /// Pressed the line of an entity of a scene.
    SelectEntity(Handle, Handle),
    /// Chose `Rename` on a scene.
    RenameScene(Handle),
    /// Chose `Rename` on an entity of a scene.
    RenameEntity(Handle, Handle),
    /// Chose `Delete` on a scene.
    DeleteScene(Handle),
    /// Chose `Delete` on an entity of a scene.
    DeleteEntity(Handle, Handle),
}

/// One line of the scene panel for a scene, with the lines of its entities.
#[derive(Debug, PartialEq, Eq)]
pub struct SceneRow {
    pub id: Handle,
    pub name: String,
    pub entities: Vec<EntityRow>,
}

/// The lines of the scenes as lines of a listing.
pub open spec fn scene_entries(rows: Seq<SceneRow>) -> Seq<ListEntryView> {
    rows.map_values(|r: SceneRow| ListEntryView { id: r.id, name: r.name@ })
}

/// Whether `rows` are the lines that the panel shows for the scenes of
/// `manager` under the search `query`. Without scenes there is no line. Else
/// there is one line for each scene, in the order of a listing (by name,
/// letter case set aside, whatever the order of storage), each with the name
/// of its scene and with the lines of those of its entities that pass the
/// search. The search hides entities, never scenes.
pub open spec fn scene_rows_of(
    rows: Seq<SceneRow>,
    manager: Option<SceneManagerView>,
    query: Seq<char>,
) -> bool {
    match manager {
        None => rows.len() == 0,
        Some(m) => {
            &&& is_sorted(scene_entries(rows))
            &&& rows.len() == m.scenes.dom().len()
            &&& forall|h: Handle|
                m.scenes.contains_key(h) ==> #[trigger] entry_ids(scene_entries(rows)).contains(
                    h,
                )
            &&& forall|i: int|
                0 <= i < rows.len() ==> {
                    let row = #[trigger] rows[i];
                    &&& m.scenes.contains_key(row.id)
                    &&& row.name@ == m.scenes[row.id].name
                    &&& entity_rows_of(row.entities@, m.scenes[row.id], query)
                }
        },
    }
}

pub open spec fn msg_not_initialized() -> Seq<char> {
    "Scene manager is not initialized."@
}

pub open spec fn msg_invalid_type() -> Seq<char> {
    "Invalid item type selected."@
}

/// The message for a save that failed after something was made.
pub open spec fn msg_save_failed(reason: SaveReason, error: Seq<char>) -> Seq<char> {
    if reason == SaveReason::CreatedScene {
        "Error saving project after creating a scene: "@ + error
    } else {
        "Error saving project after creating an entity: "@ + error
    }
}

/// The scene panel: what is typed into it, what is picked in it, and its
/// popups.
#[derive(Debug)]
pub struct SceneHierarchy {
    pub search_query: String,
    pub show_create_popup: bool,
    pub create_item_type: String,
    pub create_item_name: String,
    pub selected_item: Option<(ItemKind, Handle)>,
    pub error_message: String,
    pub renaming_scene: Option<Handle>,
    pub renaming_entity: Option<(Handle, Handle)>,
    pub rename_input: String,
    pub popup_manager: PopupManager,
}

/// What a `SceneHierarchy` stands for.
pub struct SceneHierarchyView {
    pub search_query: Seq<char>,
    pub show_create_popup: bool,
    pub create_item_type: Seq<char>,
    pub create_item_name: Seq<char>,
    pub selected_item: Option<(ItemKind, Handle)>,
    pub error_message: Seq<char>,
    pub renaming_scene: Option<Handle>,
    pub renaming_entity: Option<(Handle, Handle)>,
    pub rename_input: Seq<char>,
    pub popup_manager: PopupManagerView,
}

impl View for SceneHierarchy {
    type V = SceneHierarchyView;

    open spec fn view(&self) -> SceneHierarchyView {
        SceneHierarchyView {
            search_query: self.search_query@,
            show_create_popup: self.show_create_popup,
            create_item_type: self.create_item_type@,
            create_item_name: self.create_item_name@,
            selected_item: self.selected_item,
            error_message: self.error_message@,
            renaming_scene: self.renaming_scene,
            renaming_entity: self.renaming_entity,
            rename_input: self.rename_input@,
            popup_manager: self.popup_manager@,
        }
    }
}

/// What a press in the scene panel leads to: the panel, the editor, and
/// whether the project has to be saved.
pub struct HierarchyOutcome {
    pub hierarchy: SceneHierarchyView,
    pub gui: GuiStateView,
    pub save: Option<SaveReason>,
}

impl SceneHierarchyView {
    /// The panel of an editor that has just started.
    pub open spec fn initial() -> SceneHierarchyView {
        SceneHierarchyView {
            search_query: Seq::empty(),
            show_create_popup: false,
            create_item_type: Seq::empty(),
            create_item_name: Seq::empty(),
            selected_item: None,
            error_message: Seq::empty(),
            renaming_scene: None,
            renaming_entity: None,
            rename_input: Seq::empty(),
            popup_manager: PopupManagerView::initial(),
        }
    }

    pub open spec fn with_error(self, message: Seq<char>) -> SceneHierarchyView {
        SceneHierarchyView { error_message: message, ..self }
    }

    /// A refusal: only the message changes.
    pub open spec fn refuse(self, gui: GuiStateView, message: Seq<char>) -> HierarchyOutcome {
        HierarchyOutcome { hierarchy: self.with_error(message), gui, save: None }
    }

    /// While the create popup is closed a scene is what would be made, unless
    /// another type was chosen.
    pub open spec fn ensure_default_item_type(self) -> SceneHierarchyView {
        if !self.show_create_popup && self.create_item_type.len() == 0 {
            SceneHierarchyView { create_item_type: "Scene"@, ..self }
        } else {
            self
        }
    }

    pub open spec fn is_scene_selected(self, scene: Handle) -> bool {
        self.selected_item == Some((ItemKind::Scene, scene))
    }

    pub open spec fn is_entity_selected(self, entity: Handle) -> bool {
        self.selected_item == Some((ItemKind::Entity, entity))
    }

    /// What asking for a scene leads to.
    pub open spec fn create_new_scene(self, gui: GuiStateView) -> HierarchyOutcome {
        if gui.scene_manager is None {
            self.refuse(gui, msg_no_manager())
        } else if is_blank(self.create_item_name) {
            self.refuse(gui, msg_scene_name_empty())
        } else {
            HierarchyOutcome {
                hierarchy: SceneHierarchyView {
                    selected_item: Some(
                        (ItemKind::Scene, gui.scene_manager.unwrap().next_handle()),
                    ),
                    ..self
                },
                gui: GuiStateView {
                    scene_panel_selected_item: gui.scene_panel_selected_item,
                    ..gui.create_scene(trimmed(self.create_item_name)).unwrap()
                },
                save: Some(SaveReason::CreatedScene),
            }
        }
    }

    /// What asking for an entity of the type `entity_type` leads to. The
    /// entity goes into the scene that is picked in the panel.
    pub open spec fn create_new_entity(self, entity_type: Seq<char>, gui: GuiStateView) -> HierarchyOutcome {
        if gui.scene_manager is None {
            self.refuse(gui, msg_no_manager())
        } else if is_blank(self.create_item_name) {
            self.refuse(gui, msg_entity_name_empty())
        } else {
            match self.selected_item {
                Some((ItemKind::Scene, scene)) => if !gui.has_scene(scene) {
                    self.refuse(gui, msg_scene_missing())
                } else {
                    HierarchyOutcome {
                        hierarchy: SceneHierarchyView {
                            selected_item: Some(
                                (
                                    ItemKind::Entity,
                                    gui.scene_manager.unwrap().scenes[scene].next_handle(),
                                ),
                            ),
                            ..self
                        },
                        gui: GuiStateView {
                            scene_panel_selected_item: gui.scene_panel_selected_item,
                            ..gui.create_entity(
                                scene,
                                entity_type,
                                trimmed(self.create_item_name),
                            ).unwrap()
                        },
                        save: Some(SaveReason::CreatedEntity),
                    }
                },
                _ => self.refuse(gui, msg_select_scene()),
            }
        }
    }

    /// What pressing `Create` leads to.
    pub open spec fn confirm_create(self, gui: GuiStateView) -> HierarchyOutcome {
        let t = self.create_item_type;
        if is_blank(self.create_item_name) {
            self.refuse(gui, msg_enter_name())
        } else if gui.scene_manager is None {
            self.refuse(gui, msg_not_initialized())
        } else if t == "Scene"@ {
            self.create_new_scene(gui)
        } else if t == "Entity"@ {
            self.create_new_entity("Entity"@, gui)
        } else if template_of(t) is Some {
            self.create_new_entity(t, gui)
        } else {
            self.refuse(gui, msg_invalid_type())
        }
    }

    pub open spec fn cancel_create(self) -> SceneHierarchyView {
        SceneHierarchyView {
            show_create_popup: false,
            create_item_name: Seq::empty(),
            error_message: Seq::empty(),
            ..self
        }
    }

    /// The panel after the save that followed a press has ended. After a
    /// scene or an entity was made, a save that failed leaves its message and
    /// the popup open; one that went well closes the popup. After anything
    /// else the panel stays as it is.
    pub open spec fn save_finished(self, reason: SaveReason, result: Result<(), Seq<char>>) -> SceneHierarchyView {
        if reason == SaveReason::CreatedScene || reason == SaveReason::CreatedEntity {
            match result {
                Ok(()) => SceneHierarchyView {
                    error_message: Seq::empty(),
                    show_create_popup: false,
                    ..self
                },
                Err(error) => SceneHierarchyView {
                    error_message: msg_save_failed(reason, error),
                    show_create_popup: self.show_create_popup && msg_save_failed(
                        reason,
                        error,
                    ).len() != 0,
                    ..self
                },
            }
        } else {
            self
        }
    }

    /// What deleting the scene `scene` leads to. A pick of the panel that
    /// named the scene or one of its entities is cleared with it.
    pub open spec fn delete_scene(self, scene: Handle, gui: GuiStateView) -> HierarchyOutcome {
        if gui.has_scene(scene) {
            let dangling = match self.selected_item {
                Some((ItemKind::Scene, s)) => s == scene,
                Some((ItemKind::Entity, e)) => gui.has_entity(scene, e),
                None => false,
            };
            HierarchyOutcome {
                hierarchy: SceneHierarchyView {
                    selected_item: if dangling {
                        None
                    } else {
                        self.selected_item
                    },
                    ..self
                },
                gui: gui.delete_scene(scene),
                save: Some(SaveReason::DeletedScene),
            }
        } else {
            HierarchyOutcome { hierarchy: self, gui, save: None }
        }
    }

    /// What deleting the entity `entity` of `scene` leads to. A pick of the
    /// panel that named the entity is cleared with it.
    pub open spec fn delete_entity(self, scene: Handle, entity: Handle, gui: GuiStateView) -> HierarchyOutcome {
        if gui.has_entity(scene, entity) {
            HierarchyOutcome {
                hierarchy: SceneHierarchyView {
                    selected_item: if self.is_entity_selected(entity) {
                        None
                    } else {
                        self.selected_item
                    },
                    ..self
                },
                gui: gui.delete_entity(scene, entity),
                save: Some(SaveReason::DeletedEntity),
            }
        } else {
            HierarchyOutcome { hierarchy: self, gui, save: None }
        }
    }

    /// What one frame of the list leads to. `+` opens the create popup.
    /// Anything else first sets the type of item to make to its default; a
    /// press on a line picks it, `Rename` opens the rename popup with the
    /// name that the item has, and `Delete` deletes.
    pub open spec fn show(self, event: HierarchyEvent, gui: GuiStateView) -> HierarchyOutcome {
        let h = self.ensure_default_item_type();
        let m = gui.scene_manager;
        match event {
            HierarchyEvent::Idle => HierarchyOutcome { hierarchy: h, gui, save: None },
            HierarchyEvent::OpenCreatePopup => HierarchyOutcome {
                hierarchy: SceneHierarchyView { show_create_popup: true, ..self },
                gui,
                save: None,
            },
            HierarchyEvent::SelectScene(scene) => HierarchyOutcome {
                hierarchy: SceneHierarchyView {
                    selected_item: Some((ItemKind::Scene, scene)),
                    ..h
                },
                gui: GuiStateView { selected_item: SelectedItem::Scene(scene), ..gui },
                save: None,
            },
            HierarchyEvent::SelectEntity(scene, entity) => HierarchyOutcome {
                hierarchy: SceneHierarchyView {
                    selected_item: Some((ItemKind::Entity, entity)),
                    ..h
                },
                gui: GuiStateView { selected_item: SelectedItem::Entity(scene, entity), ..gui },
                save: None,
            },
            HierarchyEvent::RenameScene(scene) => HierarchyOutcome {
                hierarchy: if gui.has_scene(scene) {
                    SceneHierarchyView {
                        renaming_scene: Some(scene),
                        rename_input: m.unwrap().scenes[scene].name,
                        ..h
                    }
                } else {
                    h
                },
                gui,
                save: None,
            },
            HierarchyEvent::RenameEntity(scene, entity) => HierarchyOutcome {
                hierarchy: if gui.has_entity(scene, entity) {
                    SceneHierarchyView {
                        renaming_entity: Some((scene, entity)),
                        rename_input: m.unwrap().scenes[scene].entities[entity].name,
                        ..h
                    }
                } else {
                    h
                },
                gui,
                save: None,
            },
            HierarchyEvent::DeleteScene(scene) => h.delete_scene(scene, gui),
            HierarchyEvent::DeleteEntity(scene, entity) => h.delete_entity(scene, entity, gui),
        }
    }

    /// What a press in the create popup leads to.
    pub open spec fn render_create_popup(self, click: PopupClick, gui: GuiStateView) -> HierarchyOutcome {
        match click {
            PopupClick::Confirm => self.confirm_create(gui),
            PopupClick::Cancel => HierarchyOutcome {
                hierarchy: self.cancel_create(),
                gui,
                save: None,
            },
        }
    }

    /// What a press in the rename popup leads to.
    pub open spec fn open_rename_popup(
        self,
        click: PopupClick,
        scene: Handle,
        entity: Option<Handle>,
        gui: GuiStateView,
    ) -> HierarchyOutcome {
        match click {
            PopupClick::Confirm => self.confirm_rename(scene, entity, gui),
            PopupClick::Cancel => HierarchyOutcome {
                hierarchy: self.cancel_rename(),
                gui,
                save: None,
            },
        }
    }

    pub open spec fn cancel_rename(self) -> SceneHierarchyView {
        SceneHierarchyView {
            renaming_scene: None,
            renaming_entity: None,
            rename_input: Seq::empty(),
            ..self
        }
    }

    /// What pressing `Rename` leads to: the name in the input, without the
    /// whitespace at its ends, goes to the entity or to the scene, the
    /// project is to be saved, and the popup closes.
    pub open spec fn confirm_rename(self, scene: Handle, entity: Option<Handle>, gui: GuiStateView) -> HierarchyOutcome {
        let name = trimmed(self.rename_input);
        HierarchyOutcome {
            hierarchy: self.cancel_rename(),
            gui: match entity {
                Some(e) => gui.rename_entity(scene, e, name),
                None => gui.rename_scene(scene, name),
            },
            save: if gui.scene_manager is Some {
                Some(SaveReason::Renamed)
            } else {
                None
            },
        }
    }
}

impl SceneHierarchy {
    /// The panel of an editor that has just started.
    pub fn new() -> (h: SceneHierarchy)
        ensures
            h@ == SceneHierarchyView::initial(),
    {
        SceneHierarchy {
            search_query: String::new(),
            show_create_popup: false,
            create_item_type: String::new(),
            create_item_name: String::new(),
            selected_item: None,
            error_message: String::new(),
            renaming_scene: None,
            renaming_entity: None,
            rename_input: String::new(),
            popup_manager: PopupManager::new(),
        }
    }

    /// Opens the create popup.
    pub fn open_create_popup(&mut self)
        ensures
            final(self)@ == (SceneHierarchyView { show_create_popup: true, ..old(self)@ }),
    {
        self.show_create_popup = true;
    }

    /// Sets the type of item to make to a scene while nothing else was
    /// chosen and the create popup is closed.
    pub fn ensure_default_item_type(&mut self)
        ensures
            final(self)@ == old(self)@.ensure_default_item_type(),
    {
        if !self.show_create_popup && self.create_item_type.as_str().unicode_len() == 0 {
            self.create_item_type = "Scene".to_owned();
        }
    }

    /// Chooses the type of item to make.
    pub fn select_item_type(&mut self, item_type: &str)
        ensures
            final(self)@ == (SceneHierarchyView { create_item_type: item_type@, ..old(self)@ }),
    {
        self.create_item_type = item_type.to_owned();
    }

    /// Whether the line of the scene `scene` is the one that is picked.
    pub fn is_scene_selected(&self, scene: Handle) -> (b: bool)
        ensures
            b == self@.is_scene_selected(scene),
    {
        match self.selected_item {
            Some((ItemKind::Scene, s)) => s == scene,
            _ => false,
        }
    }

    /// Whether the line of the entity `entity` is the one that is picked.
    pub fn is_entity_selected(&self, entity: Handle) -> (b: bool)
        ensures
            b == self@.is_entity_selected(entity),
    {
        match self.selected_item {
            Some((ItemKind::Entity, e)) => e == entity,
            _ => false,
        }
    }

    /// Picks a scene.
    pub fn select_scene(&mut self, scene: Handle, gui_state: &mut GuiState)
        ensures
            final(self)@ == (SceneHierarchyView {
                selected_item: Some((ItemKind::Scene, scene)),
                ..old(self)@
            }),
            final(gui_state)@ == (GuiStateView {
                selected_item: SelectedItem::Scene(scene),
                ..old(gui_state)@
            }),
            old(gui_state).wf() ==> final(gui_state).wf(),
    {
        self.selected_item = Some((ItemKind::Scene, scene));
        gui_state.selected_item = SelectedItem::Scene(scene);
    }

    /// Picks an entity of a scene.
    pub fn select_entity(&mut self, scene: Handle, entity: Handle, gui_state: &mut GuiState)
        ensures
            final(self)@ == (SceneHierarchyView {
                selected_item: Some((ItemKind::Entity, entity)),
                ..old(self)@
            }),
            final(gui_state)@ == (GuiStateView {
                selected_item: SelectedItem::Entity(scene, entity),
                ..old(gui_state)@
            }),
            old(gui_state).wf() ==> final(gui_state).wf(),
    {
        self.selected_item = Some((ItemKind::Entity, entity));
        gui_state.selected_item = SelectedItem::Entity(scene, entity);
    }

    /// Opens the rename popup for a scene, with the name it has.
    pub fn begin_rename_scene(&mut self, scene: Handle, name: &str)
        ensures
            final(self)@ == (SceneHierarchyView {
                renaming_scene: Some(scene),
                rename_input: name@,
                ..old(self)@
            }),
    {
        self.renaming_scene = Some(scene);
        self.rename_input = name.to_owned();
    }

    /// Opens the rename popup for an entity, with the name it has.
    pub fn begin_rename_entity(&mut self, scene: Handle, entity: Handle, name: &str)
        ensures
            final(self)@ == (SceneHierarchyView {
                renaming_entity: Some((scene, entity)),
                rename_input: name@,
                ..old(self)@
            }),
    {
        self.renaming_entity = Some((scene, entity));
        self.rename_input = name.to_owned();
    }

    /// Whether an entity of that name shows under the search that is typed.
    pub fn entity_visible(&self, name: &str) -> (b: bool)
        ensures
            b == passes_filter(name@, self@.search_query),
    {
        matches_filter(name, self.search_query.as_str())
    }

    /// Makes a scene of the name that was typed and picks it. Says whether
    /// the project has to be saved.
    pub fn create_new_scene(&mut self, gui_state: &mut GuiState) -> (save: Option<SaveReason>)
        requires
            old(gui_state).wf(),
            !is_blank(old(self)@.create_item_name) ==> old(gui_state)@.has_room(),
        ensures
            final(gui_state).wf(),
            ({
                let out = old(self)@.create_new_scene(old(gui_state)@);
                &&& final(self)@ == out.hierarchy
                &&& final(gui_state)@ == out.gui
                &&& save == out.save
            }),
    {
        if gui_state.scene_manager.is_none() {
            self.error_message = "Scene manager is not available.".to_owned();
            return None;
        }
        if is_blank_text(self.create_item_name.as_str()) {
            self.error_message = "Scene name cannot be empty.".to_owned();
            return None;
        }
        let name = trim(self.create_item_name.as_str());
        let panel_pick = gui_state.scene_panel_selected_item;
        proof {
            lemma_trimmed_not_blank(self.create_item_name@);
        }
        match gui_state.create_scene(name.as_str()) {
            Ok(id) => {
                gui_state.scene_panel_selected_item = panel_pick;
                self.selected_item = Some((ItemKind::Scene, id));
                Some(SaveReason::CreatedScene)
            },
            Err(_) => {
                self.error_message = "Scene name cannot be empty.".to_owned();
                None
            },
        }
    }

    /// Makes an entity of the name that was typed in the scene that is
    /// picked, gives it the attributes of its type, and picks it. Says
    /// whether the project has to be saved.
    pub fn create_new_entity(&mut self, entity_type: &str, gui_state: &mut GuiState) -> (save: Option<
        SaveReason,
    >)
        requires
            old(gui_state).wf(),
            !is_blank(old(self)@.create_item_name) ==> old(gui_state)@.has_room(),
        ensures
            final(gui_state).wf(),
            ({
                let out = old(self)@.create_new_entity(entity_type@, old(gui_state)@);
                &&& final(self)@ == out.hierarchy
                &&& final(gui_state)@ == out.gui
                &&& save == out.save
            }),
    {
        if gui_state.scene_manager.is_none() {
            self.error_message = "Scene manager is not available.".to_owned();
            return None;
        }
        if is_blank_text(self.create_item_name.as_str()) {
            self.error_message = "Entity name cannot be empty.".to_owned();
            return None;
        }
        let name = trim(self.create_item_name.as_str());
        let scene_id = match self.selected_item {
            Some((ItemKind::Scene, scene_id)) => scene_id,
            _ => {
                self.error_message = "Please select a scene first to add the entity.".to_owned();
                return None;
            },
        };
        let scene_there = match &gui_state.scene_manager {
            Some(m) => m.contains_scene(scene_id),
            None => false,
        };
        if !scene_there {
            self.error_message = "The selected scene could not be found.".to_owned();
            return None;
        }
        let panel_pick = gui_state.scene_panel_selected_item;
        proof {
            lemma_trimmed_not_blank(self.create_item_name@);
        }
        match gui_state.create_entity(scene_id, entity_type, name.as_str()) {
            Ok(id) => {
                gui_state.scene_panel_selected_item = panel_pick;
                self.selected_item = Some((ItemKind::Entity, id));
                Some(SaveReason::CreatedEntity)
            },
            Err(_) => {
                self.error_message = "Entity name cannot be empty.".to_owned();
                None
            },
        }
    }

    /// What pressing `Create` does. Says whether the project has to be
    /// saved; the popup closes once the save has gone well.
    pub fn confirm_create(&mut self, gui_state: &mut GuiState) -> (save: Option<SaveReason>)
        requires
            old(gui_state).wf(),
            !is_blank(old(self)@.create_item_name) ==> old(gui_state)@.has_room(),
        ensures
            final(gui_state).wf(),
            ({
                let out = old(self)@.confirm_create(old(gui_state)@);
                &&& final(self)@ == out.hierarchy
                &&& final(gui_state)@ == out.gui
                &&& save == out.save
            }),
    {
        if is_blank_text(self.create_item_name.as_str()) {
            self.error_message = "Please select an item type and enter a valid name.".to_owned();
            return None;
        }
        if gui_state.scene_manager.is_none() {
            self.error_message = "Scene manager is not initialized.".to_owned();
            return None;
        }
        let item_type = self.create_item_type.clone();
        let t = item_type.as_str();
        if same_text(t, "Scene") {
            self.create_new_scene(gui_state)
        } else if same_text(t, "Entity") {
            self.create_new_entity("Entity", gui_state)
        } else if is_predefined(t) {
            self.create_new_entity(t, gui_state)
        } else {
            self.error_message = "Invalid item type selected.".to_owned();
            None
        }
    }

    /// Closes the create popup and clears what was typed.
    pub fn cancel_create(&mut self)
        ensures
            final(self)@ == old(self)@.cancel_create(),
    {
        self.show_create_popup = false;
        self.create_item_name = String::new();
        self.error_message = String::new();
    }

    /// Takes the end of the save that followed a press.
    pub fn save_finished(&mut self, reason: SaveReason, result: Result<(), String>)
        ensures
            final(self)@ == old(self)@.save_finished(
                reason,
                match result {
                    Ok(()) => Ok(()),
                    Err(e) => Err(e@),
                },
            ),
    {
        let prefix = match reason {
            SaveReason::CreatedScene => "Error saving project after creating a scene: ",
            SaveReason::CreatedEntity => "Error saving project after creating an entity: ",
            _ => {
                return ;
            },
        };
        match result {
            Ok(()) => {
                self.error_message = String::new();
            },
            Err(error) => {
                self.error_message = prefix.to_owned().concat(error.as_str());
            },
        }
        if self.error_message.as_str().unicode_len() == 0 {
            self.show_create_popup = false;
        }
    }

    /// Deletes a scene, and clears the picks that named it or one of its
    /// entities. Says whether the project has to be saved.
    pub fn delete_scene(&mut self, scene_id: Handle, gui_state: &mut GuiState) -> (save: Option<
        SaveReason,
    >)
        requires
            old(gui_state).wf(),
        ensures
            final(gui_state).wf(),
            ({
                let out = old(self)@.delete_scene(scene_id, old(gui_state)@);
                &&& final(self)@ == out.hierarchy
                &&& final(gui_state)@ == out.gui
                &&& save == out.save
            }),
    {
        let dangling = match self.selected_item {
            Some((ItemKind::Scene, s)) => s == scene_id,
            Some((ItemKind::Entity, e)) => match &gui_state.scene_manager {
                Some(m) => match m.get_scene(scene_id) {
                    Ok(s) => s.contains_entity(e),
                    Err(_) => false,
                },
                None => false,
            },
            None => false,
        };
        if gui_state.delete_scene(scene_id) {
            if dangling {
                self.selected_item = None;
            }
            Some(SaveReason::DeletedScene)
        } else {
            None
        }
    }

    /// Deletes an entity, and clears the picks that named it. Says whether
    /// the project has to be saved.
    pub fn delete_entity(&mut self, scene_id: Handle, entity_id: Handle, gui_state: &mut GuiState) -> (save:
        Option<SaveReason>)
        requires
            old(gui_state).wf(),
        ensures
            final(gui_state).wf(),
            ({
                let out = old(self)@.delete_entity(scene_id, entity_id, old(gui_state)@);
                &&& final(self)@ == out.hierarchy
                &&& final(gui_state)@ == out.gui
                &&& save == out.save
            }),
    {
        if gui_state.delete_entity(scene_id, entity_id) {
            if self.is_entity_selected(entity_id) {
                self.selected_item = None;
            }
            Some(SaveReason::DeletedEntity)
        } else {
            None
        }
    }

    /// Renames a scene or an entity to the name in the input, and closes the
    /// rename popup. Says whether the project has to be saved.
    pub fn confirm_rename(&mut self, scene_id: Handle, entity_id: Option<Handle>, gui_state: &mut GuiState) -> (save:
        Option<SaveReason>)
        requires
            old(gui_state).wf(),
        ensures
            final(gui_state).wf(),
            ({
                let out = old(self)@.confirm_rename(scene_id, entity_id, old(gui_state)@);
                &&& final(self)@ == out.hierarchy
                &&& final(gui_state)@ == out.gui
                &&& save == out.save
            }),
    {
        let mut save: Option<SaveReason> = None;
        if gui_state.scene_manager.is_some() {
            let new_name = trim(self.rename_input.as_str());
            match entity_id {
                Some(entity) => {
                    gui_state.rename_entity(scene_id, entity, new_name.as_str());
                },
                None => {
                    gui_state.rename_scene(scene_id, new_name.as_str());
                },
            }
            save = Some(SaveReason::Renamed);
        }
        self.cancel_rename();
        save
    }

    /// The lines that the panel shows: the scenes by name, and below each
    /// scene those of its entities that pass the search, by name.
    pub fn rows(&self, gui_state: &GuiState) -> (rows: Vec<SceneRow>)
        requires
            gui_state.wf(),
        ensures
            scene_rows_of(rows@, gui_state@.scene_manager, self@.search_query),
    {
        let mut rows: Vec<SceneRow> = Vec::new();
        let m = match &gui_state.scene_manager {
            Some(m) => m,
            None => {
                return rows;
            },
        };
        let list = m.list_scene();
        let ghost all = entry_views(list@);
        let ghost query = self@.search_query;
        let mut i: usize = 0;
        while i < list.len()
            invariant
                i <= list.len(),
                m.wf(),
                query == self@.search_query,
                all == entry_views(list@),
                forall|k: int|
                    0 <= k < list@.len() ==> m@.scenes.contains_key((#[trigger] list@[k]).id)
                        && list@[k].name@ == m@.scenes[list@[k].id].name,
                rows@.len() == i,
                forall|j: int|
                    0 <= j < i ==> {
                        let row = #[trigger] rows@[j];
                        &&& scene_entries(rows@)[j] == all[j]
                        &&& entity_rows_of(row.entities@, m@.scenes[row.id], query)
                    },
            decreases list.len() - i,
        {
            let entry = &list[i];
            assert(all[i as int] == entry@);
            let entities = match m.get_scene(entry.id) {
                Ok(scene) => EntityItem::show_entities(scene, self.search_query.as_str()),
                Err(_) => Vec::new(),
            };
            let ghost before = rows@;
            rows.push(SceneRow { id: entry.id, name: entry.name.clone(), entities });
            proof {
                assert forall|j: int| 0 <= j < i + 1 implies {
                    let row = #[trigger] rows@[j];
                    &&& scene_entries(rows@)[j] == all[j]
                    &&& entity_rows_of(row.entities@, m@.scenes[row.id], query)
                } by {
                    if j < i {
                        assert(rows@[j] == before[j]);
                        assert(scene_entries(before)[j] == all[j]);
                    }
                }
            }
            i += 1;
        }
        proof {
            assert(scene_entries(rows@) =~= all);
            assert forall|j: int| 0 <= j < rows@.len() implies {
                let row = #[trigger] rows@[j];
                &&& m@.scenes.contains_key(row.id)
                &&& row.name@ == m@.scenes[row.id].name
                &&& entity_rows_of(row.entities@, m@.scenes[row.id], query)
            } by {
                assert(scene_entries(rows@)[j] == all[j]);
                assert(all[j] == list@[j]@);
            }
        }
        rows
    }

    /// One frame of the list of the scene panel: takes what the user did,
    /// and hands out the lines that the panel shows after it. Says whether
    /// the project has to be saved.
    pub fn show(&mut self, event: HierarchyEvent, gui_state: &mut GuiState) -> (out: (
        Option<SaveReason>,
        Vec<SceneRow>,
    ))
        requires
            old(gui_state).wf(),
        ensures
            final(gui_state).wf(),
            ({
                let after = old(self)@.show(event, old(gui_state)@);
                &&& final(self)@ == after.hierarchy
                &&& final(gui_state)@ == after.gui
                &&& out.0 == after.save
            }),
            scene_rows_of(out.1@, final(gui_state)@.scene_manager, final(self)@.search_query),
    {
        let save = self.handle_event(event, gui_state);
        let rows = self.rows(gui_state);
        (save, rows)
    }

    /// Takes what the user did in the list of the scene panel.
    fn handle_event(&mut self, event: HierarchyEvent, gui_state: &mut GuiState) -> (save: Option<
        SaveReason,
    >)
        requires
            old(gui_state).wf(),
        ensures
            final(gui_state).wf(),
            ({
                let out = old(self)@.show(event, old(gui_state)@);
                &&& final(self)@ == out.hierarchy
                &&& final(gui_state)@ == out.gui
                &&& save == out.save
            }),
    {
        if let HierarchyEvent::OpenCreatePopup = event {
            self.open_create_popup();
            return None;
        }
        self.ensure_default_item_type();
        match event {
            HierarchyEvent::Idle => None,
            HierarchyEvent::OpenCreatePopup => None,
            HierarchyEvent::SelectScene(scene) => {
                self.select_scene(scene, gui_state);
                None
            },
            HierarchyEvent::SelectEntity(scene, entity) => {
                self.select_entity(scene, entity, gui_state);
                None
            },
            HierarchyEvent::RenameScene(scene) => {
                if let Some(m) = &gui_state.scene_manager {
                    if let Ok(s) = m.get_scene(scene) {
                        self.begin_rename_scene(scene, s.name().as_str());
                    }
                }
                None
            },
            HierarchyEvent::RenameEntity(scene, entity) => {
                if let Some(m) = &gui_state.scene_manager {
                    if let Ok(s) = m.get_scene(scene) {
                        if let Ok(e) = s.get_entity(entity) {
                            self.begin_rename_entity(scene, entity, e.name().as_str());
                        }
                    }
                }
                None
            },
            HierarchyEvent::DeleteScene(scene) => self.delete_scene(scene, gui_state),
            HierarchyEvent::DeleteEntity(scene, entity) => self.delete_entity(
                scene,
                entity,
                gui_state,
            ),
        }
    }

    /// Takes a press in the create popup: `Confirm` makes what was asked
    /// for, `Cancel` closes the popup. Says whether the project has to be
    /// saved.
    pub fn render_create_popup(&mut self, click: PopupClick, gui_state: &mut GuiState) -> (save: Option<
        SaveReason,
    >)
        requires
            old(gui_state).wf(),
            click == PopupClick::Confirm && !is_blank(old(self)@.create_item_name)
                ==> old(gui_state)@.has_room(),
        ensures
            final(gui_state).wf(),
            ({
                let out = old(self)@.render_create_popup(click, old(gui_state)@);
                &&& final(self)@ == out.hierarchy
                &&& final(gui_state)@ == out.gui
                &&& save == out.save
            }),
    {
        match click {
            PopupClick::Confirm => self.confirm_create(gui_state),
            PopupClick::Cancel => {
                self.cancel_create();
                None
            },
        }
    }

    /// Takes a press in the rename popup of a scene or of an entity:
    /// `Confirm` renames, `Cancel` closes the popup. Says whether the project
    /// has to be saved.
    pub fn open_rename_popup(
        &mut self,
        click: PopupClick,
        scene_id: Handle,
        entity_id: Option<Handle>,
        gui_state: &mut GuiState,
    ) -> (save: Option<SaveReason>)
        requires
            old(gui_state).wf(),
        ensures
            final(gui_state).wf(),
            ({
                let out = old(self)@.open_rename_popup(click, scene_id, entity_id, old(gui_state)@);
                &&& final(self)@ == out.hierarchy
                &&& final(gui_state)@ == out.gui
                &&& save == out.save
            }),
    {
        match click {
            PopupClick::Confirm => self.confirm_rename(scene_id, entity_id, gui_state),
            PopupClick::Cancel => {
                self.cancel_rename();
                None
            },
        }
    }

    /// Closes the rename popup.
    pub fn cancel_rename(&mut self)
        ensures
            final(self)@ == old(self)@.cancel_rename(),
    {
        self.renaming_scene = None;
        self.renaming_entity = None;
        self.rename_input = String::new();
    }
}

} // verus!
