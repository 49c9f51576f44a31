use crate::error::SceneError;
use crate::handle::Handle;
use crate::predefined::{find_template, template_of};
use crate::project::{LoadedProject, ProjectMetadata, ProjectMetadataView};
use crate::scene_manager::{SceneManager, SceneManagerView};
use vstd::prelude::*;
use vstd::string::*;

verus! {

/// What the user has picked: nothing, a scene, or an entity of a scene.
#[derive(Clone, Copy, Debug, PartialEq, Eq, Structural, Hash)]
pub enum SelectedItem {
    Nothing,
    Scene(Handle),
    Entity(Handle, Handle),
}

impl SelectedItem {
    /// Whether the pick is the scene `scene` or an entity of it.
    pub open spec fn spec_refers_to_scene(self, scene: Handle) -> bool {
        match self {
            SelectedItem::Nothing => false,
            SelectedItem::Scene(s) => s == scene,
            SelectedItem::Entity(s, _) => s == scene,
        }
    }

    #[verifier::when_used_as_spec(spec_refers_to_scene)]
    pub fn refers_to_scene(self, scene: Handle) -> (b: bool)
        ensures
            b == self.spec_refers_to_scene(scene),
    {
        match self {
            SelectedItem::Nothing => false,
            SelectedItem::Scene(s) => s == scene,
            SelectedItem::Entity(s, _) => s == scene,
        }
    }

    /// The pick after the scene `scene` was deleted: nothing, if it was the
    /// scene or one of its entities.
    pub open spec fn after_scene_deleted(self, scene: Handle) -> SelectedItem {
        if self.spec_refers_to_scene(scene) {
            SelectedItem::Nothing
        } else {
            self
        }
    }

    /// The pick after the entity `entity` of `scene` was deleted: nothing, if
    /// it was that entity.
    pub open spec fn after_entity_deleted(self, scene: Handle, entity: Handle) -> SelectedItem {
        if self == SelectedItem::Entity(scene, entity) {
            SelectedItem::Nothing
        } else {
            self
        }
    }

    /// Whether what is picked is there: a pick never names a scene or an
    /// entity that is gone.
    pub open spec fn valid_in(self, manager: Option<SceneManagerView>) -> bool {
        match self {
            SelectedItem::Nothing => true,
            SelectedItem::Scene(s) => manager matches Some(m) && m.scenes.contains_key(s),
            SelectedItem::Entity(s, e) => manager matches Some(m) && m.has_entity(s, e),
        }
    }
}

/// Why the project has to be written to storage now. Every change to the
/// scenes is written through at once: the caller saves, and then the change
/// is done. A save that fails is reported; the change stays.
#[derive(Clone, Copy, Debug, PartialEq, Eq, Structural, Hash)]
pub enum SaveReason {
    CreatedScene,
    CreatedEntity,
    DeletedScene,
    DeletedEntity,
    Renamed,
}

/// What the editor knows while it runs: the project, its scenes, what is
/// picked, and which parts of the window show.
#[derive(Debug)]
pub struct GuiState {
    pub scene_manager: Option<SceneManager>,
    pub selected_item: SelectedItem,
    pub scene_panel_selected_item: SelectedItem,
    pub project_name: String,
    pub project_path: String,
    pub project_metadata: Option<ProjectMetadata>,
    pub load_project: bool,
    pub show_new_project_popup: bool,
    pub show_open_project_popup: bool,
    pub show_hierarchy_filesystem: bool,
    pub show_inspector: bool,
    pub show_console: bool,
    pub show_debug_overlay: bool,
    pub dark_mode: bool,
}

/// What a `GuiState` stands for.
pub struct GuiStateView {
    pub scene_manager: Option<SceneManagerView>,
    pub selected_item: SelectedItem,
    pub scene_panel_selected_item: SelectedItem,
    pub project_name: Seq<char>,
    pub project_path: Seq<char>,
    pub project_metadata: Option<ProjectMetadataView>,
    pub load_project: bool,
    pub show_new_project_popup: bool,
    pub show_open_project_popup: bool,
    pub show_hierarchy_filesystem: bool,
    pub show_inspector: bool,
    pub show_console: bool,
    pub show_debug_overlay: bool,
    pub dark_mode: bool,
}

impl View for GuiState {
    type V = GuiStateView;

    open spec fn view(&self) -> GuiStateView {
        GuiStateView {
            scene_manager: match self.scene_manager {
                Some(m) => Some(m@),
                None => None,
            },
            selected_item: self.selected_item,
            scene_panel_selected_item: self.scene_panel_selected_item,
            project_name: self.project_name@,
            project_path: self.project_path@,
            project_metadata: match self.project_metadata {
                Some(m) => Some(m@),
                None => None,
            },
            load_project: self.load_project,
            show_new_project_popup: self.show_new_project_popup,
            show_open_project_popup: self.show_open_project_popup,
            show_hierarchy_filesystem: self.show_hierarchy_filesystem,
            show_inspector: self.show_inspector,
            show_console: self.show_console,
            show_debug_overlay: self.show_debug_overlay,
            dark_mode: self.dark_mode,
        }
    }
}

impl GuiStateView {
    /// The state of an editor that has just started: no project, nothing
    /// picked, every panel shown, dark colours.
    pub open spec fn initial() -> GuiStateView {
        GuiStateView {
            scene_manager: None,
            selected_item: SelectedItem::Nothing,
            scene_panel_selected_item: SelectedItem::Nothing,
            project_name: Seq::empty(),
            project_path: Seq::empty(),
            project_metadata: None,
            load_project: false,
            show_new_project_popup: false,
            show_open_project_popup: false,
            show_hierarchy_filesystem: true,
            show_inspector: true,
            show_console: true,
            show_debug_overlay: false,
            dark_mode: true,
        }
    }

    /// Whether both picks name what is there.
    pub open spec fn selection_valid(self) -> bool {
        self.selected_item.valid_in(self.scene_manager) && self.scene_panel_selected_item.valid_in(
            self.scene_manager,
        )
    }

    /// Whether a scene and an entity can still be made.
    pub open spec fn has_room(self) -> bool {
        self.scene_manager matches Some(m) ==> m.has_room()
    }

    /// Whether one of the side panels or the console shows.
    pub open spec fn any_panel_visible(self) -> bool {
        self.show_hierarchy_filesystem || self.show_inspector || self.show_console
    }

    /// The state with other scenes and both picks set to `pick`.
    pub open spec fn with_scenes_and_pick(self, m: SceneManagerView, pick: SelectedItem) -> GuiStateView {
        GuiStateView {
            scene_manager: Some(m),
            selected_item: pick,
            scene_panel_selected_item: pick,
            ..self
        }
    }

    /// The state with other scenes and the picks left alone.
    pub open spec fn with_scenes(self, m: SceneManagerView) -> GuiStateView {
        GuiStateView { scene_manager: Some(m), ..self }
    }

    /// The state after a scene of that name was asked for. The new scene is
    /// picked.
    pub open spec fn create_scene(self, name: Seq<char>) -> Result<GuiStateView, SceneError> {
        match self.scene_manager {
            None => Err(SceneError::NotFound),
            Some(m) => match m.create_scene(name) {
                Err(e) => Err(e),
                Ok(after) => Ok(
                    self.with_scenes_and_pick(after, SelectedItem::Scene(m.next_handle())),
                ),
            },
        }
    }

    /// The state after an entity was asked for in the scene `scene`: one of
    /// the kind `kind` where the table of kinds knows `kind`, a plain one
    /// else. The new entity is picked.
    pub open spec fn create_entity(self, scene: Handle, kind: Seq<char>, name: Seq<char>) -> Result<
        GuiStateView,
        SceneError,
    > {
        match self.scene_manager {
            None => Err(SceneError::NotFound),
            Some(m) => if !m.scenes.contains_key(scene) {
                Err(SceneError::NotFound)
            } else {
                let s = m.scenes[scene];
                let made = if template_of(kind) is Some {
                    s.create_predefined(kind, name)
                } else {
                    s.create_entity(name)
                };
                match made {
                    Err(e) => Err(e),
                    Ok(after) => Ok(
                        self.with_scenes_and_pick(
                            m.with_scene(after),
                            SelectedItem::Entity(scene, s.next_handle()),
                        ),
                    ),
                }
            },
        }
    }

    /// Whether the scene `scene` is there.
    pub open spec fn has_scene(self, scene: Handle) -> bool {
        self.scene_manager matches Some(m) && m.scenes.contains_key(scene)
    }

    /// Whether the entity `entity` of `scene` is there.
    pub open spec fn has_entity(self, scene: Handle, entity: Handle) -> bool {
        self.scene_manager matches Some(m) && m.has_entity(scene, entity)
    }

    /// The state after the scene `scene` was deleted. A pick that named the
    /// scene or one of its entities is cleared.
    pub open spec fn delete_scene(self, scene: Handle) -> GuiStateView {
        if self.has_scene(scene) {
            GuiStateView {
                scene_manager: Some(self.scene_manager.unwrap().delete_scene(scene)),
                selected_item: self.selected_item.after_scene_deleted(scene),
                scene_panel_selected_item: self.scene_panel_selected_item.after_scene_deleted(
                    scene,
                ),
                ..self
            }
        } else {
            self
        }
    }

    /// The state after the entity `entity` of `scene` was deleted. A pick
    /// that named the entity is cleared.
    pub open spec fn delete_entity(self, scene: Handle, entity: Handle) -> GuiStateView {
        if self.has_entity(scene, entity) {
            GuiStateView {
                scene_manager: Some(self.scene_manager.unwrap().delete_entity(scene, entity)),
                selected_item: self.selected_item.after_entity_deleted(scene, entity),
                scene_panel_selected_item: self.scene_panel_selected_item.after_entity_deleted(
                    scene,
                    entity,
                ),
                ..self
            }
        } else {
            self
        }
    }

    /// The state after the scene `scene` got another name.
    pub open spec fn rename_scene(self, scene: Handle, name: Seq<char>) -> GuiStateView {
        match self.scene_manager {
            Some(m) => self.with_scenes(m.rename_scene(scene, name)),
            None => self,
        }
    }

    /// The state after the entity `entity` of `scene` got another name.
    pub open spec fn rename_entity(self, scene: Handle, entity: Handle, name: Seq<char>) -> GuiStateView {
        match self.scene_manager {
            Some(m) => self.with_scenes(m.rename_entity(scene, entity, name)),
            None => self,
        }
    }

    /// The state with a project that came from storage. Nothing is picked.
    pub open spec fn with_project(self, metadata: ProjectMetadataView, m: SceneManagerView) -> GuiStateView {
        GuiStateView {
            project_name: metadata.project_name,
            project_path: metadata.project_path,
            load_project: true,
            project_metadata: Some(metadata),
            scene_manager: Some(m),
            selected_item: SelectedItem::Nothing,
            scene_panel_selected_item: SelectedItem::Nothing,
            ..self
        }
    }
}

impl GuiState {
    /// The invariant of the state: its scenes, if it has some, are valid.
    pub open spec fn wf(&self) -> bool {
        self.scene_manager matches Some(m) ==> m.wf()
    }

    /// The state of an editor that has just started.
    pub fn new() -> (s: GuiState)
        ensures
            s.wf(),
            s@ == GuiStateView::initial(),
    {
        GuiState {
            scene_manager: None,
            selected_item: SelectedItem::Nothing,
            scene_panel_selected_item: SelectedItem::Nothing,
            project_name: String::new(),
            project_path: String::new(),
            project_metadata: None,
            load_project: false,
            show_new_project_popup: false,
            show_open_project_popup: false,
            show_hierarchy_filesystem: true,
            show_inspector: true,
            show_console: true,
            show_debug_overlay: false,
            dark_mode: true,
        }
    }

    /// Whether a scene and an entity can still be made.
    pub fn has_room(&self) -> (b: bool)
        requires
            self.wf(),
        ensures
            b == self@.has_room(),
    {
        match &self.scene_manager {
            Some(m) => m.has_room(),
            None => true,
        }
    }

    /// Whether one of the side panels or the console shows.
    pub fn any_panel_visible(&self) -> (b: bool)
        ensures
            b == self@.any_panel_visible(),
    {
        self.show_hierarchy_filesystem || self.show_inspector || self.show_console
    }

    /// Makes a scene and picks it. Refused with `NotFound` where no project
    /// is open, with `InvalidName` where the name is blank.
    pub fn create_scene(&mut self, name: &str) -> (r: Result<Handle, SceneError>)
        requires
            old(self).wf(),
            old(self)@.has_room(),
        ensures
            final(self).wf(),
            match old(self)@.create_scene(name@) {
                Ok(after) => r == Ok::<Handle, SceneError>(
                    old(self)@.scene_manager.unwrap().next_handle(),
                ) && final(self)@ == after,
                Err(e) => r == Err::<Handle, SceneError>(e) && final(self)@ == old(self)@,
            },
    {
        let made = match &mut self.scene_manager {
            None => Err(SceneError::NotFound),
            Some(m) => m.create_scene(name),
        };
        if let Ok(id) = made {
            self.selected_item = SelectedItem::Scene(id);
            self.scene_panel_selected_item = SelectedItem::Scene(id);
        }
        made
    }

    /// Makes an entity in the scene `scene` and picks it: one of the kind
    /// `kind` where the table of kinds knows `kind`, a plain one else.
    /// Refused with `NotFound` where no project is open or the scene is not
    /// there, with `InvalidName` where the name is blank.
    pub fn create_entity(&mut self, scene: Handle, kind: &str, name: &str) -> (r: Result<
        Handle,
        SceneError,
    >)
        requires
            old(self).wf(),
            old(self)@.has_room(),
        ensures
            final(self).wf(),
            match old(self)@.create_entity(scene, kind@, name@) {
                Ok(after) => r == Ok::<Handle, SceneError>(
                    old(self)@.scene_manager.unwrap().scenes[scene].next_handle(),
                ) && final(self)@ == after,
                Err(e) => r == Err::<Handle, SceneError>(e) && final(self)@ == old(self)@,
            },
    {
        let known = find_template(kind).is_some();
        let ghost before = self@;
        let made = match &mut self.scene_manager {
            None => Err(SceneError::NotFound),
            Some(m) => match m.get_scene_mut(scene) {
                Err(e) => Err(e),
                Ok(s) => if known {
                    s.create_predefined(kind, name)
                } else {
                    s.create_entity(name)
                },
            },
        };
        proof {
            if let Some(m) = before.scene_manager {
                if m.scenes.contains_key(scene) && made is Err {
                    assert(m.scenes.insert(scene, m.scenes[scene]) =~= m.scenes);
                }
            }
        }
        if let Ok(id) = made {
            self.selected_item = SelectedItem::Entity(scene, id);
            self.scene_panel_selected_item = SelectedItem::Entity(scene, id);
        }
        made
    }

    /// Deletes the scene `scene` and clears a pick that named it or one of
    /// its entities. Says whether there was such a scene.
    pub fn delete_scene(&mut self, scene: Handle) -> (removed: bool)
        requires
            old(self).wf(),
        ensures
            final(self).wf(),
            removed == old(self)@.has_scene(scene),
            final(self)@ == old(self)@.delete_scene(scene),
    {
        let removed = match &mut self.scene_manager {
            None => false,
            Some(m) => m.delete_scene(scene),
        };
        if removed {
            if self.selected_item.refers_to_scene(scene) {
                self.selected_item = SelectedItem::Nothing;
            }
            if self.scene_panel_selected_item.refers_to_scene(scene) {
                self.scene_panel_selected_item = SelectedItem::Nothing;
            }
        } else {
            proof {
                if let Some(m) = old(self)@.scene_manager {
                    assert(m.scenes.remove(scene) =~= m.scenes);
                    if m.active_scene == Some(scene) {
                        old(self).scene_manager.unwrap().lemma_view_wf();
                    }
                }
            }
        }
        removed
    }

    /// Deletes the entity `entity` of `scene` and clears a pick that named
    /// it. Says whether there was such an entity.
    pub fn delete_entity(&mut self, scene: Handle, entity: Handle) -> (removed: bool)
        requires
            old(self).wf(),
        ensures
            final(self).wf(),
            removed == old(self)@.has_entity(scene, entity),
            final(self)@ == old(self)@.delete_entity(scene, entity),
    {
        let ghost before = self@;
        let removed = match &mut self.scene_manager {
            None => false,
            Some(m) => match m.get_scene_mut(scene) {
                Err(_) => false,
                Ok(s) => s.delete_entity(entity),
            },
        };
        proof {
            if let Some(m) = before.scene_manager {
                if m.scenes.contains_key(scene) && !removed {
                    let s = m.scenes[scene];
                    assert(s.entities.remove(entity) =~= s.entities);
                    assert(m.scenes.insert(scene, s) =~= m.scenes);
                }
            }
        }
        if removed {
            if self.selected_item == SelectedItem::Entity(scene, entity) {
                self.selected_item = SelectedItem::Nothing;
            }
            if self.scene_panel_selected_item == SelectedItem::Entity(scene, entity) {
                self.scene_panel_selected_item = SelectedItem::Nothing;
            }
        }
        removed
    }

    /// Gives the scene `scene` another name. Says whether there was such a
    /// scene.
    pub fn rename_scene(&mut self, scene: Handle, name: &str) -> (renamed: bool)
        requires
            old(self).wf(),
        ensures
            final(self).wf(),
            renamed == old(self)@.has_scene(scene),
            final(self)@ == old(self)@.rename_scene(scene, name@),
    {
        match &mut self.scene_manager {
            None => false,
            Some(m) => match m.get_scene_mut(scene) {
                Err(_) => false,
                Ok(s) => {
                    s.rename(name);
                    true
                },
            },
        }
    }

    /// Gives the entity `entity` of `scene` another name. Says whether there
    /// was such an entity.
    pub fn rename_entity(&mut self, scene: Handle, entity: Handle, name: &str) -> (renamed: bool)
        requires
            old(self).wf(),
        ensures
            final(self).wf(),
            renamed == old(self)@.has_entity(scene, entity),
            final(self)@ == old(self)@.rename_entity(scene, entity, name@),
    {
        let ghost before = self@;
        let renamed = match &mut self.scene_manager {
            None => false,
            Some(m) => match m.get_scene_mut(scene) {
                Err(_) => false,
                Ok(s) => match s.get_entity_mut(entity) {
                    Err(_) => false,
                    Ok(e) => {
                        e.rename(name);
                        true
                    },
                },
            },
        };
        proof {
            if let Some(m) = before.scene_manager {
                if m.scenes.contains_key(scene) && !renamed {
                    assert(m.scenes.insert(scene, m.scenes[scene]) =~= m.scenes);
                }
            }
        }
        renamed
    }

    /// Takes a project that came from storage. Nothing is picked after it.
    pub fn open_project(&mut self, project: LoadedProject)
        requires
            project.scene_manager.wf(),
        ensures
            final(self).wf(),
            final(self)@ == old(self)@.with_project(project.metadata@, project.scene_manager@),
    {
        self.project_name = project.metadata.project_name.clone();
        self.project_path = project.metadata.project_path.clone();
        self.load_project = true;
        self.project_metadata = Some(project.metadata);
        self.scene_manager = Some(project.scene_manager);
        self.selected_item = SelectedItem::Nothing;
        self.scene_panel_selected_item = SelectedItem::Nothing;
    }
}

} // verus!
