use crate::gui::gui_state::{GuiState, GuiStateView};
use crate::project::LoadedProject;
use vstd::prelude::*;
use vstd::string::*;

verus! {

/// An entry of the file menu.
#[derive(Clone, Copy, Debug, PartialEq, Eq, Structural, Hash)]
pub enum FileMenuClick {
    NewProject,
    OpenProject,
    SaveProject,
    Exit,
}

/// What the caller has to do after an entry of the file menu was pressed.
#[derive(Clone, Copy, Debug, PartialEq, Eq, Structural, Hash)]
pub enum FileMenuAction {
    Nothing,
    /// Read the project file and then ask `save_project` what to do.
    SaveProject,
    /// End the program.
    Exit,
}

/// Which popup of the file menu shows.
#[derive(Clone, Copy, Debug, PartialEq, Eq, Structural, Hash)]
pub enum ActivePopup {
    Nothing,
    NewProject,
    OpenProject,
}

/// What the caller has to do on storage for a popup of the file menu.
#[derive(Clone, Copy, Debug, PartialEq, Eq, Structural, Hash)]
pub enum FileAction {
    Nothing,
    /// Lay the project out on disk, and report with `project_created`.
    CreateProject,
    /// Read the project from disk, and report how it went.
    LoadProject,
}

/// What happened in a popup of the file menu, or on storage for it.
#[derive(Debug)]
pub enum ProjectPopupEvent {
    /// The path in the popup was changed to this one.
    PathTyped(String),
    /// `Create` or `Open` was pressed. `path_exists` says whether something
    /// lies at the path that is typed.
    Confirmed { path_exists: bool },
    /// The project was laid out on disk, or could not be.
    Created(Result<(), String>),
    /// The project was read from disk, or could not be.
    Loaded(Result<LoadedProject, String>),
    /// `Cancel` was pressed.
    Cancelled,
}

/// What to do when the project is asked to be saved.
#[derive(Clone, Copy, Debug, PartialEq, Eq, Structural, Hash)]
pub enum SaveDecision {
    NoProjectLoaded,
    InvalidProject,
    NoSceneManager,
    Save,
}

pub open spec fn msg_path_exists() -> Seq<char> {
    "Error: Project path already exists."@
}

pub open spec fn msg_path_missing() -> Seq<char> {
    "Error: Path does not exist."@
}

pub open spec fn msg_load_failed(error: Seq<char>) -> Seq<char> {
    "Error loading project: "@ + error
}

pub open spec fn msg_create_failed(error: Seq<char>) -> Seq<char> {
    "Error creating project: "@ + error
}

/// The file menu: the path that is typed into its popups, and the message
/// that they show.
#[derive(Debug)]
pub struct FileMenu {
    temp_project_path: String,
    error_message: String,
}

/// What a `FileMenu` stands for.
pub struct FileMenuView {
    pub temp_project_path: Seq<char>,
    pub error_message: Seq<char>,
}

impl FileMenuView {
    pub open spec fn cleared() -> FileMenuView {
        FileMenuView { temp_project_path: Seq::empty(), error_message: Seq::empty() }
    }

    pub open spec fn with_error(self, message: Seq<char>) -> FileMenuView {
        FileMenuView { error_message: message, ..self }
    }

    /// Which popup shows: the one for a new project goes first.
    pub open spec fn active_popup(gui: GuiStateView) -> ActivePopup {
        if gui.show_new_project_popup {
            ActivePopup::NewProject
        } else if gui.show_open_project_popup {
            ActivePopup::OpenProject
        } else {
            ActivePopup::Nothing
        }
    }

    /// What to do when the project is asked to be saved. `metadata_readable`
    /// says whether the project file on disk could be read.
    pub open spec fn save_decision(gui: GuiStateView, metadata_readable: bool) -> SaveDecision {
        if !gui.load_project {
            SaveDecision::NoProjectLoaded
        } else if !metadata_readable {
            SaveDecision::InvalidProject
        } else if gui.scene_manager is None {
            SaveDecision::NoSceneManager
        } else {
            SaveDecision::Save
        }
    }
}

impl View for FileMenu {
    type V = FileMenuView;

    closed spec fn view(&self) -> FileMenuView {
        FileMenuView {
            temp_project_path: self.temp_project_path@,
            error_message: self.error_message@,
        }
    }
}

impl FileMenu {
    /// A file menu with nothing typed and nothing to say.
    pub fn new() -> (m: FileMenu)
        ensures
            m@ == FileMenuView::cleared(),
    {
        FileMenu { temp_project_path: String::new(), error_message: String::new() }
    }

    /// The path that is typed.
    pub fn temp_project_path(&self) -> (s: &String)
        ensures
            s@ == self@.temp_project_path,
    {
        &self.temp_project_path
    }

    /// The message that the popup shows.
    pub fn error_message(&self) -> (s: &String)
        ensures
            s@ == self@.error_message,
    {
        &self.error_message
    }

    fn clear(&mut self)
        ensures
            final(self)@ == FileMenuView::cleared(),
    {
        self.temp_project_path = String::new();
        self.error_message = String::new();
    }

    /// Takes a press on an entry of the menu. `New Project` and
    /// `Open Project` open their popup, close the other one, and clear the
    /// path and the message. `Save Project` and `Exit` change nothing here.
    pub fn show(&mut self, click: FileMenuClick, gui_state: &mut GuiState) -> (action: FileMenuAction)
        ensures
            old(gui_state).wf() ==> final(gui_state).wf(),
            match click {
                FileMenuClick::NewProject => {
                    &&& action == FileMenuAction::Nothing
                    &&& final(self)@ == FileMenuView::cleared()
                    &&& final(gui_state)@ == (GuiStateView {
                        show_new_project_popup: true,
                        show_open_project_popup: false,
                        ..old(gui_state)@
                    })
                },
                FileMenuClick::OpenProject => {
                    &&& action == FileMenuAction::Nothing
                    &&& final(self)@ == FileMenuView::cleared()
                    &&& final(gui_state)@ == (GuiStateView {
                        show_new_project_popup: false,
                        show_open_project_popup: true,
                        ..old(gui_state)@
                    })
                },
                FileMenuClick::SaveProject => {
                    &&& action == FileMenuAction::SaveProject
                    &&& final(self)@ == old(self)@
                    &&& final(gui_state)@ == old(gui_state)@
                },
                FileMenuClick::Exit => {
                    &&& action == FileMenuAction::Exit
                    &&& final(self)@ == old(self)@
                    &&& final(gui_state)@ == old(gui_state)@
                },
            },
    {
        match click {
            FileMenuClick::NewProject => {
                gui_state.show_new_project_popup = true;
                gui_state.show_open_project_popup = false;
                self.clear();
                FileMenuAction::Nothing
            },
            FileMenuClick::OpenProject => {
                gui_state.show_open_project_popup = true;
                gui_state.show_new_project_popup = false;
                self.clear();
                FileMenuAction::Nothing
            },
            FileMenuClick::SaveProject => FileMenuAction::SaveProject,
            FileMenuClick::Exit => FileMenuAction::Exit,
        }
    }

    /// Which popup shows.
    pub fn show_active_popup(&self, gui_state: &GuiState) -> (popup: ActivePopup)
        ensures
            popup == FileMenuView::active_popup(gui_state@),
    {
        if gui_state.show_new_project_popup {
            ActivePopup::NewProject
        } else if gui_state.show_open_project_popup {
            ActivePopup::OpenProject
        } else {
            ActivePopup::Nothing
        }
    }

    /// What to do when the project is asked to be saved.
    pub fn save_project(&self, gui_state: &GuiState, metadata_readable: bool) -> (d: SaveDecision)
        ensures
            d == FileMenuView::save_decision(gui_state@, metadata_readable),
    {
        if !gui_state.load_project {
            SaveDecision::NoProjectLoaded
        } else if !metadata_readable {
            SaveDecision::InvalidProject
        } else if gui_state.scene_manager.is_none() {
            SaveDecision::NoSceneManager
        } else {
            SaveDecision::Save
        }
    }

    /// Takes the path that was typed into the popup for a new project.
    pub fn new_project_path_typed(&mut self, path: &str)
        ensures
            final(self)@ == (FileMenuView { temp_project_path: path@, ..old(self)@ }),
    {
        self.temp_project_path = path.to_owned();
    }

    /// Takes the path that was typed into the popup that opens a project.
    /// The message goes away.
    pub fn open_project_path_typed(&mut self, path: &str)
        ensures
            final(self)@ == (FileMenuView {
                temp_project_path: path@,
                error_message: Seq::empty(),
            }),
    {
        self.temp_project_path = path.to_owned();
        self.error_message = String::new();
    }

    /// `Create` was pressed in the popup for a new project. `path_exists`
    /// says whether something lies at the path already: then the project is
    /// refused, else it is to be laid out.
    pub fn create_clicked(&mut self, path_exists: bool) -> (action: FileAction)
        ensures
            path_exists ==> action == FileAction::Nothing && final(self)@ == old(self)@.with_error(
                msg_path_exists(),
            ),
            !path_exists ==> action == FileAction::CreateProject && final(self)@ == old(self)@,
    {
        if path_exists {
            self.error_message = "Error: Project path already exists.".to_owned();
            FileAction::Nothing
        } else {
            FileAction::CreateProject
        }
    }

    /// The project was laid out on disk, or could not be. One that is laid
    /// out is to be loaded.
    pub fn project_created(&mut self, result: Result<(), String>) -> (action: FileAction)
        ensures
            match result {
                Ok(()) => action == FileAction::LoadProject && final(self)@ == old(self)@,
                Err(e) => action == FileAction::Nothing && final(self)@ == old(self)@.with_error(
                    msg_create_failed(e@),
                ),
            },
    {
        match result {
            Ok(()) => FileAction::LoadProject,
            Err(e) => {
                self.error_message = "Error creating project: ".to_owned().concat(e.as_str());
                FileAction::Nothing
            },
        }
    }

    /// The new project was read from disk, or could not be. One that was
    /// read becomes the open project and the popup closes.
    pub fn new_project_loaded(&mut self, gui_state: &mut GuiState, result: Result<LoadedProject, String>)
        requires
            result matches Ok(p) ==> p.scene_manager.wf(),
            old(gui_state).wf(),
        ensures
            final(gui_state).wf(),
            match result {
                Ok(p) => {
                    &&& final(self)@ == old(self)@.with_error(Seq::empty())
                    &&& final(gui_state)@ == (GuiStateView {
                        show_new_project_popup: false,
                        ..old(gui_state)@.with_project(p.metadata@, p.scene_manager@)
                    })
                },
                Err(e) => {
                    &&& final(self)@ == old(self)@.with_error(msg_load_failed(e@))
                    &&& final(gui_state)@ == old(gui_state)@
                },
            },
    {
        match result {
            Ok(project) => {
                gui_state.open_project(project);
                gui_state.show_new_project_popup = false;
                self.error_message = String::new();
            },
            Err(e) => {
                self.error_message = "Error loading project: ".to_owned().concat(e.as_str());
            },
        }
    }

    /// `Cancel` was pressed in the popup for a new project.
    pub fn cancel_new_project(&mut self, gui_state: &mut GuiState)
        ensures
            final(self)@ == FileMenuView::cleared(),
            final(gui_state)@ == (GuiStateView { show_new_project_popup: false, ..old(gui_state)@ }),
            old(gui_state).wf() ==> final(gui_state).wf(),
    {
        gui_state.show_new_project_popup = false;
        self.clear();
    }

    /// `Open` was pressed in the popup that opens a project. Nothing happens
    /// while no path is typed. `path_exists` says whether something lies at
    /// the path: then the project is to be loaded, else it is refused.
    pub fn open_clicked(&mut self, path_exists: bool) -> (action: FileAction)
        ensures
            old(self)@.temp_project_path.len() == 0 ==> action == FileAction::Nothing && final(self)@ == old(self)@,
            old(self)@.temp_project_path.len() != 0 && !path_exists ==> action
                == FileAction::Nothing && final(self)@ == old(self)@.with_error(msg_path_missing()),
            old(self)@.temp_project_path.len() != 0 && path_exists ==> action
                == FileAction::LoadProject && final(self)@ == old(self)@,
    {
        if self.temp_project_path.as_str().unicode_len() == 0 {
            FileAction::Nothing
        } else if !path_exists {
            self.error_message = "Error: Path does not exist.".to_owned();
            FileAction::Nothing
        } else {
            FileAction::LoadProject
        }
    }

    /// The project to open was read from disk, or could not be. One that was
    /// read becomes the open project, the popup closes, and the path and the
    /// message go away.
    pub fn open_project_loaded(&mut self, gui_state: &mut GuiState, result: Result<LoadedProject, String>)
        requires
            result matches Ok(p) ==> p.scene_manager.wf(),
            old(gui_state).wf(),
        ensures
            final(gui_state).wf(),
            match result {
                Ok(p) => {
                    &&& final(self)@ == FileMenuView::cleared()
                    &&& final(gui_state)@ == (GuiStateView {
                        show_open_project_popup: false,
                        ..old(gui_state)@.with_project(p.metadata@, p.scene_manager@)
                    })
                },
                Err(e) => {
                    &&& final(self)@ == old(self)@.with_error(msg_load_failed(e@))
                    &&& final(gui_state)@ == old(gui_state)@
                },
            },
    {
        match result {
            Ok(project) => {
                gui_state.open_project(project);
                gui_state.show_open_project_popup = false;
                self.clear();
            },
            Err(e) => {
                self.error_message = "Error loading project: ".to_owned().concat(e.as_str());
            },
        }
    }

    /// `Cancel` was pressed in the popup that opens a project.
    pub fn cancel_open_project(&mut self, gui_state: &mut GuiState)
        ensures
            final(self)@ == FileMenuView::cleared(),
            final(gui_state)@ == (GuiStateView {
                show_open_project_popup: false,
                ..old(gui_state)@
            }),
            old(gui_state).wf() ==> final(gui_state).wf(),
    {
        gui_state.show_open_project_popup = false;
        self.clear();
    }

    /// One step of the popup for a new project: takes what happened and says
    /// what to do on storage next. A path that is taken lets the project be
    /// laid out, a project that is laid out lets it be loaded, and a project
    /// that is loaded becomes the open one.
    pub fn show_new_project_popup_window(&mut self, event: ProjectPopupEvent, gui_state: &mut GuiState) -> (action:
        FileAction)
        requires
            event matches ProjectPopupEvent::Loaded(Ok(p)) ==> p.scene_manager.wf(),
            old(gui_state).wf(),
        ensures
            final(gui_state).wf(),
            match event {
                ProjectPopupEvent::PathTyped(path) => {
                    &&& action == FileAction::Nothing
                    &&& final(self)@ == (FileMenuView { temp_project_path: path@, ..old(self)@ })
                    &&& final(gui_state)@ == old(gui_state)@
                },
                ProjectPopupEvent::Confirmed { path_exists } => {
                    &&& action == if path_exists {
                        FileAction::Nothing
                    } else {
                        FileAction::CreateProject
                    }
                    &&& final(self)@ == if path_exists {
                        old(self)@.with_error(msg_path_exists())
                    } else {
                        old(self)@
                    }
                    &&& final(gui_state)@ == old(gui_state)@
                },
                ProjectPopupEvent::Created(Ok(())) => {
                    &&& action == FileAction::LoadProject
                    &&& final(self)@ == old(self)@
                    &&& final(gui_state)@ == old(gui_state)@
                },
                ProjectPopupEvent::Created(Err(e)) => {
                    &&& action == FileAction::Nothing
                    &&& final(self)@ == old(self)@.with_error(msg_create_failed(e@))
                    &&& final(gui_state)@ == old(gui_state)@
                },
                ProjectPopupEvent::Loaded(Ok(p)) => {
                    &&& action == FileAction::Nothing
                    &&& final(self)@ == old(self)@.with_error(Seq::empty())
                    &&& final(gui_state)@ == (GuiStateView {
                        show_new_project_popup: false,
                        ..old(gui_state)@.with_project(p.metadata@, p.scene_manager@)
                    })
                },
                ProjectPopupEvent::Loaded(Err(e)) => {
                    &&& action == FileAction::Nothing
                    &&& final(self)@ == old(self)@.with_error(msg_load_failed(e@))
                    &&& final(gui_state)@ == old(gui_state)@
                },
                ProjectPopupEvent::Cancelled => {
                    &&& action == FileAction::Nothing
                    &&& final(self)@ == FileMenuView::cleared()
                    &&& final(gui_state)@ == (GuiStateView {
                        show_new_project_popup: false,
                        ..old(gui_state)@
                    })
                },
            },
    {
        match event {
            ProjectPopupEvent::PathTyped(path) => {
                self.new_project_path_typed(path.as_str());
                FileAction::Nothing
            },
            ProjectPopupEvent::Confirmed { path_exists } => self.create_clicked(path_exists),
            ProjectPopupEvent::Created(result) => self.project_created(result),
            ProjectPopupEvent::Loaded(result) => {
                self.new_project_loaded(gui_state, result);
                FileAction::Nothing
            },
            ProjectPopupEvent::Cancelled => {
                self.cancel_new_project(gui_state);
                FileAction::Nothing
            },
        }
    }

    /// One step of the popup that opens a project: takes what happened and
    /// says what to do on storage next. A path at which something lies lets
    /// the project be loaded, and a project that is loaded becomes the open
    /// one. Nothing is laid out here.
    pub fn show_open_project_popup_window(&mut self, event: ProjectPopupEvent, gui_state: &mut GuiState) -> (action:
        FileAction)
        requires
            event matches ProjectPopupEvent::Loaded(Ok(p)) ==> p.scene_manager.wf(),
            old(gui_state).wf(),
        ensures
            final(gui_state).wf(),
            match event {
                ProjectPopupEvent::PathTyped(path) => {
                    &&& action == FileAction::Nothing
                    &&& final(self)@ == (FileMenuView {
                        temp_project_path: path@,
                        error_message: Seq::empty(),
                    })
                    &&& final(gui_state)@ == old(gui_state)@
                },
                ProjectPopupEvent::Confirmed { path_exists } => {
                    let typed = old(self)@.temp_project_path.len() != 0;
                    &&& action == if typed && path_exists {
                        FileAction::LoadProject
                    } else {
                        FileAction::Nothing
                    }
                    &&& final(self)@ == if typed && !path_exists {
                        old(self)@.with_error(msg_path_missing())
                    } else {
                        old(self)@
                    }
                    &&& final(gui_state)@ == old(gui_state)@
                },
                ProjectPopupEvent::Created(_) => {
                    &&& action == FileAction::Nothing
                    &&& final(self)@ == old(self)@
                    &&& final(gui_state)@ == old(gui_state)@
                },
                ProjectPopupEvent::Loaded(Ok(p)) => {
                    &&& action == FileAction::Nothing
                    &&& final(self)@ == FileMenuView::cleared()
                    &&& final(gui_state)@ == (GuiStateView {
                        show_open_project_popup: false,
                        ..old(gui_state)@.with_project(p.metadata@, p.scene_manager@)
                    })
                },
                ProjectPopupEvent::Loaded(Err(e)) => {
                    &&& action == FileAction::Nothing
                    &&& final(self)@ == old(self)@.with_error(msg_load_failed(e@))
                    &&& final(gui_state)@ == old(gui_state)@
                },
                ProjectPopupEvent::Cancelled => {
                    &&& action == FileAction::Nothing
                    &&& final(self)@ == FileMenuView::cleared()
                    &&& final(gui_state)@ == (GuiStateView {
                        show_open_project_popup: false,
                        ..old(gui_state)@
                    })
                },
            },
    {
        match event {
            ProjectPopupEvent::PathTyped(path) => {
                self.open_project_path_typed(path.as_str());
                FileAction::Nothing
            },
            ProjectPopupEvent::Confirmed { path_exists } => self.open_clicked(path_exists),
            ProjectPopupEvent::Created(_) => FileAction::Nothing,
            ProjectPopupEvent::Loaded(result) => {
                self.open_project_loaded(gui_state, result);
                FileAction::Nothing
            },
            ProjectPopupEvent::Cancelled => {
                self.cancel_open_project(gui_state);
                FileAction::Nothing
            },
        }
    }

    /// Whether the popup that opens a project shows its message: only while
    /// there is one and a path is typed.
    pub fn open_error_visible(&self) -> (b: bool)
        ensures
            b == (self@.error_message.len() != 0 && self@.temp_project_path.len() != 0),
    {
        self.error_message.as_str().unicode_len() != 0
            && self.temp_project_path.as_str().unicode_len() != 0
    }

    /// Whether the popup for a new project shows its message.
    pub fn new_error_visible(&self) -> (b: bool)
        ensures
            b == (self@.error_message.len() != 0),
    {
        self.error_message.as_str().unicode_len() != 0
    }
}

} // verus!
