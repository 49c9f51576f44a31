use crate::game_runtime::{
    CameraState, FrameStep, GameRuntime, GameRuntimeView, RuntimeError, RuntimeState,
};
use crate::gui::gui_state::{GuiState, GuiStateView};
use crate::gui::menus::file_menu::{FileMenu, FileMenuView};
use crate::gui::scene_hierarchy::{SceneHierarchy, SceneHierarchyView};
use crate::scene_manager::{SceneManager, SceneManagerView};
use vstd::prelude::*;
use vstd::string::*;

verus! {

/// The frames that the game aims at in a second.
pub const TARGET_FPS: u32 = 60;

/// The kinds of message in the console.
#[derive(Clone, Copy, Debug, PartialEq, Eq, Structural, Hash)]
pub enum ConsoleMessageType {
    Info,
    Warning,
    Error,
    Debug,
}

impl ConsoleMessageType {
    /// How grave a message of the kind is. `Debug` has no rank of its own: it
    /// is shown apart.
    pub open spec fn spec_rank(self) -> u8 {
        match self {
            ConsoleMessageType::Info => 0,
            ConsoleMessageType::Warning => 1,
            ConsoleMessageType::Error => 2,
            ConsoleMessageType::Debug => 3,
        }
    }

    #[verifier::when_used_as_spec(spec_rank)]
    pub fn rank(self) -> (r: u8)
        ensures
            r == self.spec_rank(),
    {
        match self {
            ConsoleMessageType::Info => 0,
            ConsoleMessageType::Warning => 1,
            ConsoleMessageType::Error => 2,
            ConsoleMessageType::Debug => 3,
        }
    }

    /// The sign that stands before a message of the kind.
    pub open spec fn spec_prefix(self) -> Seq<char> {
        match self {
            ConsoleMessageType::Info => "\u{2139}"@,
            ConsoleMessageType::Warning => "\u{26a0}"@,
            ConsoleMessageType::Error => "\u{274c}"@,
            ConsoleMessageType::Debug => "\u{1f527}"@,
        }
    }

    pub fn prefix(self) -> (s: String)
        ensures
            s@ == self.spec_prefix(),
    {
        match self {
            ConsoleMessageType::Info => "\u{2139}".to_owned(),
            ConsoleMessageType::Warning => "\u{26a0}".to_owned(),
            ConsoleMessageType::Error => "\u{274c}".to_owned(),
            ConsoleMessageType::Debug => "\u{1f527}".to_owned(),
        }
    }
}

/// Whether the console shows a message of the kind `message_type` while the
/// level `selected_level` is chosen: under `Debug` the debug messages and no
/// others; under another level the messages that are at least as grave, and
/// no debug messages.
pub open spec fn should_show(message_type: ConsoleMessageType, selected_level: ConsoleMessageType) -> bool {
    if selected_level == ConsoleMessageType::Debug {
        message_type == ConsoleMessageType::Debug
    } else {
        message_type.spec_rank() >= selected_level.spec_rank() && message_type
            != ConsoleMessageType::Debug
    }
}

/// What the middle of the window shows.
#[derive(Clone, Copy, Debug, PartialEq, Eq, Structural, Hash)]
pub enum ViewportMode {
    /// The text editor.
    Editor,
    /// The running game.
    Game,
    /// The scene as it is edited.
    Scene,
}

/// The first of the two buttons that control the game.
#[derive(Clone, Copy, Debug, PartialEq, Eq, Structural, Hash)]
pub enum ControlButton {
    Play,
    Pause,
    Resume,
}

/// The buttons that control the game. `Reset` always stands beside the first
/// button. Without an open project the buttons show and cannot be pressed.
#[derive(Clone, Copy, Debug, PartialEq, Eq, Structural, Hash)]
pub struct ControlButtons {
    pub enabled: bool,
    pub first: ControlButton,
}

/// What the user did in the window.
#[derive(Clone, Copy, Debug, PartialEq, Eq, Structural, Hash)]
pub enum WindowEvent {
    /// Nothing.
    Idle,
    /// Chose the text editor.
    ShowEditor,
    /// Chose the viewer.
    ShowViewer,
    /// Chose the output tab of the console.
    ConsoleOutput,
    /// Chose the debug tab of the console.
    ConsoleDebug,
    /// Chose a level of the output tab.
    LogLevel(ConsoleMessageType),
    /// Pressed the first control button.
    Control(ControlButton),
    /// Pressed `Reset`.
    Reset,
}

/// What the caller has to do after an event of the window.
#[derive(Clone, Copy, Debug, PartialEq, Eq, Structural, Hash)]
pub enum WindowAction {
    Nothing,
    /// Write the text of the editor to the file that is edited.
    WriteFile,
    /// Say that the game has started.
    GameStarted,
    /// Say that the game could not start.
    GameFailed(RuntimeError),
}

/// The texts of a list with `", "` between them.
pub open spec fn joined(list: Seq<Seq<char>>) -> Seq<char>
    decreases list.len(),
{
    if list.len() == 0 {
        Seq::empty()
    } else if list.len() == 1 {
        list[0]
    } else {
        joined(list.drop_last()) + ", "@ + list.last()
    }
}

/// What the overlay says of the keys that are held: their names with commas
/// between them, or `None`.
pub open spec fn keys_label(inputs: Seq<Seq<char>>) -> Seq<char> {
    if inputs.len() == 0 {
        "None"@
    } else {
        joined(inputs)
    }
}

/// The editor as a whole: what its window shows, its panels, and the runtime
/// of the game.
#[derive(Debug)]
pub struct EngineGui {
    pub show_editor: bool,
    pub show_debug: bool,
    pub scene_hierarchy: SceneHierarchy,
    pub file_menu: FileMenu,
    pub gui_state: GuiState,
    pub selected_log_level: ConsoleMessageType,
    pub game_runtime: GameRuntime,
    pub editor_content: String,
    pub current_edited_file: Option<String>,
}

/// What an `EngineGui` stands for.
pub struct EngineGuiView {
    pub show_editor: bool,
    pub show_debug: bool,
    pub scene_hierarchy: SceneHierarchyView,
    pub file_menu: FileMenuView,
    pub gui_state: GuiStateView,
    pub selected_log_level: ConsoleMessageType,
    pub game_runtime: GameRuntimeView,
    pub editor_content: Seq<char>,
    pub current_edited_file: Option<Seq<char>>,
}

impl View for EngineGui {
    type V = EngineGuiView;

    open spec fn view(&self) -> EngineGuiView {
        EngineGuiView {
            show_editor: self.show_editor,
            show_debug: self.show_debug,
            scene_hierarchy: self.scene_hierarchy@,
            file_menu: self.file_menu@,
            gui_state: self.gui_state@,
            selected_log_level: self.selected_log_level,
            game_runtime: self.game_runtime@,
            editor_content: self.editor_content@,
            current_edited_file: match self.current_edited_file {
                Some(p) => Some(p@),
                None => None,
            },
        }
    }
}

/// What a frame of the window leads to.
pub struct WindowOutcome {
    pub gui: EngineGuiView,
    pub action: WindowAction,
    pub steps: Seq<FrameStep>,
}

/// What the caller has to do after a frame of the window: the action that
/// the event asks for, and the steps of the frame, in their order.
#[derive(Debug, PartialEq, Eq)]
pub struct WindowOutput {
    pub action: WindowAction,
    pub steps: Vec<FrameStep>,
}

impl EngineGuiView {
    /// The editor as it starts: the viewer shows, the console shows its
    /// output from `Info` on, and the game stands still.
    pub open spec fn initial() -> EngineGuiView {
        EngineGuiView {
            show_editor: false,
            show_debug: false,
            scene_hierarchy: SceneHierarchyView::initial(),
            file_menu: FileMenuView::cleared(),
            gui_state: GuiStateView::initial(),
            selected_log_level: ConsoleMessageType::Info,
            game_runtime: GameRuntimeView::fresh(SceneManagerView::empty(), TARGET_FPS),
            editor_content: Seq::empty(),
            current_edited_file: None,
        }
    }

    /// The level under which the console filters: `Debug` on the debug tab,
    /// the chosen level on the output tab.
    pub open spec fn console_level(self) -> ConsoleMessageType {
        if self.show_debug {
            ConsoleMessageType::Debug
        } else {
            self.selected_log_level
        }
    }

    /// The grey of the background: dark or light.
    pub open spec fn background_gray(self) -> u8 {
        if self.gui_state.dark_mode {
            30
        } else {
            240
        }
    }

    pub open spec fn viewport_mode(self) -> ViewportMode {
        if self.show_editor {
            ViewportMode::Editor
        } else if self.game_runtime.state == RuntimeState::Playing {
            ViewportMode::Game
        } else {
            ViewportMode::Scene
        }
    }

    pub open spec fn control_buttons(self) -> ControlButtons {
        ControlButtons {
            enabled: self.gui_state.load_project,
            first: match self.game_runtime.state {
                RuntimeState::Stopped => ControlButton::Play,
                RuntimeState::Playing => ControlButton::Pause,
                RuntimeState::Paused => ControlButton::Resume,
            },
        }
    }

    /// The runtime with a copy of the editor's scenes as its working copy,
    /// if the editor has scenes.
    pub open spec fn synced_runtime(self) -> GameRuntimeView {
        match self.gui_state.scene_manager {
            Some(m) => GameRuntimeView { scene_manager: m, ..self.game_runtime },
            None => self.game_runtime,
        }
    }

    /// What pressing `Play` leads to: the runtime takes a copy of the scenes
    /// as they are now and starts. A start that is refused leaves the game
    /// standing still.
    pub open spec fn play(self, subsystems_ready: bool) -> WindowOutcome {
        let synced = self.synced_runtime();
        match synced.run_result(subsystems_ready) {
            Ok(()) => WindowOutcome {
                gui: EngineGuiView {
                    game_runtime: GameRuntimeView {
                        state: RuntimeState::Playing,
                        ..synced.run(subsystems_ready)
                    },
                    ..self
                },
                action: WindowAction::GameStarted,
                steps: Seq::empty(),
            },
            Err(e) => WindowOutcome {
                gui: EngineGuiView {
                    game_runtime: GameRuntimeView { state: RuntimeState::Stopped, ..synced },
                    ..self
                },
                action: WindowAction::GameFailed(e),
                steps: Seq::empty(),
            },
        }
    }

    /// The window after a choice of what it shows: the text editor or the
    /// viewer, a tab of the console, or a level of the output tab. Any other
    /// event leaves it as it is.
    pub open spec fn switch(self, event: WindowEvent) -> EngineGuiView {
        match event {
            WindowEvent::ShowEditor => EngineGuiView { show_editor: true, ..self },
            WindowEvent::ShowViewer => EngineGuiView { show_editor: false, ..self },
            WindowEvent::ConsoleOutput => EngineGuiView { show_debug: false, ..self },
            WindowEvent::ConsoleDebug => EngineGuiView { show_debug: true, ..self },
            WindowEvent::LogLevel(level) => EngineGuiView { selected_log_level: level, ..self },
            _ => self,
        }
    }

    /// Whether a frame of the game advances: the viewer shows and the game
    /// plays.
    pub open spec fn advances(self) -> bool {
        !self.show_editor && self.game_runtime.state == RuntimeState::Playing
    }

    /// The window with the editor's camera handed to the runtime.
    pub open spec fn with_camera(self, position: (u32, u32), zoom: u32) -> EngineGuiView {
        EngineGuiView {
            game_runtime: GameRuntimeView {
                camera: CameraState { x: position.0, y: position.1, zoom },
                ..self.game_runtime
            },
            ..self
        }
    }

    /// What a press on a button that controls the game leads to. A press
    /// counts only if that button shows and can be pressed.
    pub open spec fn press(self, event: WindowEvent, subsystems_ready: bool) -> WindowOutcome {
        let quiet = WindowOutcome { gui: self, action: WindowAction::Nothing, steps: Seq::empty() };
        match event {
            WindowEvent::Control(button) => if !self.control_buttons().enabled
                || self.control_buttons().first != button {
                quiet
            } else {
                match button {
                    ControlButton::Play => self.play(subsystems_ready),
                    ControlButton::Pause => WindowOutcome {
                        gui: EngineGuiView {
                            game_runtime: GameRuntimeView {
                                state: RuntimeState::Paused,
                                ..self.game_runtime
                            },
                            ..self
                        },
                        ..quiet
                    },
                    ControlButton::Resume => WindowOutcome {
                        gui: EngineGuiView {
                            game_runtime: GameRuntimeView {
                                state: RuntimeState::Playing,
                                ..self.game_runtime
                            },
                            ..self
                        },
                        ..quiet
                    },
                }
            },
            WindowEvent::Reset => if !self.control_buttons().enabled {
                quiet
            } else {
                WindowOutcome {
                    gui: EngineGuiView { game_runtime: self.game_runtime.reset(), ..self },
                    ..quiet
                }
            },
            _ => quiet,
        }
    }

    /// What one frame of the window leads to, in the order in which the
    /// window is gone through.
    ///
    /// First a choice of what the window shows takes effect. While the text
    /// editor shows, that is all: no frame of the game advances, no button
    /// counts and no input is handed on.
    ///
    /// While the viewer shows: if the game plays, the editor's camera goes
    /// to the runtime and one frame of the game advances, which is the
    /// camera to the renderer, one step of physics, and one rendering, in
    /// that order. Physics hands its writes in through `apply_transform`;
    /// the frame itself leaves the working copy as it is. Then a press on a
    /// control button takes effect. Last the input of the frame goes to one
    /// handler: to the game's if the game plays after the press, else to the
    /// editor's.
    pub open spec fn show_windows(
        self,
        event: WindowEvent,
        subsystems_ready: bool,
        camera_position: (u32, u32),
        camera_zoom: u32,
    ) -> WindowOutcome {
        let switched = self.switch(event);
        let written = if event == WindowEvent::ShowViewer && self.current_edited_file is Some {
            WindowAction::WriteFile
        } else {
            WindowAction::Nothing
        };
        if switched.show_editor {
            WindowOutcome { gui: switched, action: written, steps: Seq::empty() }
        } else {
            let synced = if switched.advances() {
                switched.with_camera(camera_position, camera_zoom)
            } else {
                switched
            };
            let update = if switched.advances() {
                seq![
                    FrameStep::SyncCamera(synced.game_runtime.camera),
                    FrameStep::StepPhysics,
                    FrameStep::SubmitRender,
                ]
            } else {
                Seq::empty()
            };
            let pressed = synced.press(event, subsystems_ready);
            WindowOutcome {
                gui: pressed.gui,
                action: if pressed.action == WindowAction::Nothing {
                    written
                } else {
                    pressed.action
                },
                steps: update.push(FrameStep::RouteInput(pressed.gui.game_runtime.input_target())),
            }
        }
    }

    /// Whether the editor's own camera follows the mouse: never while the
    /// game plays, and else while the cursor is over the viewport and the
    /// secondary button is held, or the primary one together with Alt.
    pub open spec fn editor_camera_pans(
        self,
        cursor_in_viewport: bool,
        secondary_pressed: bool,
        primary_pressed: bool,
        alt: bool,
    ) -> bool {
        self.game_runtime.state != RuntimeState::Playing && cursor_in_viewport && (
        secondary_pressed || (primary_pressed && alt))
    }

    /// Whether the outline of the game's camera is drawn: while there are
    /// scenes and one of them is active.
    pub open spec fn shows_camera_bounds(self) -> bool {
        self.gui_state.scene_manager matches Some(m) && m.active_scene is Some
    }
}

impl EngineGui {
    /// The invariant of the editor: its scenes and the working copy of the
    /// runtime are valid.
    pub open spec fn wf(&self) -> bool {
        self.gui_state.wf() && self.game_runtime.wf()
    }

    /// The editor as it starts.
    pub fn new() -> (gui: EngineGui)
        ensures
            gui.wf(),
            gui@ == EngineGuiView::initial(),
    {
        EngineGui {
            show_editor: false,
            show_debug: false,
            scene_hierarchy: SceneHierarchy::new(),
            file_menu: FileMenu::new(),
            gui_state: GuiState::new(),
            selected_log_level: ConsoleMessageType::Info,
            game_runtime: GameRuntime::new(SceneManager::new(), TARGET_FPS),
            editor_content: String::new(),
            current_edited_file: None,
        }
    }

    /// The runtime of the game.
    pub fn game_runtime(&self) -> (r: &GameRuntime)
        ensures
            r@ == self@.game_runtime,
            self.wf() ==> r.wf(),
    {
        &self.game_runtime
    }

    /// The text in the editor.
    pub fn editor_content(&self) -> (s: &String)
        ensures
            s@ == self@.editor_content,
    {
        &self.editor_content
    }

    /// The file that is edited, if one is.
    pub fn current_edited_file(&self) -> (p: &Option<String>)
        ensures
            match *p {
                Some(s) => self@.current_edited_file == Some(s@),
                None => self@.current_edited_file is None,
            },
    {
        &self.current_edited_file
    }

    /// Whether each message of a list shows in the console under a level.
    pub fn show_console_messages(
        message_types: &Vec<ConsoleMessageType>,
        selected_level: ConsoleMessageType,
    ) -> (shown: Vec<bool>)
        ensures
            shown@.len() == message_types@.len(),
            forall|i: int|
                0 <= i < shown@.len() ==> shown@[i] == should_show(
                    message_types@[i],
                    selected_level,
                ),
    {
        let mut shown: Vec<bool> = Vec::new();
        let mut i: usize = 0;
        while i < message_types.len()
            invariant
                i <= message_types.len(),
                shown@.len() == i,
                forall|j: int|
                    0 <= j < i ==> shown@[j] == should_show(message_types@[j], selected_level),
            decreases message_types.len() - i,
        {
            let t = message_types[i];
            let show = if selected_level == ConsoleMessageType::Debug {
                t == ConsoleMessageType::Debug
            } else {
                t.rank() >= selected_level.rank() && t != ConsoleMessageType::Debug
            };
            shown.push(show);
            i += 1;
        }
        shown
    }

    /// The level under which the console filters.
    pub fn console_level(&self) -> (level: ConsoleMessageType)
        ensures
            level == self@.console_level(),
    {
        if self.show_debug {
            ConsoleMessageType::Debug
        } else {
            self.selected_log_level
        }
    }

    /// The grey of the background.
    pub fn get_background_color(&self) -> (gray: u8)
        ensures
            gray == self@.background_gray(),
    {
        if self.gui_state.dark_mode {
            30
        } else {
            240
        }
    }

    /// What the middle of the window shows.
    pub fn viewport_mode(&self) -> (mode: ViewportMode)
        ensures
            mode == self@.viewport_mode(),
    {
        if self.show_editor {
            ViewportMode::Editor
        } else if self.game_runtime.get_state() == RuntimeState::Playing {
            ViewportMode::Game
        } else {
            ViewportMode::Scene
        }
    }

    /// The buttons that control the game.
    pub fn control_buttons(&self) -> (b: ControlButtons)
        ensures
            b == self@.control_buttons(),
    {
        ControlButtons {
            enabled: self.gui_state.load_project,
            first: match self.game_runtime.get_state() {
                RuntimeState::Stopped => ControlButton::Play,
                RuntimeState::Playing => ControlButton::Pause,
                RuntimeState::Paused => ControlButton::Resume,
            },
        }
    }

    /// Gives the runtime a copy of the editor's scenes as they are now.
    pub fn sync_scene_manager_to_runtime(&mut self)
        requires
            old(self).wf(),
        ensures
            final(self).wf(),
            final(self)@ == (EngineGuiView {
                game_runtime: old(self)@.synced_runtime(),
                ..old(self)@
            }),
    {
        if let Some(m) = &self.gui_state.scene_manager {
            let copy = m.clone();
            self.game_runtime.set_scene_manager(copy);
        }
    }

    /// Takes a press on a button that controls the game.
    fn press(&mut self, event: WindowEvent, subsystems_ready: bool) -> (action: WindowAction)
        requires
            old(self).wf(),
        ensures
            final(self).wf(),
            final(self)@ == old(self)@.press(event, subsystems_ready).gui,
            action == old(self)@.press(event, subsystems_ready).action,
    {
        match event {
            WindowEvent::Control(button) => {
                let buttons = self.control_buttons();
                if !buttons.enabled || buttons.first != button {
                    return WindowAction::Nothing;
                }
                match button {
                    ControlButton::Play => {
                        self.sync_scene_manager_to_runtime();
                        match self.game_runtime.run(subsystems_ready) {
                            Ok(()) => {
                                self.game_runtime.set_state(RuntimeState::Playing);
                                WindowAction::GameStarted
                            },
                            Err(e) => {
                                self.game_runtime.set_state(RuntimeState::Stopped);
                                WindowAction::GameFailed(e)
                            },
                        }
                    },
                    ControlButton::Pause => {
                        self.game_runtime.set_state(RuntimeState::Paused);
                        WindowAction::Nothing
                    },
                    ControlButton::Resume => {
                        self.game_runtime.set_state(RuntimeState::Playing);
                        let _ = self.game_runtime.run(subsystems_ready);
                        WindowAction::Nothing
                    },
                }
            },
            WindowEvent::Reset => {
                if self.gui_state.load_project {
                    self.game_runtime.reset();
                }
                WindowAction::Nothing
            },
            _ => WindowAction::Nothing,
        }
    }

    /// One frame of the window. Takes what the user did and the camera of
    /// the editor's view, and says what the caller has to do: the action
    /// that the event asks for, and the steps of the frame in their order.
    /// `subsystems_ready` says whether physics, rendering and audio could be
    /// made ready for the editor's scenes; it counts for `Play` only.
    ///
    /// The input of a frame goes to exactly one handler while the viewer
    /// shows, and to none while the text editor shows. The camera goes to
    /// the runtime, and a frame of the game advances, only while the game
    /// plays at the start of the frame.
    pub fn show_windows(
        &mut self,
        event: WindowEvent,
        subsystems_ready: bool,
        camera_position: (u32, u32),
        camera_zoom: u32,
    ) -> (out: WindowOutput)
        requires
            old(self).wf(),
        ensures
            final(self).wf(),
            ({
                let after = old(self)@.show_windows(
                    event,
                    subsystems_ready,
                    camera_position,
                    camera_zoom,
                );
                &&& final(self)@ == after.gui
                &&& out.action == after.action
                &&& out.steps@ == after.steps
            }),
    {
        let mut written = WindowAction::Nothing;
        match event {
            WindowEvent::ShowEditor => {
                self.show_editor = true;
            },
            WindowEvent::ShowViewer => {
                self.show_editor = false;
                if self.current_edited_file.is_some() {
                    written = WindowAction::WriteFile;
                }
            },
            WindowEvent::ConsoleOutput => {
                self.show_debug = false;
            },
            WindowEvent::ConsoleDebug => {
                self.show_debug = true;
            },
            WindowEvent::LogLevel(level) => {
                self.selected_log_level = level;
            },
            _ => {},
        }
        let mut steps: Vec<FrameStep> = Vec::new();
        if self.show_editor {
            return WindowOutput { action: written, steps };
        }
        if self.game_runtime.get_state() == RuntimeState::Playing {
            self.game_runtime.set_camera_state(camera_position, camera_zoom);
            steps.push(FrameStep::SyncCamera(self.game_runtime.camera()));
            steps.push(FrameStep::StepPhysics);
            steps.push(FrameStep::SubmitRender);
        }
        let pressed = self.press(event, subsystems_ready);
        steps.push(FrameStep::RouteInput(self.game_runtime.input_target()));
        let action = match pressed {
            WindowAction::Nothing => written,
            _ => pressed,
        };
        proof {
            let after = old(self)@.show_windows(
                event,
                subsystems_ready,
                camera_position,
                camera_zoom,
            );
            assert(steps@ =~= after.steps);
        }
        WindowOutput { action, steps }
    }

    /// Takes a file that was opened in the file panel into the text editor.
    pub fn file_opened(&mut self, path: String, content: String)
        ensures
            final(self)@ == (EngineGuiView {
                editor_content: content@,
                current_edited_file: Some(path@),
                ..old(self)@
            }),
            old(self).wf() ==> final(self).wf(),
    {
        self.editor_content = content;
        self.current_edited_file = Some(path);
    }

    /// Takes the text of the editor after it was changed. Says whether it
    /// has to be written to the file that is edited.
    pub fn editor_changed(&mut self, content: String) -> (write: bool)
        ensures
            final(self)@ == (EngineGuiView { editor_content: content@, ..old(self)@ }),
            write == old(self)@.current_edited_file.is_some(),
            old(self).wf() ==> final(self).wf(),
    {
        self.editor_content = content;
        self.current_edited_file.is_some()
    }

    /// Takes one write of physics into the working copy of the runtime.
    pub fn apply_transform(
        &mut self,
        entity: crate::handle::Handle,
        name: &str,
        value: crate::attribute::AttributeValue,
    ) -> (applied: bool)
        requires
            old(self).wf(),
        ensures
            final(self).wf(),
            applied == old(self)@.game_runtime.apply_transform(entity, name@, value@).is_some(),
            final(self)@ == (EngineGuiView {
                game_runtime: match old(self)@.game_runtime.apply_transform(
                    entity,
                    name@,
                    value@,
                ) {
                    Some(after) => after,
                    None => old(self)@.game_runtime,
                },
                ..old(self)@
            }),
    {
        self.game_runtime.apply_transform(entity, name, value)
    }

    /// Whether the editor's own camera follows the mouse.
    pub fn editor_camera_pans(
        &self,
        cursor_in_viewport: bool,
        secondary_pressed: bool,
        primary_pressed: bool,
        alt: bool,
    ) -> (b: bool)
        ensures
            b == self@.editor_camera_pans(
                cursor_in_viewport,
                secondary_pressed,
                primary_pressed,
                alt,
            ),
    {
        self.game_runtime.get_state() != RuntimeState::Playing && cursor_in_viewport && (
        secondary_pressed || (primary_pressed && alt))
    }

    /// Whether the outline of the game's camera is drawn.
    pub fn shows_camera_bounds(&self) -> (b: bool)
        ensures
            b == self@.shows_camera_bounds(),
    {
        match &self.gui_state.scene_manager {
            Some(m) => m.active_scene().is_some(),
            None => false,
        }
    }

    /// What the overlay says of the keys that are held.
    pub fn keys_label(inputs: &Vec<String>) -> (s: String)
        ensures
            s@ == keys_label(crate::text::text_views(inputs@)),
    {
        if inputs.len() == 0 {
            return "None".to_owned();
        }
        let ghost all = crate::text::text_views(inputs@);
        let mut s = inputs[0].clone();
        let mut i: usize = 1;
        assert(all.take(1) =~= seq![all[0]]);
        while i < inputs.len()
            invariant
                1 <= i <= inputs.len(),
                all == crate::text::text_views(inputs@),
                s@ == joined(all.take(i as int)),
            decreases inputs.len() - i,
        {
            s = s.concat(", ").concat(inputs[i].as_str());
            proof {
                let next = all.take(i + 1);
                assert(next.drop_last() =~= all.take(i as int));
                assert(next.last() == inputs@[i as int]@);
            }
            i += 1;
        }
        assert(all.take(inputs.len() as int) =~= all);
        s
    }
}

} // verus!
