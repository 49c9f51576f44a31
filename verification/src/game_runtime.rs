use crate::attribute::{AttributeValue, AttributeValueView};
use crate::handle::Handle;
use crate::scene_manager::{SceneManager, SceneManagerView};
use crate::text::{has_prefix, starts_with};
use vstd::prelude::*;
use vstd::string::*;

verus! {

/// Whether the game stands still, runs, or is held.
#[derive(Clone, Copy, Debug, PartialEq, Eq, Structural, Hash)]
pub enum RuntimeState {
    Stopped,
    Playing,
    Paused,
}

/// Why the runtime refused to start.
#[derive(Clone, Copy, Debug, PartialEq, Eq, Structural, Hash)]
pub enum RuntimeError {
    /// The working copy has no active scene to play.
    NoActiveScene,
    /// Physics, rendering or audio could not be made ready for the scene.
    SubsystemInitFailed,
}

impl RuntimeError {
    /// The wording of the refusal.
    pub open spec fn spec_message(self) -> Seq<char> {
        match self {
            RuntimeError::NoActiveScene => "no active scene"@,
            RuntimeError::SubsystemInitFailed => "subsystem initialization failed"@,
        }
    }

    pub fn message(self) -> (s: String)
        ensures
            s@ == self.spec_message(),
    {
        match self {
            RuntimeError::NoActiveScene => "no active scene".to_owned(),
            RuntimeError::SubsystemInitFailed => "subsystem initialization failed".to_owned(),
        }
    }
}

/// Where the view camera stands and how far it is zoomed in. Each field holds
/// the 32 bits of an IEEE 754 number: the runtime keeps them and hands them
/// on, and never computes with them.
#[derive(Clone, Copy, Debug, PartialEq, Eq, Structural, Hash)]
pub struct CameraState {
    pub x: u32,
    pub y: u32,
    pub zoom: u32,
}

/// Who gets the input of a frame.
#[derive(Clone, Copy, Debug, PartialEq, Eq, Structural, Hash)]
pub enum InputTarget {
    /// The handler of the running game.
    Runtime,
    /// The handler of the editor.
    Editor,
}

/// One thing to do in a frame.
#[derive(Clone, Copy, Debug, PartialEq, Eq, Structural, Hash)]
pub enum FrameStep {
    /// Hand the camera to the renderer.
    SyncCamera(CameraState),
    /// Let physics advance the working copy by one tick.
    StepPhysics,
    /// Hand the working copy to the renderer for its draw list.
    SubmitRender,
    /// Hand the input of the frame to one handler.
    RouteInput(InputTarget),
}

/// The start of the names of the attributes that say where an entity stands,
/// how it is turned and how large it is. Physics may write to these and to no
/// others.
pub open spec fn transform_prefix() -> Seq<char> {
    "transform_"@
}

/// What a `GameRuntime` stands for.
pub struct GameRuntimeView {
    pub scene_manager: SceneManagerView,
    pub target_fps: u32,
    pub state: RuntimeState,
    pub camera: CameraState,
    pub pre_play_camera: CameraState,
}

impl GameRuntimeView {
    /// A runtime that stands still.
    pub open spec fn fresh(scene_manager: SceneManagerView, target_fps: u32) -> GameRuntimeView {
        let camera = CameraState { x: 0, y: 0, zoom: 0 };
        GameRuntimeView {
            scene_manager,
            target_fps,
            state: RuntimeState::Stopped,
            camera,
            pre_play_camera: camera,
        }
    }

    /// What `run` answers: from `Stopped` the refusal if there is one, and in
    /// every other state success.
    pub open spec fn run_result(self, subsystems_ready: bool) -> Result<(), RuntimeError> {
        if self.state != RuntimeState::Stopped {
            Ok(())
        } else if !self.scene_manager.has_active_scene() {
            Err(RuntimeError::NoActiveScene)
        } else if !subsystems_ready {
            Err(RuntimeError::SubsystemInitFailed)
        } else {
            Ok(())
        }
    }

    /// The runtime after `run`. From `Stopped` it plays if nothing speaks
    /// against it, and remembers the camera it started with. From `Paused` it
    /// plays on with what it has. A refusal leaves it as it was.
    pub open spec fn run(self, subsystems_ready: bool) -> GameRuntimeView {
        if self.run_result(subsystems_ready) is Err {
            self
        } else if self.state == RuntimeState::Stopped {
            GameRuntimeView {
                state: RuntimeState::Playing,
                pre_play_camera: self.camera,
                ..self
            }
        } else {
            GameRuntimeView { state: RuntimeState::Playing, ..self }
        }
    }

    /// The runtime after `pause`: held if it played, else as it was.
    pub open spec fn pause(self) -> GameRuntimeView {
        if self.state == RuntimeState::Playing {
            GameRuntimeView { state: RuntimeState::Paused, ..self }
        } else {
            self
        }
    }

    /// The runtime after `reset`: it stands still. If it played or was held,
    /// its working copy is gone and the camera is the one it started with.
    pub open spec fn reset(self) -> GameRuntimeView {
        if self.state == RuntimeState::Stopped {
            self
        } else {
            GameRuntimeView {
                scene_manager: SceneManagerView::empty(),
                state: RuntimeState::Stopped,
                camera: self.pre_play_camera,
                ..self
            }
        }
    }

    /// Who gets the input: the game while it plays, else the editor.
    pub open spec fn input_target(self) -> InputTarget {
        if self.state == RuntimeState::Playing {
            InputTarget::Runtime
        } else {
            InputTarget::Editor
        }
    }

    /// What one frame does, in order. While the game plays: the camera goes
    /// to the renderer, physics advances, the scene is rendered, and the
    /// input goes to the game. Else only the input goes, to the editor.
    pub open spec fn frame_steps(self) -> Seq<FrameStep> {
        if self.state == RuntimeState::Playing {
            seq![
                FrameStep::SyncCamera(self.camera),
                FrameStep::StepPhysics,
                FrameStep::SubmitRender,
                FrameStep::RouteInput(InputTarget::Runtime),
            ]
        } else {
            seq![FrameStep::RouteInput(InputTarget::Editor)]
        }
    }

    /// The runtime after physics wrote `value` to the attribute `name` of the
    /// entity `entity` of the active scene, or `None` where the write is not
    /// taken: the game does not play, no scene is active, the entity or the
    /// attribute is not there, the name is not one of a transform, or the
    /// value has another shape than the attribute.
    pub open spec fn apply_transform(
        self,
        entity: Handle,
        name: Seq<char>,
        value: AttributeValueView,
    ) -> Option<GameRuntimeView> {
        if self.state == RuntimeState::Playing && self.scene_manager.active_scene is Some
            && has_prefix(name, transform_prefix()) {
            let scene = self.scene_manager.scenes[self.scene_manager.active_scene.unwrap()];
            if scene.entities.contains_key(entity) {
                match scene.entities[entity].set_attribute(name, value) {
                    Ok(after) => Some(
                        GameRuntimeView {
                            scene_manager: self.scene_manager.with_scene(scene.with_entity(after)),
                            ..self
                        },
                    ),
                    Err(_) => None,
                }
            } else {
                None
            }
        } else {
            None
        }
    }
}

/// The executor of a game: a working copy of the scenes, and the state of
/// play. It is driven from outside, one call for one frame, and owns no
/// clock.
#[derive(Debug)]
pub struct GameRuntime {
    scene_manager: SceneManager,
    target_fps: u32,
    state: RuntimeState,
    camera: CameraState,
    pre_play_camera: CameraState,
}

impl View for GameRuntime {
    type V = GameRuntimeView;

    closed spec fn view(&self) -> GameRuntimeView {
        GameRuntimeView {
            scene_manager: self.scene_manager@,
            target_fps: self.target_fps,
            state: self.state,
            camera: self.camera,
            pre_play_camera: self.pre_play_camera,
        }
    }
}

impl GameRuntime {
    /// The invariant of a runtime: its working copy is a valid manager.
    pub closed spec fn wf(&self) -> bool {
        self.scene_manager.wf()
    }

    /// A runtime that stands still, with a working copy to start from.
    pub fn new(scene_manager: SceneManager, target_fps: u32) -> (r: GameRuntime)
        requires
            scene_manager.wf(),
        ensures
            r.wf(),
            r@ == GameRuntimeView::fresh(scene_manager@, target_fps),
    {
        let camera = CameraState { x: 0, y: 0, zoom: 0 };
        GameRuntime {
            scene_manager,
            target_fps,
            state: RuntimeState::Stopped,
            camera,
            pre_play_camera: camera,
        }
    }

    pub fn get_state(&self) -> (s: RuntimeState)
        ensures
            s == self@.state,
    {
        self.state
    }

    /// Forces the state, past the checks that `run` makes. It is there to set
    /// things right, as after a failure, and not to start a game that was
    /// never made ready.
    pub fn set_state(&mut self, state: RuntimeState)
        ensures
            final(self)@ == (GameRuntimeView { state, ..old(self)@ }),
            old(self).wf() ==> final(self).wf(),
    {
        self.state = state;
    }

    pub fn target_fps(&self) -> (fps: u32)
        ensures
            fps == self@.target_fps,
    {
        self.target_fps
    }

    pub fn camera(&self) -> (c: CameraState)
        ensures
            c == self@.camera,
    {
        self.camera
    }

    /// Takes the camera of the editor's view. The camera goes one way only:
    /// the runtime never hands one back.
    pub fn set_camera_state(&mut self, position: (u32, u32), zoom: u32)
        ensures
            final(self)@ == (GameRuntimeView {
                camera: CameraState { x: position.0, y: position.1, zoom },
                ..old(self)@
            }),
            old(self).wf() ==> final(self).wf(),
    {
        self.camera = CameraState { x: position.0, y: position.1, zoom };
    }

    /// The working copy.
    pub fn get_scene_manager(&self) -> (m: &SceneManager)
        ensures
            m@ == self@.scene_manager,
            self.wf() ==> m.wf(),
    {
        &self.scene_manager
    }

    /// Gives the runtime a working copy of its own.
    pub fn set_scene_manager(&mut self, scene_manager: SceneManager)
        requires
            scene_manager.wf(),
        ensures
            final(self).wf(),
            final(self)@ == (GameRuntimeView { scene_manager: scene_manager@, ..old(self)@ }),
    {
        self.scene_manager = scene_manager;
    }

    /// Starts the game, or lets a held game play on. `subsystems_ready` says
    /// whether physics, rendering and audio could be made ready for the
    /// working copy. From `Stopped` the start is refused with `NoActiveScene`
    /// where the working copy has no active scene, else with
    /// `SubsystemInitFailed` where the subsystems are not ready; the runtime
    /// then stays `Stopped`. The working copy is never touched.
    pub fn run(&mut self, subsystems_ready: bool) -> (r: Result<(), RuntimeError>)
        ensures
            r == old(self)@.run_result(subsystems_ready),
            final(self)@ == old(self)@.run(subsystems_ready),
            old(self).wf() ==> final(self).wf(),
    {
        match self.state {
            RuntimeState::Stopped => {
                if self.scene_manager.active_scene().is_none() {
                    return Err(RuntimeError::NoActiveScene);
                }
                if !subsystems_ready {
                    return Err(RuntimeError::SubsystemInitFailed);
                }
                self.pre_play_camera = self.camera;
                self.state = RuntimeState::Playing;
                Ok(())
            },
            RuntimeState::Paused => {
                self.state = RuntimeState::Playing;
                Ok(())
            },
            RuntimeState::Playing => Ok(()),
        }
    }

    /// Holds a game that plays. Nothing but the state changes.
    pub fn pause(&mut self)
        ensures
            final(self)@ == old(self)@.pause(),
            old(self).wf() ==> final(self).wf(),
    {
        if self.state == RuntimeState::Playing {
            self.state = RuntimeState::Paused;
        }
    }

    /// Ends the game: the runtime stands still, its working copy is thrown
    /// away with all that the game did to it, and the camera is the one the
    /// game started with.
    pub fn reset(&mut self)
        ensures
            final(self)@ == old(self)@.reset(),
            old(self).wf() ==> final(self).wf(),
    {
        if self.state != RuntimeState::Stopped {
            self.scene_manager = SceneManager::new();
            self.camera = self.pre_play_camera;
            self.state = RuntimeState::Stopped;
        }
    }

    /// Who gets the input of the frame: never both handlers.
    pub fn input_target(&self) -> (t: InputTarget)
        ensures
            t == self@.input_target(),
    {
        if self.state == RuntimeState::Playing {
            InputTarget::Runtime
        } else {
            InputTarget::Editor
        }
    }

    /// What the frame does, in order.
    pub fn frame_steps(&self) -> (steps: Vec<FrameStep>)
        ensures
            steps@ == self@.frame_steps(),
    {
        let mut steps: Vec<FrameStep> = Vec::new();
        if self.state == RuntimeState::Playing {
            steps.push(FrameStep::SyncCamera(self.camera));
            steps.push(FrameStep::StepPhysics);
            steps.push(FrameStep::SubmitRender);
            steps.push(FrameStep::RouteInput(InputTarget::Runtime));
        } else {
            steps.push(FrameStep::RouteInput(InputTarget::Editor));
        }
        assert(steps@ =~= self@.frame_steps());
        steps
    }

    /// Takes one write of physics into the working copy. Says whether the
    /// write was taken; one that is not taken changes nothing.
    pub fn apply_transform(&mut self, entity: Handle, name: &str, value: AttributeValue) -> (applied:
        bool)
        requires
            old(self).wf(),
        ensures
            final(self).wf(),
            applied == old(self)@.apply_transform(entity, name@, value@).is_some(),
            final(self)@ == match old(self)@.apply_transform(entity, name@, value@) {
                Some(after) => after,
                None => old(self)@,
            },
    {
        if self.state != RuntimeState::Playing {
            return false;
        }
        if !starts_with(name, "transform_") {
            return false;
        }
        let active = match self.scene_manager.active_scene() {
            Some(a) => a,
            None => {
                return false;
            },
        };
        proof {
            self.scene_manager.lemma_view_wf();
        }
        let ghost before = self.scene_manager@;
        let ghost scene_before = before.scenes[active];
        let applied = match self.scene_manager.get_scene_mut(active) {
            Err(_) => false,
            Ok(scene) => match scene.get_entity_mut(entity) {
                Err(_) => false,
                Ok(e) => e.set_attribute(name, value).is_ok(),
            },
        };
        proof {
            let now = self.scene_manager@;
            if !applied {
                if scene_before.entities.contains_key(entity) {
                    let e = scene_before.entities[entity];
                    assert(scene_before.entities.insert(entity, e) =~= scene_before.entities);
                    assert(scene_before.with_entity(e) == scene_before);
                }
                assert(before.scenes.insert(active, scene_before) =~= before.scenes);
                assert(now == before);
            }
        }
        applied
    }
}

} // verus!
