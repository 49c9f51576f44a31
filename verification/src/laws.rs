use crate::engine_gui::{ControlButton, EngineGuiView, WindowEvent};
use crate::entity::{EntityView, ResourceKind};
use crate::error::SceneError;
use crate::game_runtime::{
    CameraState, FrameStep, GameRuntimeView, InputTarget, RuntimeError, RuntimeState,
};
use crate::gui::gui_state::{GuiStateView, SaveReason, SelectedItem};
use crate::gui::scene_hierarchy::popup::PopupManagerView;
use crate::gui::scene_hierarchy::{ItemKind, SceneHierarchyView};
use crate::predefined::template_of;
use crate::handle::Handle;
use crate::scene::SceneView;
use crate::scene_manager::SceneManagerView;
use crate::text::{is_blank, lemma_trimmed_not_blank, trimmed};
use vstd::prelude::*;
use vstd::string::*;

verus! {

/// A new scene gets a handle that the manager has never issued: it differs
/// from every handle issued before and names no scene that is there. The
/// scenes gain exactly one scene of that name, without entities.
pub proof fn law_scene_handles_are_fresh(m: SceneManagerView, name: Seq<char>, earlier: Handle)
    requires
        m.wf(),
        !is_blank(name),
        m.was_issued(earlier),
    ensures
        m.create_scene(name) is Ok,
        m.next_handle() != earlier,
        !m.scenes.contains_key(m.next_handle()),
        m.create_scene(name).unwrap().scenes == m.scenes.insert(
            m.next_handle(),
            SceneView::fresh(m.next_handle(), name),
        ),
        m.create_scene(name).unwrap().active_scene == m.active_scene,
{
}

/// While the manager can issue one more handle, the handle of a new scene
/// counts as issued from then on, as every earlier handle still does, and the
/// manager stays valid.
pub proof fn law_scene_handles_stay_issued(m: SceneManagerView, name: Seq<char>, earlier: Handle)
    requires
        m.wf(),
        m.next_scene < u64::MAX,
        !is_blank(name),
        m.was_issued(earlier),
    ensures
        m.create_scene(name).unwrap().wf(),
        m.create_scene(name).unwrap().was_issued(m.next_handle()),
        m.create_scene(name).unwrap().was_issued(earlier),
        m.create_scene(name).unwrap().next_handle() != m.next_handle(),
{
    let after = m.create_scene(name).unwrap();
    assert(SceneView::fresh(m.next_handle(), name).wf());
    assert(after.scenes.dom() =~= m.scenes.dom().insert(m.next_handle()));
}

/// A new entity gets a handle that the scene has never issued: it differs
/// from every handle issued before and names no entity that is there. The
/// entities gain exactly one entity of that name, with nothing on it.
pub proof fn law_entity_handles_are_fresh(s: SceneView, name: Seq<char>, earlier: Handle)
    requires
        s.wf(),
        !is_blank(name),
        s.was_issued(earlier),
    ensures
        s.create_entity(name) is Ok,
        s.next_handle() != earlier,
        !s.entities.contains_key(s.next_handle()),
        s.create_entity(name).unwrap().entities == s.entities.insert(
            s.next_handle(),
            EntityView::fresh(s.next_handle(), name),
        ),
{
}

/// While the scene can issue one more handle, the handle of a new entity
/// counts as issued from then on, as every earlier handle still does, and the
/// scene stays valid.
pub proof fn law_entity_handles_stay_issued(s: SceneView, name: Seq<char>, earlier: Handle)
    requires
        s.wf(),
        s.next_entity < u64::MAX,
        !is_blank(name),
        s.was_issued(earlier),
    ensures
        s.create_entity(name).unwrap().wf(),
        s.create_entity(name).unwrap().was_issued(s.next_handle()),
        s.create_entity(name).unwrap().was_issued(earlier),
        s.create_entity(name).unwrap().next_handle() != s.next_handle(),
{
    let after = s.create_entity(name).unwrap();
    assert(EntityView::fresh(s.next_handle(), name).wf());
    assert(after.entities.dom() =~= s.entities.dom().insert(s.next_handle()));
}

/// The create popup makes one fresh scene: under a name that is not blank,
/// the scenes gain exactly one scene without entities, named as typed
/// without the whitespace at the ends; its handle was never issued before
/// and names no scene that was there; and the new scene is picked.
pub proof fn law_popup_creates_one_fresh_scene(
    popup: PopupManagerView,
    gui: GuiStateView,
    earlier: Handle,
)
    requires
        gui.scene_manager matches Some(m) && m.wf() && m.was_issued(earlier),
        !is_blank(popup.create_item_name),
    ensures
        ({
            let m = gui.scene_manager.unwrap();
            let h = m.next_handle();
            let out = popup.create_new_scene(gui);
            &&& out.save == Some(SaveReason::CreatedScene)
            &&& out.gui.selected_item == SelectedItem::Scene(h)
            &&& h != earlier
            &&& !m.scenes.contains_key(h)
            &&& out.gui.scene_manager.unwrap().scenes == m.scenes.insert(
                h,
                SceneView::fresh(h, trimmed(popup.create_item_name)),
            )
        }),
{
    lemma_trimmed_not_blank(popup.create_item_name);
}

/// The scene panel makes one fresh scene, as the create popup does. Two
/// scenes asked for under one name get two handles.
pub proof fn law_panel_creates_one_fresh_scene(
    panel: SceneHierarchyView,
    gui: GuiStateView,
    earlier: Handle,
)
    requires
        gui.scene_manager matches Some(m) && m.wf() && m.was_issued(earlier),
        !is_blank(panel.create_item_name),
    ensures
        ({
            let m = gui.scene_manager.unwrap();
            let h = m.next_handle();
            let out = panel.create_new_scene(gui);
            &&& out.save == Some(SaveReason::CreatedScene)
            &&& out.gui.selected_item == SelectedItem::Scene(h)
            &&& out.hierarchy.selected_item == Some((ItemKind::Scene, h))
            &&& h != earlier
            &&& !m.scenes.contains_key(h)
            &&& out.gui.scene_manager.unwrap().scenes == m.scenes.insert(
                h,
                SceneView::fresh(h, trimmed(panel.create_item_name)),
            )
        }),
{
    lemma_trimmed_not_blank(panel.create_item_name);
}

/// The create popup makes one fresh entity: with a scene picked in the scene
/// panel and a name that is not blank, that scene gains exactly one entity,
/// named as typed without the whitespace at the ends; its handle was never
/// issued in the scene before, be it for an entity that is deleted by now;
/// every other scene stays as it is; and the new entity is picked. An entity
/// of a kind that the table does not know has nothing on it.
pub proof fn law_popup_creates_one_fresh_entity(
    popup: PopupManagerView,
    gui: GuiStateView,
    kind: Seq<char>,
    scene: Handle,
    earlier: Handle,
)
    requires
        gui.scene_manager matches Some(m) && m.wf() && m.scenes.contains_key(scene)
            && m.scenes[scene].was_issued(earlier),
        gui.scene_panel_selected_item == SelectedItem::Scene(scene),
        !is_blank(popup.create_item_name),
    ensures
        ({
            let m = gui.scene_manager.unwrap();
            let e = m.scenes[scene].next_handle();
            let out = popup.create_new_entity(gui, kind);
            let after = out.gui.scene_manager.unwrap();
            &&& out.save == Some(SaveReason::CreatedEntity)
            &&& out.gui.selected_item == SelectedItem::Entity(scene, e)
            &&& e != earlier
            &&& !m.scenes[scene].entities.contains_key(e)
            &&& after.scenes.dom() == m.scenes.dom()
            &&& forall|h: Handle| h != scene ==> after.scenes[h] == m.scenes[h]
            &&& after.scenes[scene].entities.dom() == m.scenes[scene].entities.dom().insert(e)
            &&& forall|h: Handle|
                h != e ==> after.scenes[scene].entities[h] == m.scenes[scene].entities[h]
            &&& after.scenes[scene].entities[e].id == e
            &&& after.scenes[scene].entities[e].name == trimmed(popup.create_item_name)
            &&& template_of(kind) is None ==> after.scenes[scene].entities[e] == EntityView::fresh(
                e,
                trimmed(popup.create_item_name),
            )
        }),
{
    lemma_trimmed_not_blank(popup.create_item_name);
    let m = gui.scene_manager.unwrap();
    let s = m.scenes[scene];
    let e = s.next_handle();
    let name = trimmed(popup.create_item_name);
    if let Some(attrs) = template_of(kind) {
        crate::scene::lemma_create_all_keeps_id(EntityView::fresh(e, name), attrs);
    }
    let after = popup.create_new_entity(gui, kind).gui.scene_manager.unwrap();
    assert(after.scenes.dom() =~= m.scenes.dom());
    assert(after.scenes[scene].entities.dom() =~= s.entities.dom().insert(e));
}

/// The scene panel makes one fresh entity in the scene that is picked in
/// it, as the create popup does.
pub proof fn law_panel_creates_one_fresh_entity(
    panel: SceneHierarchyView,
    gui: GuiStateView,
    entity_type: Seq<char>,
    scene: Handle,
    earlier: Handle,
)
    requires
        gui.scene_manager matches Some(m) && m.wf() && m.scenes.contains_key(scene)
            && m.scenes[scene].was_issued(earlier),
        panel.selected_item == Some((ItemKind::Scene, scene)),
        !is_blank(panel.create_item_name),
    ensures
        ({
            let m = gui.scene_manager.unwrap();
            let e = m.scenes[scene].next_handle();
            let out = panel.create_new_entity(entity_type, gui);
            let after = out.gui.scene_manager.unwrap();
            &&& out.save == Some(SaveReason::CreatedEntity)
            &&& out.gui.selected_item == SelectedItem::Entity(scene, e)
            &&& out.hierarchy.selected_item == Some((ItemKind::Entity, e))
            &&& e != earlier
            &&& !m.scenes[scene].entities.contains_key(e)
            &&& after.scenes.dom() == m.scenes.dom()
            &&& forall|h: Handle| h != scene ==> after.scenes[h] == m.scenes[h]
            &&& after.scenes[scene].entities.dom() == m.scenes[scene].entities.dom().insert(e)
            &&& forall|h: Handle|
                h != e ==> after.scenes[scene].entities[h] == m.scenes[scene].entities[h]
            &&& after.scenes[scene].entities[e].id == e
            &&& after.scenes[scene].entities[e].name == trimmed(panel.create_item_name)
        }),
{
    lemma_trimmed_not_blank(panel.create_item_name);
    let m = gui.scene_manager.unwrap();
    let s = m.scenes[scene];
    let e = s.next_handle();
    let name = trimmed(panel.create_item_name);
    if let Some(attrs) = template_of(entity_type) {
        crate::scene::lemma_create_all_keeps_id(EntityView::fresh(e, name), attrs);
    }
    let after = panel.create_new_entity(entity_type, gui).gui.scene_manager.unwrap();
    assert(after.scenes.dom() =~= m.scenes.dom());
    assert(after.scenes[scene].entities.dom() =~= s.entities.dom().insert(e));
}

/// The table of kinds has no row for `Physics`: an entity of that kind is
/// made with nothing on it.
pub proof fn law_physics_has_no_template()
    ensures
        template_of("Physics"@) is None,
        template_of("Camera"@) is Some,
{
    reveal_strlit("Physics");
    reveal_strlit("Camera");
    assert("Physics"@.len() != "Camera"@.len());
    reveal_with_fuel(crate::predefined::lookup_template, 3);
    assert(crate::predefined::predefined_table().drop_first().len() == 0);
}

/// A handle is not issued again after its scene was deleted: the scene that
/// is made next gets another one.
pub proof fn law_deleted_scene_handle_is_not_reused(m: SceneManagerView, gone: Handle)
    requires
        m.wf(),
        m.scenes.contains_key(gone),
    ensures
        m.delete_scene(gone).next_handle() != gone,
        m.delete_scene(gone).was_issued(gone),
{
}

/// Deleting the active scene leaves no scene active, and deleting another
/// scene leaves the active scene alone. The manager stays valid either way.
pub proof fn law_delete_scene_clears_active(m: SceneManagerView, scene: Handle)
    requires
        m.wf(),
    ensures
        m.delete_scene(scene).wf(),
        !m.delete_scene(scene).scenes.contains_key(scene),
        m.active_scene == Some(scene) ==> m.delete_scene(scene).active_scene is None,
        m.active_scene != Some(scene) ==> m.delete_scene(scene).active_scene == m.active_scene,
{
    let after = m.delete_scene(scene);
    assert(after.scenes.dom() =~= m.scenes.dom().remove(scene));
}

/// No pick outlives what it names: after a scene is deleted, a pick that was
/// valid is valid still, and names neither the scene nor one of its
/// entities.
pub proof fn law_delete_scene_leaves_no_dangling_pick(gui: GuiStateView, scene: Handle)
    requires
        gui.selection_valid(),
    ensures
        gui.delete_scene(scene).selection_valid(),
        gui.has_scene(scene) ==> !gui.delete_scene(scene).selected_item.spec_refers_to_scene(scene)
            && !gui.delete_scene(scene).scene_panel_selected_item.spec_refers_to_scene(scene),
{
}

/// No pick outlives what it names: after an entity is deleted, a pick that
/// was valid is valid still, and does not name the entity.
pub proof fn law_delete_entity_leaves_no_dangling_pick(gui: GuiStateView, scene: Handle, entity: Handle)
    requires
        gui.scene_manager matches Some(m) ==> m.wf(),
        gui.selection_valid(),
    ensures
        gui.delete_entity(scene, entity).selection_valid(),
        gui.has_entity(scene, entity) ==> !gui.delete_entity(scene, entity).has_entity(
            scene,
            entity,
        ),
{
}

/// Attaching a path twice is attaching it once: the path then stands in the
/// list exactly once.
pub proof fn law_attach_is_idempotent(e: EntityView, kind: ResourceKind, path: Seq<char>)
    requires
        e.wf(),
    ensures
        e.attach_resource(kind, path).attach_resource(kind, path) == e.attach_resource(kind, path),
        e.attach_resource(kind, path).wf(),
        e.attach_resource(kind, path).resources(kind).contains(path),
        e.attach_resource(kind, path).resources(kind).filter(|p: Seq<char>| p == path).len() == 1,
{
    let after = e.attach_resource(kind, path);
    let list = e.resources(kind);
    if !list.contains(path) {
        let grown = list.push(path);
        assert(grown[list.len() as int] == path);
        assert forall|i: int, j: int| 0 <= i < grown.len() && 0 <= j < grown.len() && i
            != j implies grown[i] != grown[j] by {
            if i < list.len() {
                assert(list.contains(list[i]));
            }
            if j < list.len() {
                assert(list.contains(list[j]));
            }
        }
    }
    let now = after.resources(kind);
    assert(now.contains(path));
    assert(now.no_duplicates());
    lemma_one_match(now, path);
}

/// In a list without doubles an item that is there is there once.
pub proof fn lemma_one_match(list: Seq<Seq<char>>, path: Seq<char>)
    requires
        list.no_duplicates(),
        list.contains(path),
    ensures
        list.filter(|p: Seq<char>| p == path).len() == 1,
    decreases list.len(),
{
    let f = |p: Seq<char>| p == path;
    reveal(Seq::filter);
    if list.len() > 0 {
        let head = list.drop_last();
        let i = list.index_of(path);
        assert(list[i] == path);
        if list.last() == path {
            if head.contains(path) {
                let j = head.index_of(path);
                assert(list[j] == path);
                assert(false);
            }
            lemma_no_match(head, path);
        } else {
            assert(head[i] == path);
            assert(head.contains(path));
            lemma_one_match(head, path);
        }
    }
}

/// In a list that lacks an item nothing matches it.
pub proof fn lemma_no_match(list: Seq<Seq<char>>, path: Seq<char>)
    requires
        !list.contains(path),
    ensures
        list.filter(|p: Seq<char>| p == path).len() == 0,
    decreases list.len(),
{
    reveal(Seq::filter);
    if list.len() > 0 {
        let head = list.drop_last();
        assert(list[list.len() - 1] == list.last());
        assert forall|j: int| 0 <= j < head.len() implies head[j] != path by {
            assert(list[j] == head[j]);
            assert(list.contains(list[j]));
        }
        assert(!head.contains(path));
        lemma_no_match(head, path);
    }
}

/// From `Stopped`, a start without an active scene is refused with
/// `NoActiveScene`, and the runtime stays as it was.
pub proof fn law_run_needs_active_scene(rt: GameRuntimeView, subsystems_ready: bool)
    requires
        rt.state == RuntimeState::Stopped,
        !rt.scene_manager.has_active_scene(),
    ensures
        rt.run_result(subsystems_ready) == Err::<(), RuntimeError>(RuntimeError::NoActiveScene),
        rt.run(subsystems_ready) == rt,
{
}

/// A start that is refused for any reason leaves the runtime `Stopped`.
pub proof fn law_refused_run_stays_stopped(rt: GameRuntimeView, subsystems_ready: bool)
    requires
        rt.run_result(subsystems_ready) is Err,
    ensures
        rt.state == RuntimeState::Stopped,
        rt.run(subsystems_ready) == rt,
{
}

/// From `Playing`, to pause and to run again leads back to `Playing` with
/// the working copy, the camera and all else as they were.
pub proof fn law_pause_then_run_resumes(rt: GameRuntimeView, subsystems_ready: bool)
    requires
        rt.state == RuntimeState::Playing,
    ensures
        rt.pause().state == RuntimeState::Paused,
        rt.pause().scene_manager == rt.scene_manager,
        rt.pause().run_result(subsystems_ready) is Ok,
        rt.pause().run(subsystems_ready) == rt,
{
}

/// `reset` always leads to `Stopped`. From `Playing` or `Paused` it throws
/// the working copy away and puts the camera back.
pub proof fn law_reset_stops(rt: GameRuntimeView)
    ensures
        rt.reset().state == RuntimeState::Stopped,
        rt.state != RuntimeState::Stopped ==> rt.reset().scene_manager
            == SceneManagerView::empty() && rt.reset().camera == rt.pre_play_camera,
{
}

/// After a reset, `Play` takes a copy of the scenes as the editor has them
/// now, whatever the runtime worked on before.
pub proof fn law_play_after_reset_takes_fresh_copy(gui: EngineGuiView, subsystems_ready: bool)
    requires
        gui.gui_state.scene_manager is Some,
    ensures
        ({
            let stopped = EngineGuiView { game_runtime: gui.game_runtime.reset(), ..gui };
            let out = stopped.play(subsystems_ready);
            &&& out.gui.game_runtime.scene_manager == gui.gui_state.scene_manager.unwrap()
            &&& out.gui.gui_state == gui.gui_state
            &&& out.gui.game_runtime.state == RuntimeState::Playing <==> (
            gui.gui_state.scene_manager.unwrap().has_active_scene() && subsystems_ready)
        }),
{
}

/// Physics writes to transforms only: a write to an attribute of another
/// name is never taken. A write that is taken changes the value of that one
/// attribute of that one entity of the active scene, and nothing else.
pub proof fn law_physics_writes_transforms_only(
    rt: GameRuntimeView,
    entity: Handle,
    name: Seq<char>,
    value: crate::attribute::AttributeValueView,
)
    requires
        rt.scene_manager.wf(),
    ensures
        !crate::text::has_prefix(name, crate::game_runtime::transform_prefix())
            ==> rt.apply_transform(entity, name, value) is None,
        rt.state != RuntimeState::Playing ==> rt.apply_transform(entity, name, value) is None,
        rt.apply_transform(entity, name, value) matches Some(after) ==> {
            let active = rt.scene_manager.active_scene.unwrap();
            let before = rt.scene_manager.scenes[active].entities[entity];
            let now = after.scene_manager.scenes[active].entities[entity];
            &&& after == (GameRuntimeView { scene_manager: after.scene_manager, ..rt })
            &&& after.scene_manager.active_scene == rt.scene_manager.active_scene
            &&& after.scene_manager.scenes.dom() == rt.scene_manager.scenes.dom()
            &&& forall|h: Handle|
                h != active ==> after.scene_manager.scenes[h] == rt.scene_manager.scenes[h]
            &&& after.scene_manager.scenes[active].entities.dom()
                == rt.scene_manager.scenes[active].entities.dom()
            &&& forall|h: Handle|
                h != entity ==> after.scene_manager.scenes[active].entities[h]
                    == rt.scene_manager.scenes[active].entities[h]
            &&& now.attribute_names() == before.attribute_names()
            &&& now.attribute(name).value == value
            &&& forall|i: int|
                0 <= i < before.attributes.len() && i != before.attribute_index(name)
                    ==> now.attributes[i] == before.attributes[i]
        },
{
    if let Some(after) = rt.apply_transform(entity, name, value) {
        let active = rt.scene_manager.active_scene.unwrap();
        let scene = rt.scene_manager.scenes[active];
        let before = scene.entities[entity];
        let now = before.set_attribute(name, value).unwrap();
        assert(now.id == entity);
        assert(scene.id == active);
        assert(after.scene_manager.scenes.dom() =~= rt.scene_manager.scenes.dom());
        assert(after.scene_manager.scenes[active].entities.dom() =~= scene.entities.dom());
        assert(now.attribute_names() =~= before.attribute_names());
        let k = before.attribute_index(name);
        assert(before.attribute_names()[k] == name);
    }
}

/// What the game does to its working copy never reaches the editor's
/// scenes: no frame of the window changes them.
pub proof fn law_window_frames_keep_scenes(
    gui: EngineGuiView,
    event: WindowEvent,
    subsystems_ready: bool,
    camera_position: (u32, u32),
    camera_zoom: u32,
)
    ensures
        gui.show_windows(event, subsystems_ready, camera_position, camera_zoom).gui.gui_state
            == gui.gui_state,
{
}

/// The input of a frame goes to exactly one handler while the viewer shows
/// after the event, and to none while the text editor shows: the last step
/// of the frame hands it on, and no step before does. The handler is the
/// game's if and only if the game plays at the end of the frame.
pub proof fn law_input_goes_to_one_handler(
    gui: EngineGuiView,
    event: WindowEvent,
    subsystems_ready: bool,
    camera_position: (u32, u32),
    camera_zoom: u32,
)
    ensures
        ({
            let out = gui.show_windows(event, subsystems_ready, camera_position, camera_zoom);
            let target = if out.gui.game_runtime.state == RuntimeState::Playing {
                InputTarget::Runtime
            } else {
                InputTarget::Editor
            };
            &&& out.gui.show_editor ==> out.steps.len() == 0
            &&& !out.gui.show_editor ==> {
                &&& out.steps.len() >= 1
                &&& out.steps.last() == FrameStep::RouteInput(target)
                &&& forall|i: int|
                    0 <= i < out.steps.len() - 1 ==> !(#[trigger] out.steps[i] is RouteInput)
            }
        }),
{
}

/// The camera goes to the runtime, and a frame of the game advances, if and
/// only if the viewer shows and the game plays at the start of the frame.
/// Then the camera of the editor is handed over first, one step of physics
/// follows, and one rendering; the editor never gets a camera back. Without
/// a press on a button the steps are those that the runtime plans.
pub proof fn law_frame_advances_while_playing(
    gui: EngineGuiView,
    event: WindowEvent,
    subsystems_ready: bool,
    camera_position: (u32, u32),
    camera_zoom: u32,
)
    ensures
        ({
            let out = gui.show_windows(event, subsystems_ready, camera_position, camera_zoom);
            let advancing = gui.switch(event).advances();
            let camera = CameraState { x: camera_position.0, y: camera_position.1, zoom: camera_zoom };
            &&& advancing ==> {
                &&& out.steps.len() == 4
                &&& out.steps[0] == FrameStep::SyncCamera(camera)
                &&& out.steps[1] == FrameStep::StepPhysics
                &&& out.steps[2] == FrameStep::SubmitRender
                &&& event != WindowEvent::Reset ==> out.gui.game_runtime.camera == camera
            }
            &&& !advancing ==> {
                &&& out.steps.len() <= 1
                &&& event != WindowEvent::Reset ==> out.gui.game_runtime.camera
                    == gui.game_runtime.camera
            }
            &&& advancing && !(event is Control) && event != WindowEvent::Reset ==> out.steps
                == out.gui.game_runtime.frame_steps()
        }),
{
    let out = gui.show_windows(event, subsystems_ready, camera_position, camera_zoom);
    if gui.switch(event).advances() && !(event is Control) && event != WindowEvent::Reset {
        assert(out.steps =~= out.gui.game_runtime.frame_steps());
    }
}

/// A frame of the window leaves the working copy of the game as it is,
/// unless `Play` hands the runtime a fresh copy or `Reset` throws the copy
/// away: an attribute such as the health of an entity is what it was.
pub proof fn law_frame_leaves_working_copy(
    gui: EngineGuiView,
    event: WindowEvent,
    subsystems_ready: bool,
    camera_position: (u32, u32),
    camera_zoom: u32,
)
    requires
        event != WindowEvent::Control(ControlButton::Play),
        event != WindowEvent::Reset,
    ensures
        gui.show_windows(
            event,
            subsystems_ready,
            camera_position,
            camera_zoom,
        ).gui.game_runtime.scene_manager == gui.game_runtime.scene_manager,
{
}

/// A refusal of the scene model is either a matter of the input, or tells of
/// a handle or a place that is stale.
pub proof fn law_errors_are_classified(e: SceneError)
    ensures
        e.spec_is_validation() <==> e != SceneError::NotFound && e != SceneError::IndexOutOfRange,
{
}

} // verus!
