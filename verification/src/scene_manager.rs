use crate::error::{LoadError, SceneError};
use crate::handle::Handle;
use crate::keyed::{
    check_handles, handles_valid, keyed_map, lemma_keyed_len, lemma_keyed_lookup, lemma_keyed_place, lemma_keyed_push,
    lemma_keyed_remove, lemma_keyed_update,
};
use crate::scene::{Scene, SceneView};
use crate::text::{is_blank, is_blank_text};
use vstd::prelude::*;
use vstd::string::*;

verus! {

/// What a `SceneManager` stands for: its scenes by their handles, in no
/// order, the active scene if one is set, and the number of handles it has
/// issued.
pub struct SceneManagerView {
    pub scenes: Map<Handle, SceneView>,
    pub active_scene: Option<Handle>,
    pub next_scene: u64,
}

impl SceneManagerView {
    /// A manager without scenes.
    pub open spec fn empty() -> SceneManagerView {
        SceneManagerView { scenes: Map::empty(), active_scene: None, next_scene: 0 }
    }

    /// Every scene stands under its own handle, is valid, and has a handle
    /// that the manager has issued; and the active scene, if one is set, is
    /// one of the scenes.
    pub open spec fn wf(self) -> bool {
        &&& self.scenes.dom().finite()
        &&& forall|h: Handle| #[trigger]
            self.scenes.contains_key(h) ==> {
                &&& self.scenes[h].id == h
                &&& self.scenes[h].wf()
                &&& self.was_issued(h)
            }
        &&& self.active_scene matches Some(a) ==> self.scenes.contains_key(a)
    }

    /// Whether the manager has handed `h` out at some time, for a scene that
    /// may be gone by now.
    pub open spec fn was_issued(self, h: Handle) -> bool {
        h.raw < self.next_scene
    }

    /// The handle that the next scene gets.
    pub open spec fn next_handle(self) -> Handle {
        Handle { raw: self.next_scene }
    }

    /// The manager after a scene of that name was asked for.
    pub open spec fn create_scene(self, name: Seq<char>) -> Result<SceneManagerView, SceneError> {
        if is_blank(name) {
            Err(SceneError::InvalidName)
        } else {
            Ok(
                SceneManagerView {
                    scenes: self.scenes.insert(
                        self.next_handle(),
                        SceneView::fresh(self.next_handle(), name),
                    ),
                    next_scene: (self.next_scene + 1) as u64,
                    ..self
                },
            )
        }
    }

    /// The manager without the scene `h`. If `h` was the active scene, no
    /// scene is active after it.
    pub open spec fn delete_scene(self, h: Handle) -> SceneManagerView {
        SceneManagerView {
            scenes: self.scenes.remove(h),
            active_scene: if self.active_scene == Some(h) {
                None
            } else {
                self.active_scene
            },
            ..self
        }
    }

    /// The manager with `s` under the handle that `s` has.
    pub open spec fn with_scene(self, s: SceneView) -> SceneManagerView {
        SceneManagerView { scenes: self.scenes.insert(s.id, s), ..self }
    }

    /// The manager after `h` was asked to be the active scene.
    pub open spec fn set_active(self, h: Handle) -> Result<SceneManagerView, SceneError> {
        if self.scenes.contains_key(h) {
            Ok(SceneManagerView { active_scene: Some(h), ..self })
        } else {
            Err(SceneError::NotFound)
        }
    }

    /// Whether an active scene is set.
    pub open spec fn has_active_scene(self) -> bool {
        self.active_scene is Some
    }

    /// Whether the manager and each of its scenes can issue one more handle.
    pub open spec fn has_room(self) -> bool {
        &&& self.next_scene < u64::MAX
        &&& forall|h: Handle| #[trigger]
            self.scenes.contains_key(h) ==> self.scenes[h].next_entity < u64::MAX
    }

    /// The manager with another name on the scene `scene`, if it is there.
    pub open spec fn rename_scene(self, scene: Handle, name: Seq<char>) -> SceneManagerView {
        if self.scenes.contains_key(scene) {
            self.with_scene(SceneView { name, ..self.scenes[scene] })
        } else {
            self
        }
    }

    /// The manager with `e` in place of the entity of `scene` that has the
    /// handle of `e`, if it is there.
    pub open spec fn with_entity(self, scene: Handle, e: crate::entity::EntityView) -> SceneManagerView {
        if self.has_entity(scene, e.id) {
            self.with_scene(self.scenes[scene].with_entity(e))
        } else {
            self
        }
    }

    /// The manager with another name on the entity `entity` of `scene`, if it
    /// is there.
    pub open spec fn rename_entity(self, scene: Handle, entity: Handle, name: Seq<char>) -> SceneManagerView {
        if self.has_entity(scene, entity) {
            self.with_entity(
                scene,
                crate::entity::EntityView { name, ..self.scenes[scene].entities[entity] },
            )
        } else {
            self
        }
    }

    /// The manager without the entity `entity` of `scene`.
    pub open spec fn delete_entity(self, scene: Handle, entity: Handle) -> SceneManagerView {
        if self.has_entity(scene, entity) {
            self.with_scene(self.scenes[scene].delete_entity(entity))
        } else {
            self
        }
    }

    /// Whether the scene `scene` holds the entity `entity`.
    pub open spec fn has_entity(self, scene: Handle, entity: Handle) -> bool {
        self.scenes.contains_key(scene) && self.scenes[scene].entities.contains_key(entity)
    }
}

/// Whether stored content can be a manager: the handles are in order, and the
/// active scene, if one is set, is among them.
pub open spec fn check_manager(ids: Seq<Handle>, active: Option<Handle>, next: u64) -> Result<
    (),
    LoadError,
> {
    match check_handles(ids, next) {
        Err(e) => Err(e),
        Ok(()) => if active matches Some(a) && !ids.contains(a) {
            Err(LoadError::MissingActiveScene)
        } else {
            Ok(())
        },
    }
}

/// The handles of a list of scenes, place by place.
pub open spec fn scene_ids(list: Seq<Scene>) -> Seq<Handle> {
    list.map_values(|s: Scene| s@.id)
}

/// What a list of scenes stands for, place by place.
pub open spec fn scene_views(list: Seq<Scene>) -> Seq<SceneView> {
    list.map_values(|s: Scene| s@)
}

/// The container of the scenes of a project, and the one place where its
/// content is kept.
#[derive(Debug, PartialEq, Eq)]
pub struct SceneManager {
    scenes: Vec<Scene>,
    active_scene: Option<Handle>,
    next_scene: u64,
}

impl View for SceneManager {
    type V = SceneManagerView;

    closed spec fn view(&self) -> SceneManagerView {
        SceneManagerView {
            scenes: keyed_map(scene_ids(self.scenes@), scene_views(self.scenes@)),
            active_scene: self.active_scene,
            next_scene: self.next_scene,
        }
    }
}

impl Clone for SceneManager {
    /// A deep copy: a value of its own, which shares nothing with the one it
    /// was made of.
    fn clone(&self) -> (r: Self)
        ensures
            r@ == self@,
            self.wf() ==> r.wf(),
    {
        let mut scenes: Vec<Scene> = Vec::new();
        let mut i: usize = 0;
        while i < self.scenes.len()
            invariant
                i <= self.scenes.len(),
                scenes@.len() == i,
                forall|j: int|
                    0 <= j < i ==> {
                        &&& (#[trigger] scenes@[j])@ == self.scenes@[j]@
                        &&& self.scenes@[j].wf() ==> scenes@[j].wf()
                    },
            decreases self.scenes.len() - i,
        {
            scenes.push(self.scenes[i].clone());
            i += 1;
        }
        proof {
            assert(scene_ids(scenes@) =~= scene_ids(self.scenes@));
            assert(scene_views(scenes@) =~= scene_views(self.scenes@));
        }
        SceneManager { scenes, active_scene: self.active_scene, next_scene: self.next_scene }
    }
}

impl SceneManager {
    /// The invariant of a manager, which every function here keeps: no two
    /// scenes share a handle, each scene is valid, each handle is one that
    /// the manager issued, and the active scene is there.
    pub closed spec fn wf(&self) -> bool {
        &&& scene_ids(self.scenes@).no_duplicates()
        &&& forall|i: int|
            0 <= i < self.scenes@.len() ==> {
                &&& (#[trigger] self.scenes@[i]).wf()
                &&& self.scenes@[i]@.id.raw < self.next_scene
            }
        &&& self.active_scene matches Some(a) ==> scene_ids(self.scenes@).contains(a)
    }

    /// A valid manager stands for a valid model.
    pub proof fn lemma_view_wf(&self)
        requires
            self.wf(),
        ensures
            self@.wf(),
    {
        let ids = scene_ids(self.scenes@);
        let views = scene_views(self.scenes@);
        lemma_keyed_len(ids, views);
        assert forall|h: Handle| #[trigger] self@.scenes.contains_key(h) implies {
            &&& self@.scenes[h].id == h
            &&& self@.scenes[h].wf()
            &&& self@.was_issued(h)
        } by {
            lemma_keyed_place(ids, views, h);
            let i = ids.index_of(h);
            assert(self.scenes@[i].wf());
            self.scenes@[i].lemma_view_wf();
        }
    }

    /// A manager without scenes.
    pub fn new() -> (m: SceneManager)
        ensures
            m.wf(),
            m@ == SceneManagerView::empty(),
    {
        let m = SceneManager { scenes: Vec::new(), active_scene: None, next_scene: 0 };
        proof {
            assert(m@.scenes =~= Map::empty());
        }
        m
    }

    /// The number of scenes.
    pub fn scene_count(&self) -> (n: usize)
        requires
            self.wf(),
        ensures
            n == self@.scenes.dom().len(),
    {
        proof {
            lemma_keyed_len(scene_ids(self.scenes@), scene_views(self.scenes@));
        }
        self.scenes.len()
    }

    /// The scenes in the order in which the manager stores them.
    pub closed spec fn stored(&self) -> Seq<Scene> {
        self.scenes@
    }

    /// Whether the manager and each of its scenes can issue one more handle.
    pub fn has_room(&self) -> (b: bool)
        requires
            self.wf(),
        ensures
            b == self@.has_room(),
    {
        if self.next_scene == u64::MAX {
            return false;
        }
        let ghost ids = scene_ids(self.scenes@);
        let ghost views = scene_views(self.scenes@);
        let mut i: usize = 0;
        while i < self.scenes.len()
            invariant
                self.wf(),
                i <= self.scenes.len(),
                ids == scene_ids(self.scenes@),
                views == scene_views(self.scenes@),
                forall|j: int| 0 <= j < i ==> (#[trigger] views[j]).next_entity < u64::MAX,
            decreases self.scenes.len() - i,
        {
            if !self.scenes[i].has_room() {
                proof {
                    lemma_keyed_lookup(ids, views, i as int);
                    assert(views[i as int] == self.scenes@[i as int]@);
                    assert(self@.scenes.contains_key(ids[i as int]));
                    assert(!(self@.scenes[ids[i as int]].next_entity < u64::MAX));
                }
                return false;
            }
            i += 1;
        }
        proof {
            assert forall|h: Handle| #[trigger] self@.scenes.contains_key(h) implies self@.scenes[h].next_entity
                < u64::MAX by {
                lemma_keyed_place(ids, views, h);
                assert(views[ids.index_of(h)].next_entity < u64::MAX);
            }
        }
        true
    }

    /// The number of handles that the manager has issued.
    pub fn next_scene(&self) -> (n: u64)
        ensures
            n == self@.next_scene,
    {
        self.next_scene
    }

    /// The manager that stored content makes: the scenes under their own
    /// handles, the active scene, and the number of handles issued. Refused
    /// where two scenes share a handle, where a handle is not below
    /// `next_scene`, or where the active scene is none of the scenes.
    pub fn restore(scenes: Vec<Scene>, active_scene: Option<Handle>, next_scene: u64) -> (r: Result<
        SceneManager,
        LoadError,
    >)
        requires
            forall|i: int| 0 <= i < scenes@.len() ==> (#[trigger] scenes@[i]).wf(),
        ensures
            match check_manager(scene_ids(scenes@), active_scene, next_scene) {
                Ok(()) => r matches Ok(m) && m.wf() && m.stored() == scenes@ && m@
                    == (SceneManagerView {
                    scenes: keyed_map(scene_ids(scenes@), scene_views(scenes@)),
                    active_scene,
                    next_scene,
                }),
                Err(e) => r matches Err(x) && x == e,
            },
    {
        let mut ids: Vec<Handle> = Vec::new();
        let mut i: usize = 0;
        while i < scenes.len()
            invariant
                i <= scenes.len(),
                ids@.len() == i,
                forall|j: int| 0 <= j < i ==> #[trigger] ids@[j] == scenes@[j]@.id,
            decreases scenes.len() - i,
        {
            ids.push(scenes[i].id());
            i += 1;
        }
        assert(ids@ =~= scene_ids(scenes@));
        match handles_valid(&ids, next_scene) {
            Err(e) => Err(e),
            Ok(()) => {
                if let Some(a) = active_scene {
                    let mut k: usize = 0;
                    let mut found = false;
                    while k < ids.len() && !found
                        invariant
                            k <= ids.len(),
                            found ==> ids@.contains(a),
                            !found ==> forall|j: int| 0 <= j < k ==> ids@[j] != a,
                        decreases ids.len() - k + (if found { 0int } else { 1int }),
                    {
                        if ids[k] == a {
                            found = true;
                        } else {
                            k += 1;
                        }
                    }
                    if !found {
                        return Err(LoadError::MissingActiveScene);
                    }
                }
                proof {
                    assert forall|j: int| 0 <= j < scenes@.len() implies (
                    #[trigger] scenes@[j])@.id.raw < next_scene by {
                        assert(ids@[j].raw < next_scene);
                    }
                }
                Ok(SceneManager { scenes, active_scene, next_scene })
            },
        }
    }

    /// What a valid manager stores makes the same manager again.
    pub proof fn lemma_restore(&self)
        requires
            self.wf(),
        ensures
            check_manager(scene_ids(self.stored()), self@.active_scene, self@.next_scene) is Ok,
            forall|i: int| 0 <= i < self.stored().len() ==> (#[trigger] self.stored()[i]).wf(),
            self@ == (SceneManagerView {
                scenes: keyed_map(scene_ids(self.stored()), scene_views(self.stored())),
                ..self@
            }),
    {
        let ids = scene_ids(self.scenes@);
        assert forall|i: int| 0 <= i < ids.len() implies (#[trigger] ids[i]).raw
            < self.next_scene by {
            assert(self.scenes@[i].wf());
        }
    }

    /// The scenes as the manager stores them. Their order means nothing.
    pub fn scenes(&self) -> (list: &Vec<Scene>)
        requires
            self.wf(),
        ensures
            list@ == self.stored(),
            scene_ids(list@).no_duplicates(),
            keyed_map(scene_ids(list@), scene_views(list@)) == self@.scenes,
            forall|i: int| 0 <= i < list@.len() ==> (#[trigger] list@[i]).wf(),
    {
        &self.scenes
    }

    /// The place of the scene `id` in the list.
    fn find(&self, id: Handle) -> (r: Option<usize>)
        requires
            self.wf(),
        ensures
            match r {
                Some(i) => i < self.scenes@.len() && self.scenes@[i as int]@.id == id
                    && self@.scenes.contains_key(id) && self@.scenes[id]
                    == self.scenes@[i as int]@,
                None => !self@.scenes.contains_key(id),
            },
    {
        let mut i: usize = 0;
        while i < self.scenes.len()
            invariant
                self.wf(),
                i <= self.scenes.len(),
                forall|j: int| 0 <= j < i ==> #[trigger] scene_ids(self.scenes@)[j] != id,
            decreases self.scenes.len() - i,
        {
            if self.scenes[i].id() == id {
                proof {
                    lemma_keyed_lookup(scene_ids(self.scenes@), scene_views(self.scenes@), i as int);
                }
                return Some(i);
            }
            i += 1;
        }
        None
    }

    /// Whether the manager holds a scene under `id`.
    pub fn contains_scene(&self, id: Handle) -> (b: bool)
        requires
            self.wf(),
        ensures
            b == self@.scenes.contains_key(id),
    {
        self.find(id).is_some()
    }

    /// Makes a scene of that name and says under which handle. The handle is
    /// one that this manager has never issued before. A name that is empty or
    /// blank is refused with `InvalidName`.
    pub fn create_scene(&mut self, name: &str) -> (r: Result<Handle, SceneError>)
        requires
            old(self).wf(),
            old(self)@.next_scene < u64::MAX,
        ensures
            final(self).wf(),
            match old(self)@.create_scene(name@) {
                Ok(after) => r == Ok::<Handle, SceneError>(old(self)@.next_handle()) && final(self)@
                    == after,
                Err(e) => r == Err::<Handle, SceneError>(e) && final(self)@ == old(self)@,
            },
    {
        if is_blank_text(name) {
            return Err(SceneError::InvalidName);
        }
        let id = Handle { raw: self.next_scene };
        let scene = Scene::new(id, name);
        let ghost ids = scene_ids(self.scenes@);
        let ghost views = scene_views(self.scenes@);
        proof {
            if ids.contains(id) {
                let j = ids.index_of(id);
                assert(self.scenes@[j]@.id.raw < self.next_scene);
            }
            lemma_keyed_push(ids, views, id, scene@);
        }
        self.scenes.push(scene);
        self.next_scene = self.next_scene + 1;
        proof {
            assert(scene_ids(self.scenes@) =~= ids.push(id));
            assert(scene_views(self.scenes@) =~= views.push(scene@));
            if let Some(a) = self.active_scene {
                let j = ids.index_of(a);
                assert(ids.push(id)[j] == a);
            }
        }
        Ok(id)
    }

    /// Ends the scene under `id`, and its entities with it. Says whether
    /// there was one: to delete what is not there is no error and changes
    /// nothing. If the scene was the active one, no scene is active after it.
    pub fn delete_scene(&mut self, id: Handle) -> (removed: bool)
        requires
            old(self).wf(),
        ensures
            final(self).wf(),
            removed == old(self)@.scenes.contains_key(id),
            final(self)@ == old(self)@.delete_scene(id),
    {
        match self.find(id) {
            Some(i) => {
                let ghost ids = scene_ids(self.scenes@);
                let ghost views = scene_views(self.scenes@);
                let ghost list = self.scenes@;
                proof {
                    lemma_keyed_remove(ids, views, i as int);
                }
                self.scenes.remove(i);
                if self.active_scene == Some(id) {
                    self.active_scene = None;
                }
                proof {
                    assert(scene_ids(self.scenes@) =~= ids.remove(i as int));
                    assert(scene_views(self.scenes@) =~= views.remove(i as int));
                    assert forall|j: int| 0 <= j < self.scenes@.len() implies {
                        &&& (#[trigger] self.scenes@[j]).wf()
                        &&& self.scenes@[j]@.id.raw < self.next_scene
                    } by {
                        if j < i as int {
                            assert(list[j].wf());
                        } else {
                            assert(list[j + 1].wf());
                        }
                    }
                    if let Some(a) = self.active_scene {
                        let j = ids.index_of(a);
                        assert(ids[j] == a);
                        let j2 = if j < i as int { j } else { j - 1 };
                        assert(ids.remove(i as int)[j2] == a);
                    }
                }
                true
            },
            None => {
                proof {
                    assert(self@.scenes.remove(id) =~= self@.scenes);
                    if self.active_scene == Some(id) {
                        assert(scene_ids(self.scenes@).contains(id));
                    }
                }
                false
            },
        }
    }

    /// The scene under `id`. Refused with `NotFound` where there is none.
    pub fn get_scene(&self, id: Handle) -> (r: Result<&Scene, SceneError>)
        requires
            self.wf(),
        ensures
            match r {
                Ok(s) => self@.scenes.contains_key(id) && s@ == self@.scenes[id] && s.wf() && s@.id
                    == id,
                Err(e) => e == SceneError::NotFound && !self@.scenes.contains_key(id),
            },
    {
        match self.find(id) {
            Some(i) => Ok(&self.scenes[i]),
            None => Err(SceneError::NotFound),
        }
    }

    /// The scene under `id`, to be changed in place. Refused with `NotFound`
    /// where there is none. The manager ends up with what the caller leaves
    /// in the scene; it stays valid if the scene is left valid and under its
    /// handle, as every function of `Scene` leaves it.
    pub fn get_scene_mut(&mut self, id: Handle) -> (r: Result<&mut Scene, SceneError>)
        requires
            old(self).wf(),
        ensures
            match r {
                Ok(s) => {
                    &&& old(self)@.scenes.contains_key(id)
                    &&& s@ == old(self)@.scenes[id]
                    &&& s@.id == id
                    &&& s.wf()
                    &&& final(s).wf() && final(s)@.id == id ==> final(self).wf() && final(self)@
                        == old(self)@.with_scene(final(s)@)
                },
                Err(e) => e == SceneError::NotFound && !old(self)@.scenes.contains_key(id)
                    && final(self)@ == old(self)@ && final(self).wf(),
            },
    {
        match self.find(id) {
            Some(i) => {
                let ghost ids = scene_ids(self.scenes@);
                let ghost views = scene_views(self.scenes@);
                let ghost list = self.scenes@;
                let ghost next = self.next_scene;
                proof {
                    assert forall|x: Scene| #[trigger] x.wf() && x@.id == id implies ({
                        let after = list.update(i as int, x);
                        &&& scene_ids(after) == ids
                        &&& keyed_map(scene_ids(after), scene_views(after)) == keyed_map(
                            ids,
                            views,
                        ).insert(id, x@)
                        &&& forall|j: int|
                            0 <= j < after.len() ==> {
                                &&& (#[trigger] after[j]).wf()
                                &&& after[j]@.id.raw < next
                            }
                    }) by {
                        let after = list.update(i as int, x);
                        lemma_keyed_update(ids, views, i as int, x@);
                        assert(scene_ids(after) =~= ids);
                        assert(scene_views(after) =~= views.update(i as int, x@));
                        assert forall|j: int| 0 <= j < after.len() implies {
                            &&& (#[trigger] after[j]).wf()
                            &&& after[j]@.id.raw < next
                        } by {
                            if j != i as int {
                                assert(list[j].wf());
                            } else {
                                assert(list[i as int]@.id.raw < next);
                            }
                        }
                    }
                }
                let s = &mut self.scenes[i];
                Ok(s)
            },
            None => Err(SceneError::NotFound),
        }
    }

    /// Makes `id` the active scene. Refused with `NotFound` where no scene
    /// stands under `id`; the active scene then stays what it was.
    pub fn set_active(&mut self, id: Handle) -> (r: Result<(), SceneError>)
        requires
            old(self).wf(),
        ensures
            final(self).wf(),
            match old(self)@.set_active(id) {
                Ok(after) => r is Ok && final(self)@ == after,
                Err(e) => r == Err::<(), SceneError>(e) && final(self)@ == old(self)@,
            },
    {
        match self.find(id) {
            Some(i) => {
                self.active_scene = Some(id);
                proof {
                    assert(scene_ids(self.scenes@)[i as int] == id);
                }
                Ok(())
            },
            None => Err(SceneError::NotFound),
        }
    }

    /// The handle of the active scene, if one is set.
    pub fn active_scene(&self) -> (r: Option<Handle>)
        ensures
            r == self@.active_scene,
    {
        self.active_scene
    }

    /// The active scene, if one is set.
    pub fn get_active_scene(&self) -> (r: Option<&Scene>)
        requires
            self.wf(),
        ensures
            match r {
                Some(s) => self@.active_scene == Some(s@.id) && s@ == self@.scenes[s@.id] && s.wf(),
                None => self@.active_scene is None,
            },
    {
        proof {
            self.lemma_view_wf();
        }
        match self.active_scene {
            Some(a) => match self.get_scene(a) {
                Ok(s) => Some(s),
                Err(_) => None,
            },
            None => None,
        }
    }
}

} // verus!
