use crate::entity::{Entity, EntityView};
use crate::error::{LoadError, SceneError};
use crate::handle::Handle;
use crate::keyed::{
    check_handles, handles_valid, keyed_map, lemma_keyed_len, lemma_keyed_lookup, lemma_keyed_place, lemma_keyed_push,
    lemma_keyed_remove, lemma_keyed_update,
};
use crate::entity::create_all;
use crate::predefined::{find_template, template_of};
use crate::text::{is_blank, is_blank_text};
use vstd::prelude::*;
use vstd::string::*;

verus! {

/// What a `Scene` stands for: its entities by their handles, in no order, and
/// the number of handles it has issued.
pub struct SceneView {
    pub id: Handle,
    pub name: Seq<char>,
    pub entities: Map<Handle, EntityView>,
    pub next_entity: u64,
}

impl SceneView {
    /// A scene with a name and no entity.
    pub open spec fn fresh(id: Handle, name: Seq<char>) -> SceneView {
        SceneView { id, name, entities: Map::empty(), next_entity: 0 }
    }

    /// Every entity stands under its own handle, is valid, and has a handle
    /// that the scene has issued.
    pub open spec fn wf(self) -> bool {
        &&& self.entities.dom().finite()
        &&& forall|h: Handle| #[trigger]
            self.entities.contains_key(h) ==> {
                &&& self.entities[h].id == h
                &&& self.entities[h].wf()
                &&& self.was_issued(h)
            }
    }

    /// Whether the scene has handed `h` out at some time, for an entity that
    /// may be gone by now.
    pub open spec fn was_issued(self, h: Handle) -> bool {
        h.raw < self.next_entity
    }

    /// The handle that the next entity gets.
    pub open spec fn next_handle(self) -> Handle {
        Handle { raw: self.next_entity }
    }

    /// The scene with one more entity under the next handle.
    pub open spec fn with_new_entity(self, e: EntityView) -> SceneView {
        SceneView {
            entities: self.entities.insert(self.next_handle(), e),
            next_entity: (self.next_entity + 1) as u64,
            ..self
        }
    }

    /// The scene after an entity of that name was asked for.
    pub open spec fn create_entity(self, name: Seq<char>) -> Result<SceneView, SceneError> {
        if is_blank(name) {
            Err(SceneError::InvalidName)
        } else {
            Ok(self.with_new_entity(EntityView::fresh(self.next_handle(), name)))
        }
    }

    /// The scene after an entity of a predefined kind was asked for.
    pub open spec fn create_predefined(self, kind: Seq<char>, name: Seq<char>) -> Result<
        SceneView,
        SceneError,
    > {
        if is_blank(name) {
            Err(SceneError::InvalidName)
        } else {
            match template_of(kind) {
                None => Err(SceneError::NotFound),
                Some(attrs) => Ok(
                    self.with_new_entity(
                        create_all(EntityView::fresh(self.next_handle(), name), attrs),
                    ),
                ),
            }
        }
    }

    /// The scene with `e` under the handle that `e` has.
    pub open spec fn with_entity(self, e: EntityView) -> SceneView {
        SceneView { entities: self.entities.insert(e.id, e), ..self }
    }

    /// The scene without the entity `h`.
    pub open spec fn delete_entity(self, h: Handle) -> SceneView {
        SceneView { entities: self.entities.remove(h), ..self }
    }
}

/// The handles of a list of entities, place by place.
pub open spec fn entity_ids(list: Seq<Entity>) -> Seq<Handle> {
    list.map_values(|e: Entity| e@.id)
}

/// What a list of entities stands for, place by place.
pub open spec fn entity_views(list: Seq<Entity>) -> Seq<EntityView> {
    list.map_values(|e: Entity| e@)
}

/// A named container of entities. It makes its entities, owns them, and is
/// the only one to end them.
#[derive(Debug, PartialEq, Eq)]
pub struct Scene {
    id: Handle,
    name: String,
    entities: Vec<Entity>,
    next_entity: u64,
}

impl View for Scene {
    type V = SceneView;

    closed spec fn view(&self) -> SceneView {
        SceneView {
            id: self.id,
            name: self.name@,
            entities: keyed_map(entity_ids(self.entities@), entity_views(self.entities@)),
            next_entity: self.next_entity,
        }
    }
}

impl Clone for Scene {
    /// A deep copy.
    fn clone(&self) -> (r: Self)
        ensures
            r@ == self@,
            self.wf() ==> r.wf(),
    {
        let mut entities: Vec<Entity> = Vec::new();
        let mut i: usize = 0;
        while i < self.entities.len()
            invariant
                i <= self.entities.len(),
                entities@.len() == i,
                forall|j: int| 0 <= j < i ==> (#[trigger] entities@[j])@ == self.entities@[j]@,
            decreases self.entities.len() - i,
        {
            entities.push(self.entities[i].clone());
            i += 1;
        }
        proof {
            assert(entity_ids(entities@) =~= entity_ids(self.entities@));
            assert(entity_views(entities@) =~= entity_views(self.entities@));
        }
        Scene { id: self.id, name: self.name.clone(), entities, next_entity: self.next_entity }
    }
}

impl Scene {
    /// The invariant of a scene, which every function here keeps: no two
    /// entities share a handle, each entity is valid, and each handle is one
    /// that the scene issued.
    pub closed spec fn wf(&self) -> bool {
        &&& entity_ids(self.entities@).no_duplicates()
        &&& forall|i: int|
            0 <= i < self.entities@.len() ==> {
                &&& (#[trigger] self.entities@[i]).wf()
                &&& self.entities@[i]@.id.raw < self.next_entity
            }
    }

    /// A valid scene stands for a valid model.
    pub proof fn lemma_view_wf(&self)
        requires
            self.wf(),
        ensures
            self@.wf(),
    {
        let ids = entity_ids(self.entities@);
        let views = entity_views(self.entities@);
        lemma_keyed_len(ids, views);
        assert forall|h: Handle| #[trigger] self@.entities.contains_key(h) implies {
            &&& self@.entities[h].id == h
            &&& self@.entities[h].wf()
            &&& self@.was_issued(h)
        } by {
            lemma_keyed_place(ids, views, h);
            let i = ids.index_of(h);
            assert(self.entities@[i].wf());
        }
    }

    /// A scene with a name and no entity.
    pub fn new(id: Handle, name: &str) -> (s: Scene)
        ensures
            s.wf(),
            s@ == SceneView::fresh(id, name@),
    {
        let s = Scene { id, name: name.to_owned(), entities: Vec::new(), next_entity: 0 };
        proof {
            assert(s@.entities =~= Map::empty());
        }
        s
    }

    pub fn id(&self) -> (id: Handle)
        ensures
            id == self@.id,
    {
        self.id
    }

    pub fn name(&self) -> (s: &String)
        ensures
            s@ == self@.name,
    {
        &self.name
    }

    /// Gives the scene another name.
    pub fn rename(&mut self, new_name: &str)
        ensures
            final(self)@ == (SceneView { name: new_name@, ..old(self)@ }),
            old(self).wf() ==> final(self).wf(),
    {
        self.name = new_name.to_owned();
    }

    /// The number of entities in the scene.
    pub fn entity_count(&self) -> (n: usize)
        requires
            self.wf(),
        ensures
            n == self@.entities.dom().len(),
    {
        proof {
            lemma_keyed_len(entity_ids(self.entities@), entity_views(self.entities@));
        }
        self.entities.len()
    }

    /// The entities in the order in which the scene stores them.
    pub closed spec fn stored(&self) -> Seq<Entity> {
        self.entities@
    }

    /// Whether the scene can issue one more handle.
    pub fn has_room(&self) -> (b: bool)
        ensures
            b == (self@.next_entity < u64::MAX),
    {
        self.next_entity < u64::MAX
    }

    /// The number of handles that the scene has issued.
    pub fn next_entity(&self) -> (n: u64)
        ensures
            n == self@.next_entity,
    {
        self.next_entity
    }

    /// The scene that stored content makes: the entities under their own
    /// handles, and the number of handles issued. Refused where two entities
    /// share a handle, or where a handle is not below `next_entity`.
    pub fn restore(id: Handle, name: &str, entities: Vec<Entity>, next_entity: u64) -> (r: Result<
        Scene,
        LoadError,
    >)
        requires
            forall|i: int| 0 <= i < entities@.len() ==> (#[trigger] entities@[i]).wf(),
        ensures
            match check_handles(entity_ids(entities@), next_entity) {
                Ok(()) => r matches Ok(s) && s.wf() && s.stored() == entities@ && s@ == (SceneView {
                    id,
                    name: name@,
                    entities: keyed_map(entity_ids(entities@), entity_views(entities@)),
                    next_entity,
                }),
                Err(e) => r matches Err(x) && x == e,
            },
    {
        let mut ids: Vec<Handle> = Vec::new();
        let mut i: usize = 0;
        while i < entities.len()
            invariant
                i <= entities.len(),
                ids@.len() == i,
                forall|j: int| 0 <= j < i ==> #[trigger] ids@[j] == entities@[j]@.id,
            decreases entities.len() - i,
        {
            ids.push(entities[i].id());
            i += 1;
        }
        assert(ids@ =~= entity_ids(entities@));
        match handles_valid(&ids, next_entity) {
            Err(e) => Err(e),
            Ok(()) => {
                proof {
                    assert forall|j: int| 0 <= j < entities@.len() implies (
                    #[trigger] entities@[j])@.id.raw < next_entity by {
                        assert(ids@[j].raw < next_entity);
                    }
                }
                Ok(Scene { id, name: name.to_owned(), entities, next_entity })
            },
        }
    }

    /// What a valid scene stores makes the same scene again.
    pub proof fn lemma_restore(&self)
        requires
            self.wf(),
        ensures
            check_handles(entity_ids(self.stored()), self@.next_entity) is Ok,
            forall|i: int| 0 <= i < self.stored().len() ==> (#[trigger] self.stored()[i]).wf(),
            self@ == (SceneView {
                entities: keyed_map(entity_ids(self.stored()), entity_views(self.stored())),
                ..self@
            }),
    {
        let ids = entity_ids(self.entities@);
        assert forall|i: int| 0 <= i < ids.len() implies (#[trigger] ids[i]).raw
            < self.next_entity by {
            assert(self.entities@[i].wf());
        }
    }

    /// The entities as the scene stores them. Their order means nothing.
    pub fn entities(&self) -> (list: &Vec<Entity>)
        requires
            self.wf(),
        ensures
            list@ == self.stored(),
            entity_ids(list@).no_duplicates(),
            keyed_map(entity_ids(list@), entity_views(list@)) == self@.entities,
            forall|i: int| 0 <= i < list@.len() ==> (#[trigger] list@[i]).wf(),
    {
        &self.entities
    }

    /// The place of the entity `id` in the list.
    fn find(&self, id: Handle) -> (r: Option<usize>)
        requires
            self.wf(),
        ensures
            match r {
                Some(i) => i < self.entities@.len() && self.entities@[i as int]@.id == id
                    && self@.entities.contains_key(id) && self@.entities[id]
                    == self.entities@[i as int]@,
                None => !self@.entities.contains_key(id),
            },
    {
        let mut i: usize = 0;
        while i < self.entities.len()
            invariant
                self.wf(),
                i <= self.entities.len(),
                forall|j: int| 0 <= j < i ==> #[trigger] entity_ids(self.entities@)[j] != id,
            decreases self.entities.len() - i,
        {
            if self.entities[i].id() == id {
                proof {
                    lemma_keyed_lookup(
                        entity_ids(self.entities@),
                        entity_views(self.entities@),
                        i as int,
                    );
                }
                return Some(i);
            }
            i += 1;
        }
        None
    }

    /// Whether the scene holds an entity under `id`.
    pub fn contains_entity(&self, id: Handle) -> (b: bool)
        requires
            self.wf(),
        ensures
            b == self@.entities.contains_key(id),
    {
        self.find(id).is_some()
    }

    /// Puts a finished entity under the next handle.
    fn adopt(&mut self, e: Entity)
        requires
            old(self).wf(),
            old(self)@.next_entity < u64::MAX,
            e.wf(),
            e@.id == old(self)@.next_handle(),
        ensures
            final(self).wf(),
            final(self)@ == old(self)@.with_new_entity(e@),
    {
        let ghost ids = entity_ids(self.entities@);
        let ghost views = entity_views(self.entities@);
        proof {
            if ids.contains(e@.id) {
                let j = ids.index_of(e@.id);
                assert(self.entities@[j]@.id.raw < self.next_entity);
            }
            lemma_keyed_push(ids, views, e@.id, e@);
        }
        self.entities.push(e);
        self.next_entity = self.next_entity + 1;
        proof {
            assert(entity_ids(self.entities@) =~= ids.push(e@.id));
            assert(entity_views(self.entities@) =~= views.push(e@));
        }
    }

    /// Makes an entity of that name and says under which handle. The handle
    /// is one that this scene has never issued before. A name that is empty
    /// or blank is refused with `InvalidName`.
    pub fn create_entity(&mut self, name: &str) -> (r: Result<Handle, SceneError>)
        requires
            old(self).wf(),
            old(self)@.next_entity < u64::MAX,
        ensures
            final(self).wf(),
            match old(self)@.create_entity(name@) {
                Ok(after) => r == Ok::<Handle, SceneError>(old(self)@.next_handle()) && final(self)@ == after,
                Err(e) => r == Err::<Handle, SceneError>(e) && final(self)@ == old(self)@,
            },
    {
        if is_blank_text(name) {
            return Err(SceneError::InvalidName);
        }
        let id = Handle { raw: self.next_entity };
        self.adopt(Entity::new(id, name));
        Ok(id)
    }

    /// Makes an entity of a predefined kind: an entity of that name with the
    /// attributes that the table of kinds gives for `kind`. A blank name is
    /// refused with `InvalidName`, else a kind that the table does not know
    /// with `NotFound`.
    pub fn create_predefined(&mut self, kind: &str, name: &str) -> (r: Result<Handle, SceneError>)
        requires
            old(self).wf(),
            old(self)@.next_entity < u64::MAX,
        ensures
            final(self).wf(),
            match old(self)@.create_predefined(kind@, name@) {
                Ok(after) => r == Ok::<Handle, SceneError>(old(self)@.next_handle()) && final(self)@ == after,
                Err(e) => r == Err::<Handle, SceneError>(e) && final(self)@ == old(self)@,
            },
    {
        if is_blank_text(name) {
            return Err(SceneError::InvalidName);
        }
        match find_template(kind) {
            None => Err(SceneError::NotFound),
            Some(attrs) => {
                let id = Handle { raw: self.next_entity };
                let mut e = Entity::new(id, name);
                e.create_all(&attrs);
                proof {
                    lemma_create_all_keeps_id(
                        EntityView::fresh(id, name@),
                        crate::entity::attribute_views(attrs@),
                    );
                }
                self.adopt(e);
                Ok(id)
            },
        }
    }

    /// Makes a camera: an entity of the kind `Camera`.
    pub fn create_camera(&mut self, name: &str) -> (r: Result<Handle, SceneError>)
        requires
            old(self).wf(),
            old(self)@.next_entity < u64::MAX,
        ensures
            final(self).wf(),
            match old(self)@.create_predefined("Camera"@, name@) {
                Ok(after) => r == Ok::<Handle, SceneError>(old(self)@.next_handle()) && final(self)@ == after,
                Err(e) => r == Err::<Handle, SceneError>(e) && final(self)@ == old(self)@,
            },
    {
        self.create_predefined("Camera", name)
    }

    /// The entity under `id`. Refused with `NotFound` where there is none.
    pub fn get_entity(&self, id: Handle) -> (r: Result<&Entity, SceneError>)
        requires
            self.wf(),
        ensures
            match r {
                Ok(e) => self@.entities.contains_key(id) && e@ == self@.entities[id] && e.wf()
                    && e@.id == id,
                Err(e) => e == SceneError::NotFound && !self@.entities.contains_key(id),
            },
    {
        match self.find(id) {
            Some(i) => Ok(&self.entities[i]),
            None => Err(SceneError::NotFound),
        }
    }

    /// The entity under `id`, to be changed in place. Refused with `NotFound`
    /// where there is none. The scene ends up with what the caller leaves in
    /// the entity; it stays valid if the entity is left valid and under its
    /// handle, as every function of `Entity` leaves it.
    pub fn get_entity_mut(&mut self, id: Handle) -> (r: Result<&mut Entity, SceneError>)
        requires
            old(self).wf(),
        ensures
            match r {
                Ok(e) => {
                    &&& old(self)@.entities.contains_key(id)
                    &&& e@ == old(self)@.entities[id]
                    &&& e@.id == id
                    &&& e.wf()
                    &&& final(e).wf() && final(e)@.id == id ==> final(self).wf() && final(self)@
                        == old(self)@.with_entity(final(e)@)
                },
                Err(e) => e == SceneError::NotFound && !old(self)@.entities.contains_key(id)
                    && final(self)@ == old(self)@ && final(self).wf(),
            },
    {
        match self.find(id) {
            Some(i) => {
                let ghost ids = entity_ids(self.entities@);
                let ghost views = entity_views(self.entities@);
                let ghost list = self.entities@;
                let ghost next = self.next_entity;
                proof {
                    assert forall|x: Entity| #[trigger] x.wf() && x@.id == id implies ({
                        let after = list.update(i as int, x);
                        &&& entity_ids(after) == ids
                        &&& keyed_map(entity_ids(after), entity_views(after)) == keyed_map(
                            ids,
                            views,
                        ).insert(id, x@)
                        &&& forall|j: int|
                            0 <= j < after.len() ==> {
                                &&& (#[trigger] after[j]).wf()
                                &&& after[j]@.id.raw < next
                            }
                    }) by {
                        let after = list.update(i as int, x);
                        lemma_keyed_update(ids, views, i as int, x@);
                        assert(entity_ids(after) =~= ids);
                        assert(entity_views(after) =~= views.update(i as int, x@));
                        assert forall|j: int| 0 <= j < after.len() implies {
                            &&& (#[trigger] after[j]).wf()
                            &&& after[j]@.id.raw < next
                        } by {
                            if j != i as int {
                                assert(list[j].wf());
                            } else {
                                assert(list[i as int]@.id.raw < next);
                            }
                        }
                    }
                }
                let e = &mut self.entities[i];
                Ok(e)
            },
            None => Err(SceneError::NotFound),
        }
    }

    /// Ends the entity under `id`. Says whether there was one: to delete what
    /// is not there is no error and changes nothing.
    pub fn delete_entity(&mut self, id: Handle) -> (removed: bool)
        requires
            old(self).wf(),
        ensures
            final(self).wf(),
            removed == old(self)@.entities.contains_key(id),
            final(self)@ == old(self)@.delete_entity(id),
    {
        match self.find(id) {
            Some(i) => {
                let ghost ids = entity_ids(self.entities@);
                let ghost views = entity_views(self.entities@);
                let ghost list = self.entities@;
                proof {
                    lemma_keyed_remove(ids, views, i as int);
                }
                self.entities.remove(i);
                proof {
                    assert(entity_ids(self.entities@) =~= ids.remove(i as int));
                    assert(entity_views(self.entities@) =~= views.remove(i as int));
                    assert forall|j: int| 0 <= j < self.entities@.len() implies {
                        &&& (#[trigger] self.entities@[j]).wf()
                        &&& self.entities@[j]@.id.raw < self.next_entity
                    } by {
                        if j < i as int {
                            assert(list[j].wf());
                        } else {
                            assert(list[j + 1].wf());
                        }
                    }
                }
                true
            },
            None => {
                proof {
                    assert(self@.entities.remove(id) =~= self@.entities);
                }
                false
            },
        }
    }
}

/// Asking for attributes changes the attributes of an entity and nothing else.
pub proof fn lemma_create_all_keeps_id(e: EntityView, attrs: Seq<crate::attribute::AttributeView>)
    ensures
        create_all(e, attrs).id == e.id,
        create_all(e, attrs).name == e.name,
        create_all(e, attrs).images == e.images,
        create_all(e, attrs).sounds == e.sounds,
    decreases attrs.len(),
{
    if attrs.len() > 0 {
        let next = match e.create_attribute(attrs[0]) {
            Ok(after) => after,
            Err(_) => e,
        };
        lemma_create_all_keeps_id(next, attrs.drop_first());
    }
}

} // verus!
