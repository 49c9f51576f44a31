use crate::attribute::{Attribute, AttributeType, AttributeValue, AttributeView};
use crate::error::SceneError;
use crate::handle::Handle;
use crate::text::{copy_texts, find_text, same_text, text_views};
use vstd::prelude::*;
use vstd::string::*;

verus! {

/// The two lists of asset paths that an entity keeps.
#[derive(Clone, Copy, Debug, PartialEq, Eq, Structural, Hash)]
pub enum ResourceKind {
    Image,
    Sound,
}

/// What an `Entity` stands for.
pub struct EntityView {
    pub id: Handle,
    pub name: Seq<char>,
    pub attributes: Seq<AttributeView>,
    pub images: Seq<Seq<char>>,
    pub sounds: Seq<Seq<char>>,
}

impl EntityView {
    /// An entity with a name and nothing else.
    pub open spec fn fresh(id: Handle, name: Seq<char>) -> EntityView {
        EntityView {
            id,
            name,
            attributes: Seq::empty(),
            images: Seq::empty(),
            sounds: Seq::empty(),
        }
    }

    /// The names of the attributes, in the order in which they were made.
    pub open spec fn attribute_names(self) -> Seq<Seq<char>> {
        self.attributes.map_values(|a: AttributeView| a.name)
    }

    /// No two attributes share a name, each value has its declared shape,
    /// and no path stands twice in a list of resources.
    pub open spec fn wf(self) -> bool {
        &&& self.attribute_names().no_duplicates()
        &&& forall|i: int| 0 <= i < self.attributes.len() ==> (#[trigger] self.attributes[i]).wf()
        &&& self.images.no_duplicates()
        &&& self.sounds.no_duplicates()
    }

    pub open spec fn has_attribute(self, name: Seq<char>) -> bool {
        self.attribute_names().contains(name)
    }

    /// The place of the attribute of that name.
    pub open spec fn attribute_index(self, name: Seq<char>) -> int {
        self.attribute_names().index_of(name)
    }

    pub open spec fn attribute(self, name: Seq<char>) -> AttributeView {
        self.attributes[self.attribute_index(name)]
    }

    pub open spec fn resources(self, kind: ResourceKind) -> Seq<Seq<char>> {
        match kind {
            ResourceKind::Image => self.images,
            ResourceKind::Sound => self.sounds,
        }
    }

    pub open spec fn with_resources(self, kind: ResourceKind, list: Seq<Seq<char>>) -> EntityView {
        match kind {
            ResourceKind::Image => EntityView { images: list, ..self },
            ResourceKind::Sound => EntityView { sounds: list, ..self },
        }
    }

    pub open spec fn has_resources(self) -> bool {
        self.images.len() > 0 || self.sounds.len() > 0
    }

    /// The entity after an attribute was asked for: with it at the end of the
    /// attributes, or the refusal.
    pub open spec fn create_attribute(self, a: AttributeView) -> Result<EntityView, SceneError> {
        if self.has_attribute(a.name) {
            Err(SceneError::DuplicateAttribute)
        } else if !a.wf() {
            Err(SceneError::TypeMismatch)
        } else {
            Ok(EntityView { attributes: self.attributes.push(a), ..self })
        }
    }

    /// The entity after a value was handed to the attribute `name`.
    pub open spec fn set_attribute(self, name: Seq<char>, value: crate::attribute::AttributeValueView) -> Result<
        EntityView,
        SceneError,
    > {
        if !self.has_attribute(name) {
            Err(SceneError::NotFound)
        } else if value.kind() != self.attribute(name).value_type {
            Err(SceneError::TypeMismatch)
        } else {
            Ok(
                EntityView {
                    attributes: self.attributes.update(
                        self.attribute_index(name),
                        AttributeView { value, ..self.attribute(name) },
                    ),
                    ..self
                },
            )
        }
    }

    /// The entity without the attribute `name`.
    pub open spec fn delete_attribute(self, name: Seq<char>) -> EntityView {
        if self.has_attribute(name) {
            EntityView { attributes: self.attributes.remove(self.attribute_index(name)), ..self }
        } else {
            self
        }
    }

    /// The entity with `path` among its resources of `kind`: appended where it
    /// was not there, unchanged where it was.
    pub open spec fn attach_resource(self, kind: ResourceKind, path: Seq<char>) -> EntityView {
        if self.resources(kind).contains(path) {
            self
        } else {
            self.with_resources(kind, self.resources(kind).push(path))
        }
    }

    /// The entity without the resources at `places` of `kind`.
    pub open spec fn detach_many(self, kind: ResourceKind, places: Seq<usize>) -> Result<
        EntityView,
        SceneError,
    > {
        if places_valid(places, self.resources(kind).len()) {
            Ok(self.with_resources(kind, without_places(self.resources(kind), places)))
        } else {
            Err(SceneError::IndexOutOfRange)
        }
    }

    /// The entity without the resource at place `index` of `kind`.
    pub open spec fn detach_resource(self, kind: ResourceKind, index: int) -> Result<
        EntityView,
        SceneError,
    > {
        if 0 <= index < self.resources(kind).len() {
            Ok(self.with_resources(kind, self.resources(kind).remove(index)))
        } else {
            Err(SceneError::IndexOutOfRange)
        }
    }
}

/// Whether `places` names places of a list of length `len`, each once and in
/// rising order.
pub open spec fn places_valid(places: Seq<usize>, len: nat) -> bool {
    &&& forall|i: int, j: int| 0 <= i < j < places.len() ==> places[i] < places[j]
    &&& forall|i: int| 0 <= i < places.len() ==> places[i] < len
}

/// A list without what stands at `places`, taken out from the last place to
/// the first.
pub open spec fn without_places(list: Seq<Seq<char>>, places: Seq<usize>) -> Seq<Seq<char>>
    decreases places.len(),
{
    if places.len() == 0 {
        list
    } else {
        without_places(list.remove(places.last() as int), places.drop_last())
    }
}

/// An entity after each path of a list was attached in turn.
pub open spec fn attach_all(e: EntityView, kind: ResourceKind, paths: Seq<Seq<char>>) -> EntityView
    decreases paths.len(),
{
    if paths.len() == 0 {
        e
    } else {
        attach_all(e.attach_resource(kind, paths[0]), kind, paths.drop_first())
    }
}

/// An entity after each attribute of a list was asked for in turn. An
/// attribute that is refused is passed over.
pub open spec fn create_all(e: EntityView, attrs: Seq<AttributeView>) -> EntityView
    decreases attrs.len(),
{
    if attrs.len() == 0 {
        e
    } else {
        let next = match e.create_attribute(attrs[0]) {
            Ok(after) => after,
            Err(_) => e,
        };
        create_all(next, attrs.drop_first())
    }
}

/// The entity that stored content makes: a fresh entity to which the
/// attributes, the images and the sounds were given one by one.
pub open spec fn restored_entity(
    id: Handle,
    name: Seq<char>,
    attrs: Seq<AttributeView>,
    images: Seq<Seq<char>>,
    sounds: Seq<Seq<char>>,
) -> EntityView {
    attach_all(
        attach_all(create_all(EntityView::fresh(id, name), attrs), ResourceKind::Image, images),
        ResourceKind::Sound,
        sounds,
    )
}

/// What a list of attributes stands for.
pub open spec fn attribute_views(list: Seq<Attribute>) -> Seq<AttributeView> {
    list.map_values(|a: Attribute| a@)
}

/// A named container of attributes and of references to assets.
#[derive(Debug, PartialEq, Eq)]
pub struct Entity {
    id: Handle,
    name: String,
    attributes: Vec<Attribute>,
    images: Vec<String>,
    sounds: Vec<String>,
}

impl View for Entity {
    type V = EntityView;

    closed spec fn view(&self) -> EntityView {
        EntityView {
            id: self.id,
            name: self.name@,
            attributes: attribute_views(self.attributes@),
            images: text_views(self.images@),
            sounds: text_views(self.sounds@),
        }
    }
}

impl Clone for Entity {
    /// A deep copy.
    fn clone(&self) -> (r: Self)
        ensures
            r@ == self@,
    {
        let mut attributes: Vec<Attribute> = Vec::new();
        let mut i: usize = 0;
        while i < self.attributes.len()
            invariant
                i <= self.attributes.len(),
                attributes@.len() == i,
                forall|j: int| 0 <= j < i ==> (#[trigger] attributes@[j])@ == self.attributes@[j]@,
            decreases self.attributes.len() - i,
        {
            attributes.push(self.attributes[i].clone());
            i += 1;
        }
        assert(attribute_views(attributes@) =~= attribute_views(self.attributes@));
        Entity {
            id: self.id,
            name: self.name.clone(),
            attributes,
            images: copy_texts(&self.images),
            sounds: copy_texts(&self.sounds),
        }
    }
}

impl Entity {
    /// The invariant of an entity, which every function here keeps.
    pub open spec fn wf(&self) -> bool {
        self@.wf()
    }

    /// An entity with a name and nothing else.
    pub fn new(id: Handle, name: &str) -> (e: Entity)
        ensures
            e.wf(),
            e@ == EntityView::fresh(id, name@),
    {
        let e = Entity {
            id,
            name: name.to_owned(),
            attributes: Vec::new(),
            images: Vec::new(),
            sounds: Vec::new(),
        };
        proof {
            assert(e@.attributes =~= Seq::empty());
            assert(e@.images =~= Seq::empty());
            assert(e@.sounds =~= Seq::empty());
        }
        e
    }

    pub fn id(&self) -> (id: Handle)
        ensures
            id == self@.id,
    {
        self.id
    }

    pub fn name(&self) -> (s: &String)
        ensures
            s@ == self@.name,
    {
        &self.name
    }

    /// Gives the entity another name. Any name is taken, the empty one too.
    pub fn rename(&mut self, new_name: &str)
        ensures
            final(self)@ == (EntityView { name: new_name@, ..old(self)@ }),
    {
        self.name = new_name.to_owned();
    }

    pub fn attributes(&self) -> (list: &Vec<Attribute>)
        ensures
            attribute_views(list@) == self@.attributes,
    {
        &self.attributes
    }

    pub fn images(&self) -> (list: &Vec<String>)
        ensures
            text_views(list@) == self@.images,
    {
        &self.images
    }

    pub fn sounds(&self) -> (list: &Vec<String>)
        ensures
            text_views(list@) == self@.sounds,
    {
        &self.sounds
    }

    /// The list of resources of one kind.
    pub fn resources(&self, kind: ResourceKind) -> (list: &Vec<String>)
        ensures
            text_views(list@) == self@.resources(kind),
    {
        match kind {
            ResourceKind::Image => &self.images,
            ResourceKind::Sound => &self.sounds,
        }
    }

    /// Whether a path of an image or of a sound is attached.
    pub fn has_resources(&self) -> (b: bool)
        ensures
            b == self@.has_resources(),
    {
        self.images.len() > 0 || self.sounds.len() > 0
    }

    /// The place of the attribute of that name among the attributes.
    fn find_attribute(&self, name: &str) -> (r: Option<usize>)
        requires
            self.wf(),
        ensures
            match r {
                Some(i) => self@.has_attribute(name@) && i as int == self@.attribute_index(name@)
                    && i < self.attributes.len(),
                None => !self@.has_attribute(name@),
            },
    {
        let mut i: usize = 0;
        while i < self.attributes.len()
            invariant
                self.wf(),
                i <= self.attributes.len(),
                forall|j: int| 0 <= j < i ==> #[trigger] self@.attribute_names()[j] != name@,
            decreases self.attributes.len() - i,
        {
            if same_text(self.attributes[i].name().as_str(), name) {
                proof {
                    let names = self@.attribute_names();
                    assert(names[i as int] == name@);
                    assert(names.contains(name@));
                    let k = names.index_of(name@);
                    assert(names[k] == name@);
                }
                return Some(i);
            }
            i += 1;
        }
        None
    }

    /// Adds an attribute at the end of the attributes. A name that is taken
    /// is refused with `DuplicateAttribute`; else a value of another shape
    /// than `value_type` with `TypeMismatch`.
    pub fn create_attribute(
        &mut self,
        name: &str,
        value_type: AttributeType,
        value: AttributeValue,
    ) -> (r: Result<(), SceneError>)
        requires
            old(self).wf(),
        ensures
            final(self).wf(),
            match old(self)@.create_attribute(
                AttributeView { name: name@, value_type, value: value@ },
            ) {
                Ok(after) => r is Ok && final(self)@ == after,
                Err(e) => r == Err::<(), SceneError>(e) && final(self)@ == old(self)@,
            },
    {
        if self.find_attribute(name).is_some() {
            return Err(SceneError::DuplicateAttribute);
        }
        match Attribute::new(name, value_type, value) {
            Ok(a) => {
                let ghost before = self@;
                self.attributes.push(a);
                proof {
                    assert(self@.attributes =~= before.attributes.push(a@));
                    assert(self@.attribute_names() =~= before.attribute_names().push(name@));
                }
                Ok(())
            },
            Err(e) => Err(e),
        }
    }

    /// The attribute of that name, if there is one.
    pub fn get_attribute(&self, name: &str) -> (r: Option<&Attribute>)
        requires
            self.wf(),
        ensures
            match r {
                Some(a) => self@.has_attribute(name@) && a@ == self@.attribute(name@) && a.wf(),
                None => !self@.has_attribute(name@),
            },
    {
        match self.find_attribute(name) {
            Some(i) => {
                assert(self@.attributes[i as int].wf());
                Some(&self.attributes[i])
            },
            None => None,
        }
    }

    /// Hands the attribute `name` another value. Refused with `NotFound` where
    /// no attribute has that name, else with `TypeMismatch` where the value has
    /// another shape than the attribute.
    pub fn set_attribute(&mut self, name: &str, value: AttributeValue) -> (r: Result<
        (),
        SceneError,
    >)
        requires
            old(self).wf(),
        ensures
            final(self).wf(),
            match old(self)@.set_attribute(name@, value@) {
                Ok(after) => r is Ok && final(self)@ == after,
                Err(e) => r == Err::<(), SceneError>(e) && final(self)@ == old(self)@,
            },
    {
        match self.find_attribute(name) {
            None => Err(SceneError::NotFound),
            Some(i) => {
                let ghost before = self@;
                assert(before.attributes[i as int].wf());
                if value.kind() != self.attributes[i].value_type() {
                    return Err(SceneError::TypeMismatch);
                }
                let mut a = self.attributes.remove(i);
                let _ = a.set_value(value);
                self.attributes.insert(i, a);
                proof {
                    assert(self@.attributes =~= before.attributes.update(i as int, a@));
                    assert(self@.attribute_names() =~= before.attribute_names());
                    assert forall|j: int| 0 <= j < self@.attributes.len() implies (
                    #[trigger] self@.attributes[j]).wf() by {
                        if j != i as int {
                            assert(before.attributes[j].wf());
                        }
                    }
                }
                Ok(())
            },
        }
    }

    /// Takes the attribute `name` away. Says whether there was one.
    pub fn delete_attribute(&mut self, name: &str) -> (removed: bool)
        requires
            old(self).wf(),
        ensures
            final(self).wf(),
            removed == old(self)@.has_attribute(name@),
            final(self)@ == old(self)@.delete_attribute(name@),
    {
        match self.find_attribute(name) {
            None => false,
            Some(i) => {
                let ghost before = self@;
                self.attributes.remove(i);
                proof {
                    assert(self@.attributes =~= before.attributes.remove(i as int));
                    assert(self@.attribute_names() =~= before.attribute_names().remove(i as int));
                    before.attribute_names().remove_ensures(i as int);
                    lemma_remove_keeps_distinct(before.attribute_names(), i as int);
                    assert forall|j: int| 0 <= j < self@.attributes.len() implies (
                    #[trigger] self@.attributes[j]).wf() by {
                        if j < i as int {
                            assert(before.attributes[j].wf());
                        } else {
                            assert(before.attributes[j + 1].wf());
                        }
                    }
                }
                true
            },
        }
    }

    /// Takes the resources at `places` away, from the last place to the
    /// first. The places must be in rising order and within the list, else
    /// the call is refused with `IndexOutOfRange` and nothing is taken.
    pub fn detach_many(&mut self, kind: ResourceKind, places: &Vec<usize>) -> (r: Result<
        (),
        SceneError,
    >)
        requires
            old(self).wf(),
        ensures
            final(self).wf(),
            match old(self)@.detach_many(kind, places@) {
                Ok(after) => r is Ok && final(self)@ == after,
                Err(e) => r == Err::<(), SceneError>(e) && final(self)@ == old(self)@,
            },
    {
        let len = self.resources(kind).len();
        let n = places.len();
        let mut i: usize = 0;
        while i < n
            invariant
                i <= n,
                n == places@.len(),
                *self == *old(self),
                self.wf(),
                len == self@.resources(kind).len(),
                forall|a: int, b: int| 0 <= a < b < i ==> places@[a] < places@[b],
                forall|a: int| 0 <= a < i ==> places@[a] < len,
            decreases n - i,
        {
            if places[i] >= len || (i > 0 && places[i - 1] >= places[i]) {
                return Err(SceneError::IndexOutOfRange);
            }
            proof {
                assert forall|a: int| 0 <= a < i implies places@[a] < places@[i as int] by {
                    if a < i - 1 {
                        assert(places@[a] < places@[i - 1]);
                    }
                }
            }
            i += 1;
        }
        let ghost orig = self@.resources(kind);
        let ghost start = self@;
        let mut k: usize = n;
        assert(places@.take(n as int) =~= places@);
        while k > 0
            invariant
                k <= n,
                n == places@.len(),
                self.wf(),
                start == old(self)@,
                orig == start.resources(kind),
                places_valid(places@, orig.len()),
                self@ == start.with_resources(kind, self@.resources(kind)),
                self@.resources(kind).len() == orig.len() - (n - k),
                without_places(orig, places@) == without_places(
                    self@.resources(kind),
                    places@.take(k as int),
                ),
            decreases k,
        {
            k -= 1;
            proof {
                lemma_places_gap(places@, k as int, n - 1);
                let head = places@.take(k + 1);
                assert(head.last() == places@[k as int]);
                assert(head.drop_last() =~= places@.take(k as int));
            }
            let _ = self.detach_resource(kind, places[k]);
        }
        assert(places@.take(0) =~= Seq::<usize>::empty());
        Ok(())
    }

    /// Asks for each attribute of a list in turn, passing over the ones that
    /// are refused.
    pub fn create_all(&mut self, attrs: &Vec<Attribute>)
        requires
            old(self).wf(),
        ensures
            final(self).wf(),
            final(self)@ == create_all(old(self)@, attribute_views(attrs@)),
    {
        let ghost all = attribute_views(attrs@);
        let mut i: usize = 0;
        assert(all.skip(0) =~= all);
        while i < attrs.len()
            invariant
                i <= attrs.len(),
                self.wf(),
                all == attribute_views(attrs@),
                create_all(old(self)@, all) == create_all(self@, all.skip(i as int)),
            decreases attrs.len() - i,
        {
            proof {
                let rest = all.skip(i as int);
                assert(rest[0] == attrs@[i as int]@);
                assert(rest.drop_first() =~= all.skip(i + 1));
            }
            let a = &attrs[i];
            let _ = self.create_attribute(a.name().as_str(), a.value_type(), a.value().clone());
            i += 1;
        }
    }

    /// Attaches each path of a list in turn.
    pub fn attach_all(&mut self, kind: ResourceKind, paths: &Vec<String>)
        requires
            old(self).wf(),
        ensures
            final(self).wf(),
            final(self)@ == attach_all(old(self)@, kind, text_views(paths@)),
    {
        let ghost all = text_views(paths@);
        let mut i: usize = 0;
        assert(all.skip(0) =~= all);
        while i < paths.len()
            invariant
                i <= paths.len(),
                self.wf(),
                all == text_views(paths@),
                attach_all(old(self)@, kind, all) == attach_all(self@, kind, all.skip(i as int)),
            decreases paths.len() - i,
        {
            proof {
                let rest = all.skip(i as int);
                assert(rest[0] == paths@[i as int]@);
                assert(rest.drop_first() =~= all.skip(i + 1));
            }
            self.attach_resource(kind, paths[i].as_str());
            i += 1;
        }
    }

    /// The entity that stored content makes.
    pub fn restore(
        id: Handle,
        name: &str,
        attributes: &Vec<Attribute>,
        images: &Vec<String>,
        sounds: &Vec<String>,
    ) -> (e: Entity)
        ensures
            e.wf(),
            e@ == restored_entity(
                id,
                name@,
                attribute_views(attributes@),
                text_views(images@),
                text_views(sounds@),
            ),
    {
        let mut e = Entity::new(id, name);
        e.create_all(attributes);
        e.attach_all(ResourceKind::Image, images);
        e.attach_all(ResourceKind::Sound, sounds);
        e
    }

    /// Attaches a path to the images or to the sounds. A path that is there
    /// already is left alone: the list then stays as it was. Says whether the
    /// path was appended.
    pub fn attach_resource(&mut self, kind: ResourceKind, path: &str) -> (added: bool)
        requires
            old(self).wf(),
        ensures
            final(self).wf(),
            added == !old(self)@.resources(kind).contains(path@),
            final(self)@ == old(self)@.attach_resource(kind, path@),
    {
        let ghost before = self@;
        match kind {
            ResourceKind::Image => {
                if find_text(&self.images, path).is_some() {
                    return false;
                }
                self.images.push(path.to_owned());
                proof {
                    assert(self@.images =~= before.images.push(path@));
                }
            },
            ResourceKind::Sound => {
                if find_text(&self.sounds, path).is_some() {
                    return false;
                }
                self.sounds.push(path.to_owned());
                proof {
                    assert(self@.sounds =~= before.sounds.push(path@));
                }
            },
        }
        true
    }

    /// Takes the resource at place `index` away. A place beyond the end is
    /// refused with `IndexOutOfRange`.
    pub fn detach_resource(&mut self, kind: ResourceKind, index: usize) -> (r: Result<
        (),
        SceneError,
    >)
        requires
            old(self).wf(),
        ensures
            final(self).wf(),
            match old(self)@.detach_resource(kind, index as int) {
                Ok(after) => r is Ok && final(self)@ == after,
                Err(e) => r == Err::<(), SceneError>(e) && final(self)@ == old(self)@,
            },
    {
        let ghost before = self@;
        match kind {
            ResourceKind::Image => {
                if index >= self.images.len() {
                    return Err(SceneError::IndexOutOfRange);
                }
                self.images.remove(index);
                proof {
                    assert(self@.images =~= before.images.remove(index as int));
                    lemma_remove_keeps_distinct(before.images, index as int);
                }
            },
            ResourceKind::Sound => {
                if index >= self.sounds.len() {
                    return Err(SceneError::IndexOutOfRange);
                }
                self.sounds.remove(index);
                proof {
                    assert(self@.sounds =~= before.sounds.remove(index as int));
                    lemma_remove_keeps_distinct(before.sounds, index as int);
                }
            },
        }
        Ok(())
    }
}

/// Places in rising order lie at least as far apart as their numbers.
pub proof fn lemma_places_gap(places: Seq<usize>, i: int, j: int)
    requires
        forall|a: int, b: int| 0 <= a < b < places.len() ==> places[a] < places[b],
        0 <= i <= j < places.len(),
    ensures
        places[i] + (j - i) <= places[j],
    decreases j - i,
{
    if i < j {
        lemma_places_gap(places, i, j - 1);
    }
}

/// Attributes with new names and fitting values all go in, in their order.
pub proof fn lemma_create_all_appends(e: EntityView, attrs: Seq<AttributeView>)
    requires
        (e.attribute_names() + attrs.map_values(|a: AttributeView| a.name)).no_duplicates(),
        forall|i: int| 0 <= i < attrs.len() ==> (#[trigger] attrs[i]).wf(),
    ensures
        create_all(e, attrs) == (EntityView { attributes: e.attributes + attrs, ..e }),
    decreases attrs.len(),
{
    let names = attrs.map_values(|a: AttributeView| a.name);
    let all = e.attribute_names() + names;
    if attrs.len() == 0 {
        assert(e.attributes + attrs =~= e.attributes);
    } else {
        let a = attrs[0];
        assert(a.wf());
        if e.has_attribute(a.name) {
            let j = e.attribute_names().index_of(a.name);
            assert(e.attribute_names()[j] == a.name);
            assert(all[j] == a.name);
            assert(all[e.attribute_names().len() as int] == names[0]);
            assert(false);
        }
        let next = EntityView { attributes: e.attributes.push(a), ..e };
        let rest = attrs.drop_first();
        let rest_names = rest.map_values(|a: AttributeView| a.name);
        assert(next.attribute_names() + rest_names =~= all);
        assert forall|i: int| 0 <= i < rest.len() implies (#[trigger] rest[i]).wf() by {
            assert(attrs[i + 1].wf());
        }
        lemma_create_all_appends(next, rest);
        assert(next.attributes + rest =~= e.attributes + attrs);
    }
}

/// Paths that are new and differ from one another all go in, in their order.
pub proof fn lemma_attach_all_appends(e: EntityView, kind: ResourceKind, paths: Seq<Seq<char>>)
    requires
        (e.resources(kind) + paths).no_duplicates(),
    ensures
        attach_all(e, kind, paths) == e.with_resources(kind, e.resources(kind) + paths),
    decreases paths.len(),
{
    let all = e.resources(kind) + paths;
    if paths.len() == 0 {
        assert(e.resources(kind) + paths =~= e.resources(kind));
    } else {
        let p = paths[0];
        if e.resources(kind).contains(p) {
            let j = e.resources(kind).index_of(p);
            assert(all[j] == p);
            assert(all[e.resources(kind).len() as int] == p);
            assert(false);
        }
        let next = e.with_resources(kind, e.resources(kind).push(p));
        let rest = paths.drop_first();
        assert(next.resources(kind) + rest =~= all);
        lemma_attach_all_appends(next, kind, rest);
    }
}

/// What a valid entity holds makes the same entity again.
pub proof fn lemma_restore_entity(e: EntityView)
    requires
        e.wf(),
    ensures
        restored_entity(e.id, e.name, e.attributes, e.images, e.sounds) == e,
{
    let e0 = EntityView::fresh(e.id, e.name);
    assert(e0.attribute_names() + e.attributes.map_values(|a: AttributeView| a.name)
        =~= e.attribute_names());
    lemma_create_all_appends(e0, e.attributes);
    let e1 = create_all(e0, e.attributes);
    assert(e0.attributes + e.attributes =~= e.attributes);
    assert(e1.images + e.images =~= e.images);
    lemma_attach_all_appends(e1, ResourceKind::Image, e.images);
    let e2 = attach_all(e1, ResourceKind::Image, e.images);
    assert(e2.sounds + e.sounds =~= e.sounds);
    lemma_attach_all_appends(e2, ResourceKind::Sound, e.sounds);
}

/// A list without doubles has none after one item is taken out.
pub proof fn lemma_remove_keeps_distinct<A>(s: Seq<A>, i: int)
    requires
        s.no_duplicates(),
        0 <= i < s.len(),
    ensures
        s.remove(i).no_duplicates(),
{
    let r = s.remove(i);
    assert forall|a: int, b: int| 0 <= a < r.len() && 0 <= b < r.len() && a != b implies r[a]
        != r[b] by {
        let a2 = if a < i { a } else { a + 1 };
        let b2 = if b < i { b } else { b + 1 };
        assert(r[a] == s[a2] && r[b] == s[b2]);
    }
}

} // verus!
