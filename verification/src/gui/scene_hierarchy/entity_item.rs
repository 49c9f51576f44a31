use crate::gui::gui_state::{GuiState, GuiStateView, SaveReason, SelectedItem};
use crate::gui::scene_hierarchy::{SceneHierarchy, SceneHierarchyView};
use crate::handle::Handle;
use crate::listing::{entry_ids, entry_views, is_sorted, ListEntryView};
use crate::scene::{Scene, SceneView};
use crate::text::{matches_filter, passes_filter};
use vstd::prelude::*;
use vstd::string::*;

verus! {

/// One line of the scene panel for an entity.
#[derive(Debug, PartialEq, Eq)]
pub struct EntityRow {
    pub id: Handle,
    pub name: String,
    /// Whether the line can be opened to show resources.
    pub has_resources: bool,
}

/// What the user did on the line of an entity.
#[derive(Clone, Copy, Debug, PartialEq, Eq, Structural, Hash)]
pub enum EntityClick {
    /// Pressed the line.
    Select,
    /// Chose `Manage Resources`.
    ManageResources,
    /// Chose `Rename`.
    Rename,
    /// Chose `Delete`.
    Delete,
}

/// The lines of the panel as lines of a listing.
pub open spec fn row_entries(rows: Seq<EntityRow>) -> Seq<ListEntryView> {
    rows.map_values(|r: EntityRow| ListEntryView { id: r.id, name: r.name@ })
}

/// Whether `rows` are the lines that the panel shows for the entities of
/// `scene` under the search `query`: in the order of a listing, one line for
/// each entity that passes the search and for no other, each with the name of
/// its entity and with the mark of whether the entity has resources.
pub open spec fn entity_rows_of(rows: Seq<EntityRow>, scene: SceneView, query: Seq<char>) -> bool {
    &&& is_sorted(row_entries(rows))
    &&& forall|i: int|
        0 <= i < rows.len() ==> {
            let row = #[trigger] rows[i];
            &&& scene.entities.contains_key(row.id)
            &&& row.name@ == scene.entities[row.id].name
            &&& row.has_resources == scene.entities[row.id].has_resources()
            &&& passes_filter(row.name@, query)
        }
    &&& forall|h: Handle|
        scene.entities.contains_key(h) && passes_filter(scene.entities[h].name, query)
            ==> #[trigger] entry_ids(row_entries(rows)).contains(h)
}

/// The lines of the scene panel that stand for entities.
#[derive(Clone, Copy, Debug, PartialEq, Eq, Structural)]
pub struct EntityItem;

impl EntityItem {
    /// The entities of a scene that show under a search, in the order of a
    /// listing: by name, letter case set aside. An entity shows if the search
    /// is empty or stands in its name.
    pub fn show_entities(scene: &Scene, search_query: &str) -> (rows: Vec<EntityRow>)
        requires
            scene.wf(),
        ensures
            entity_rows_of(rows@, scene@, search_query@),
    {
        let list = scene.list_entities();
        let ghost all = entry_views(list@);
        let mut rows: Vec<EntityRow> = Vec::new();
        let ghost mut src: Seq<int> = Seq::empty();
        let mut i: usize = 0;
        while i < list.len()
            invariant
                i <= list.len(),
                scene.wf(),
                all == entry_views(list@),
                is_sorted(all),
                forall|k: int|
                    0 <= k < list@.len() ==> scene@.entities.contains_key((#[trigger] list@[k]).id)
                        && list@[k].name@ == scene@.entities[list@[k].id].name,
                src.len() == rows@.len(),
                forall|a: int| 0 <= a < src.len() ==> 0 <= #[trigger] src[a] < i,
                forall|a: int, b: int| 0 <= a < b < src.len() ==> src[a] < src[b],
                forall|a: int|
                    0 <= a < rows@.len() ==> {
                        let row = #[trigger] rows@[a];
                        &&& row_entries(rows@)[a] == all[src[a]]
                        &&& row.has_resources == scene@.entities[row.id].has_resources()
                        &&& passes_filter(row.name@, search_query@)
                    },
                forall|k: int|
                    0 <= k < i && passes_filter(all[k].name, search_query@) ==> src.contains(k),
            decreases list.len() - i,
        {
            let entry = &list[i];
            assert(all[i as int] == entry@);
            if matches_filter(entry.name.as_str(), search_query) {
                let has_resources = match scene.get_entity(entry.id) {
                    Ok(e) => e.has_resources(),
                    Err(_) => false,
                };
                let ghost old_src = src;
                let ghost old_rows = rows@;
                rows.push(EntityRow { id: entry.id, name: entry.name.clone(), has_resources });
                proof {
                    src = src.push(i as int);
                    assert forall|k: int|
                        0 <= k < i + 1 && passes_filter(
                            all[k].name,
                            search_query@,
                        ) implies src.contains(k) by {
                        if k < i {
                            let a = old_src.index_of(k);
                            assert(old_src.contains(k));
                            assert(src[a] == k);
                        } else {
                            assert(src[src.len() - 1] == k);
                        }
                    }
                    assert forall|a: int| 0 <= a < rows@.len() implies {
                        let row = #[trigger] rows@[a];
                        &&& row_entries(rows@)[a] == all[src[a]]
                        &&& row.has_resources == scene@.entities[row.id].has_resources()
                        &&& passes_filter(row.name@, search_query@)
                    } by {
                        if a < old_rows.len() {
                            assert(rows@[a] == old_rows[a]);
                            assert(row_entries(old_rows)[a] == all[old_src[a]]);
                        }
                    }
                }
            }
            i += 1;
        }
        proof {
            let out = row_entries(rows@);
            assert forall|a: int, b: int| 0 <= a < b < out.len() implies (#[trigger] out[a]).before(
                #[trigger] out[b],
            ) by {
                assert(out[a] == all[src[a]] && out[b] == all[src[b]]);
            }
            assert forall|a: int| 0 <= a < rows@.len() implies {
                let row = #[trigger] rows@[a];
                &&& scene@.entities.contains_key(row.id)
                &&& row.name@ == scene@.entities[row.id].name
            } by {
                assert(out[a] == all[src[a]]);
                assert(all[src[a]] == list@[src[a]]@);
            }
            assert forall|h: Handle|
                scene@.entities.contains_key(h) && passes_filter(
                    scene@.entities[h].name,
                    search_query@,
                ) implies #[trigger] entry_ids(out).contains(h) by {
                assert(entry_ids(all).contains(h));
                let k = entry_ids(all).index_of(h);
                assert(entry_ids(all)[k] == h);
                assert(all[k] == list@[k]@);
                assert(src.contains(k));
                let a = src.index_of(k);
                assert(out[a] == all[k]);
                assert(entry_ids(out)[a] == h);
            }
        }
        rows
    }

    /// Takes what the user did on the line of an entity: a press picks the
    /// entity, `Manage Resources` and `Rename` open their popup, and `Delete`
    /// deletes the entity. Says whether the project has to be saved.
    pub fn tree_item_entity(
        hierarchy: &mut SceneHierarchy,
        gui_state: &mut GuiState,
        scene: Handle,
        entity: Handle,
        entity_name: &str,
        click: EntityClick,
    ) -> (save: Option<SaveReason>)
        requires
            old(gui_state).wf(),
        ensures
            final(gui_state).wf(),
            match click {
                EntityClick::Select => {
                    &&& save is None
                    &&& final(hierarchy)@ == old(hierarchy)@
                    &&& final(gui_state)@ == (GuiStateView {
                        selected_item: SelectedItem::Entity(scene, entity),
                        scene_panel_selected_item: SelectedItem::Entity(scene, entity),
                        ..old(gui_state)@
                    })
                },
                EntityClick::ManageResources => {
                    &&& save is None
                    &&& final(hierarchy)@ == (SceneHierarchyView {
                        popup_manager: crate::gui::scene_hierarchy::popup::PopupManagerView {
                            manage_assets_entity: Some((scene, entity)),
                            manage_assets_popup_active: true,
                            ..old(hierarchy)@.popup_manager
                        },
                        ..old(hierarchy)@
                    })
                    &&& final(gui_state)@ == old(gui_state)@
                },
                EntityClick::Rename => {
                    &&& save is None
                    &&& final(hierarchy)@ == (SceneHierarchyView {
                        popup_manager: old(hierarchy)@.popup_manager.start_rename_entity(
                            scene,
                            entity,
                            entity_name@,
                        ),
                        ..old(hierarchy)@
                    })
                    &&& final(gui_state)@ == old(gui_state)@
                },
                EntityClick::Delete => {
                    &&& save == if old(gui_state)@.has_entity(scene, entity) {
                        Some(SaveReason::DeletedEntity)
                    } else {
                        None
                    }
                    &&& final(hierarchy)@ == old(hierarchy)@
                    &&& final(gui_state)@ == old(gui_state)@.delete_entity(scene, entity)
                },
            },
    {
        match click {
            EntityClick::Select => {
                Self::select(gui_state, scene, entity);
                None
            },
            EntityClick::ManageResources => {
                Self::manage_resources(hierarchy, scene, entity);
                None
            },
            EntityClick::Rename => {
                Self::rename(hierarchy, scene, entity, entity_name);
                None
            },
            EntityClick::Delete => Self::delete(gui_state, scene, entity),
        }
    }

    /// Whether the entity `entity` of `scene` is the one picked in the scene
    /// panel.
    pub fn is_selected(gui_state: &GuiState, scene: Handle, entity: Handle) -> (b: bool)
        ensures
            b == (gui_state@.scene_panel_selected_item == SelectedItem::Entity(scene, entity)),
    {
        gui_state.scene_panel_selected_item == SelectedItem::Entity(scene, entity)
    }

    /// Picks the entity `entity` of `scene`.
    pub fn select(gui_state: &mut GuiState, scene: Handle, entity: Handle)
        ensures
            final(gui_state)@ == (GuiStateView {
                selected_item: SelectedItem::Entity(scene, entity),
                scene_panel_selected_item: SelectedItem::Entity(scene, entity),
                ..old(gui_state)@
            }),
            old(gui_state).wf() ==> final(gui_state).wf(),
    {
        gui_state.selected_item = SelectedItem::Entity(scene, entity);
        gui_state.scene_panel_selected_item = SelectedItem::Entity(scene, entity);
    }

    /// Opens the popup that manages the resources of the entity.
    pub fn manage_resources(hierarchy: &mut SceneHierarchy, scene: Handle, entity: Handle)
        ensures
            final(hierarchy)@ == (SceneHierarchyView {
                popup_manager: crate::gui::scene_hierarchy::popup::PopupManagerView {
                    manage_assets_entity: Some((scene, entity)),
                    manage_assets_popup_active: true,
                    ..old(hierarchy)@.popup_manager
                },
                ..old(hierarchy)@
            }),
    {
        hierarchy.popup_manager.start_manage_assets(scene, entity);
    }

    /// Opens the rename popup for the entity, with the name it has.
    pub fn rename(hierarchy: &mut SceneHierarchy, scene: Handle, entity: Handle, entity_name: &str)
        ensures
            final(hierarchy)@ == (SceneHierarchyView {
                popup_manager: old(hierarchy)@.popup_manager.start_rename_entity(
                    scene,
                    entity,
                    entity_name@,
                ),
                ..old(hierarchy)@
            }),
    {
        hierarchy.popup_manager.start_rename_entity(scene, entity, entity_name.to_owned());
    }

    /// Deletes the entity and clears the picks that named it. Says whether
    /// the project has to be saved.
    pub fn delete(gui_state: &mut GuiState, scene: Handle, entity: Handle) -> (save: Option<
        SaveReason,
    >)
        requires
            old(gui_state).wf(),
        ensures
            final(gui_state).wf(),
            final(gui_state)@ == old(gui_state)@.delete_entity(scene, entity),
            save == if old(gui_state)@.has_entity(scene, entity) {
                Some(SaveReason::DeletedEntity)
            } else {
                None
            },
    {
        if gui_state.delete_entity(scene, entity) {
            Some(SaveReason::DeletedEntity)
        } else {
            None
        }
    }
}

} // verus!
