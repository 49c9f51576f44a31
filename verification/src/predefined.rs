use crate::attribute::{Attribute, AttributeType, AttributeValue, AttributeValueView, AttributeView};
use crate::entity::attribute_views;
use crate::text::same_text;
use vstd::prelude::*;
use vstd::string::*;

verus! {

/// The bits of the number one as an IEEE 754 value of 32 bits.
pub const FLOAT_ONE: u32 = 0x3F80_0000;

/// The bits of the number zero as an IEEE 754 value of 32 bits.
pub const FLOAT_ZERO: u32 = 0;

/// A kind of entity that comes with attributes: its name and the attributes
/// that an entity of the kind gets when it is made.
pub struct PredefinedEntity {
    pub name: String,
    pub attributes: Vec<Attribute>,
}

/// What a `PredefinedEntity` stands for.
pub struct PredefinedEntityView {
    pub name: Seq<char>,
    pub attributes: Seq<AttributeView>,
}

impl View for PredefinedEntity {
    type V = PredefinedEntityView;

    open spec fn view(&self) -> PredefinedEntityView {
        PredefinedEntityView { name: self.name@, attributes: attribute_views(self.attributes@) }
    }
}

/// What a table of kinds stands for.
pub open spec fn predefined_views(table: Seq<PredefinedEntity>) -> Seq<PredefinedEntityView> {
    table.map_values(|p: PredefinedEntity| p@)
}

/// An attribute that holds a number with a fraction.
pub open spec fn float_attribute(name: Seq<char>, bits: u32) -> AttributeView {
    AttributeView {
        name,
        value_type: AttributeType::Float,
        value: AttributeValueView::Float(bits),
    }
}

/// The attributes of a camera: where it stands, how it is turned, and how
/// large it shows things, each along three axes.
pub open spec fn camera_template() -> Seq<AttributeView> {
    seq![
        float_attribute("transform_position_x"@, FLOAT_ZERO),
        float_attribute("transform_position_y"@, FLOAT_ZERO),
        float_attribute("transform_position_z"@, FLOAT_ZERO),
        float_attribute("transform_rotation_x"@, FLOAT_ZERO),
        float_attribute("transform_rotation_y"@, FLOAT_ZERO),
        float_attribute("transform_rotation_z"@, FLOAT_ZERO),
        float_attribute("transform_scale_x"@, FLOAT_ONE),
        float_attribute("transform_scale_y"@, FLOAT_ONE),
        float_attribute("transform_scale_z"@, FLOAT_ONE),
    ]
}

/// The table of the kinds of entity that come with attributes. A further
/// kind is a further row. `Camera` is the one kind with a row: an entity of
/// any other kind, `Physics` among them, is made with nothing on it.
pub open spec fn predefined_table() -> Seq<PredefinedEntityView> {
    seq![PredefinedEntityView { name: "Camera"@, attributes: camera_template() }]
}

/// The attributes of the first row of `table` that is named `kind`.
pub open spec fn lookup_template(table: Seq<PredefinedEntityView>, kind: Seq<char>) -> Option<
    Seq<AttributeView>,
>
    decreases table.len(),
{
    if table.len() == 0 {
        None
    } else if table[0].name == kind {
        Some(table[0].attributes)
    } else {
        lookup_template(table.drop_first(), kind)
    }
}

/// The attributes that an entity of the kind `kind` comes with, if the table
/// knows the kind.
pub open spec fn template_of(kind: Seq<char>) -> Option<Seq<AttributeView>> {
    lookup_template(predefined_table(), kind)
}

fn float_row(name: &str, bits: u32) -> (a: Attribute)
    ensures
        a@ == float_attribute(name@, bits),
        a.wf(),
{
    Attribute::of(name, AttributeValue::Float(bits))
}

/// The table of the kinds of entity that come with attributes.
pub fn predefined_entities() -> (table: Vec<PredefinedEntity>)
    ensures
        predefined_views(table@) == predefined_table(),
{
    let mut attributes: Vec<Attribute> = Vec::new();
    attributes.push(float_row("transform_position_x", FLOAT_ZERO));
    attributes.push(float_row("transform_position_y", FLOAT_ZERO));
    attributes.push(float_row("transform_position_z", FLOAT_ZERO));
    attributes.push(float_row("transform_rotation_x", FLOAT_ZERO));
    attributes.push(float_row("transform_rotation_y", FLOAT_ZERO));
    attributes.push(float_row("transform_rotation_z", FLOAT_ZERO));
    attributes.push(float_row("transform_scale_x", FLOAT_ONE));
    attributes.push(float_row("transform_scale_y", FLOAT_ONE));
    attributes.push(float_row("transform_scale_z", FLOAT_ONE));
    assert(attribute_views(attributes@) =~= camera_template());
    let mut table: Vec<PredefinedEntity> = Vec::new();
    table.push(PredefinedEntity { name: "Camera".to_owned(), attributes });
    assert(predefined_views(table@) =~= predefined_table());
    table
}

/// The attributes that an entity of the kind `kind` comes with.
pub fn find_template(kind: &str) -> (r: Option<Vec<Attribute>>)
    ensures
        match r {
            Some(attrs) => template_of(kind@) == Some(attribute_views(attrs@)),
            None => template_of(kind@) is None,
        },
{
    let mut table = predefined_entities();
    let ghost all = predefined_table();
    let mut i: usize = 0;
    assert(all.skip(0) =~= all);
    while i < table.len()
        invariant
            i <= table.len(),
            predefined_views(table@) == all,
            template_of(kind@) == lookup_template(all.skip(i as int), kind@),
        decreases table.len() - i,
    {
        proof {
            let rest = all.skip(i as int);
            assert(rest[0] == table@[i as int]@);
            assert(rest.drop_first() =~= all.skip(i + 1));
        }
        if same_text(table[i].name.as_str(), kind) {
            let row = table.swap_remove(i);
            return Some(row.attributes);
        }
        i += 1;
    }
    None
}

/// Whether the table knows the kind `kind`.
pub fn is_predefined(kind: &str) -> (b: bool)
    ensures
        b == template_of(kind@).is_some(),
{
    find_template(kind).is_some()
}

} // verus!
