use crate::error::SceneError;
use vstd::prelude::*;
use vstd::string::*;

verus! {

/// The shape that the value of an attribute has.
#[derive(Clone, Copy, Debug, PartialEq, Eq, Structural, Hash)]
pub enum AttributeType {
    Float,
    Int,
    Bool,
    String,
}

/// The value of an attribute. A `Float` holds the 32 bits of an IEEE 754
/// number: the model stores and compares such a value, and never computes
/// with it.
#[derive(Debug, PartialEq, Eq)]
pub enum AttributeValue {
    Float(u32),
    Int(i32),
    Bool(bool),
    String(String),
}

/// What an `AttributeValue` stands for.
pub enum AttributeValueView {
    Float(u32),
    Int(i32),
    Bool(bool),
    String(Seq<char>),
}

impl AttributeValueView {
    /// The shape of the value.
    pub open spec fn kind(self) -> AttributeType {
        match self {
            AttributeValueView::Float(_) => AttributeType::Float,
            AttributeValueView::Int(_) => AttributeType::Int,
            AttributeValueView::Bool(_) => AttributeType::Bool,
            AttributeValueView::String(_) => AttributeType::String,
        }
    }
}

impl View for AttributeValue {
    type V = AttributeValueView;

    open spec fn view(&self) -> AttributeValueView {
        match self {
            AttributeValue::Float(bits) => AttributeValueView::Float(*bits),
            AttributeValue::Int(i) => AttributeValueView::Int(*i),
            AttributeValue::Bool(b) => AttributeValueView::Bool(*b),
            AttributeValue::String(s) => AttributeValueView::String(s@),
        }
    }
}

impl Clone for AttributeValue {
    fn clone(&self) -> (r: Self)
        ensures
            r@ == self@,
    {
        match self {
            AttributeValue::Float(bits) => AttributeValue::Float(*bits),
            AttributeValue::Int(i) => AttributeValue::Int(*i),
            AttributeValue::Bool(b) => AttributeValue::Bool(*b),
            AttributeValue::String(s) => AttributeValue::String(s.clone()),
        }
    }
}

impl AttributeValue {
    /// The shape of the value.
    pub fn kind(&self) -> (t: AttributeType)
        ensures
            t == self@.kind(),
    {
        match self {
            AttributeValue::Float(_) => AttributeType::Float,
            AttributeValue::Int(_) => AttributeType::Int,
            AttributeValue::Bool(_) => AttributeType::Bool,
            AttributeValue::String(_) => AttributeType::String,
        }
    }
}

/// A named, typed value on an entity.
#[derive(Debug, PartialEq, Eq)]
pub struct Attribute {
    name: String,
    value_type: AttributeType,
    value: AttributeValue,
}

/// What an `Attribute` stands for.
pub struct AttributeView {
    pub name: Seq<char>,
    pub value_type: AttributeType,
    pub value: AttributeValueView,
}

impl AttributeView {
    /// The value has the shape that the attribute declares.
    pub open spec fn wf(self) -> bool {
        self.value.kind() == self.value_type
    }
}

impl View for Attribute {
    type V = AttributeView;

    closed spec fn view(&self) -> AttributeView {
        AttributeView { name: self.name@, value_type: self.value_type, value: self.value@ }
    }
}

impl Clone for Attribute {
    fn clone(&self) -> (r: Self)
        ensures
            r@ == self@,
    {
        Attribute {
            name: self.name.clone(),
            value_type: self.value_type,
            value: self.value.clone(),
        }
    }
}

impl Attribute {
    /// The invariant of an attribute: its value has its declared shape.
    pub open spec fn wf(&self) -> bool {
        self@.wf()
    }

    /// A new attribute, unless the value has another shape than `value_type`.
    pub fn new(name: &str, value_type: AttributeType, value: AttributeValue) -> (r: Result<
        Attribute,
        SceneError,
    >)
        ensures
            match r {
                Ok(a) => value@.kind() == value_type && a.wf() && a@ == (AttributeView {
                    name: name@,
                    value_type,
                    value: value@,
                }),
                Err(e) => value@.kind() != value_type && e == SceneError::TypeMismatch,
            },
    {
        if value.kind() == value_type {
            Ok(Attribute { name: name.to_owned(), value_type, value })
        } else {
            Err(SceneError::TypeMismatch)
        }
    }

    /// An attribute of the shape that its value has.
    pub fn of(name: &str, value: AttributeValue) -> (a: Attribute)
        ensures
            a.wf(),
            a@ == (AttributeView { name: name@, value_type: value@.kind(), value: value@ }),
    {
        Attribute { name: name.to_owned(), value_type: value.kind(), value }
    }

    pub fn name(&self) -> (s: &String)
        ensures
            s@ == self@.name,
    {
        &self.name
    }

    pub fn value_type(&self) -> (t: AttributeType)
        ensures
            t == self@.value_type,
    {
        self.value_type
    }

    pub fn value(&self) -> (v: &AttributeValue)
        ensures
            v@ == self@.value,
    {
        &self.value
    }

    /// Gives the attribute another value of the shape it has. A value of
    /// another shape is refused and the attribute stays as it was.
    pub fn set_value(&mut self, value: AttributeValue) -> (r: Result<(), SceneError>)
        requires
            old(self).wf(),
        ensures
            final(self).wf(),
            match r {
                Ok(()) => value@.kind() == old(self)@.value_type && final(self)@ == (AttributeView {
                    value: value@,
                    ..old(self)@
                }),
                Err(e) => value@.kind() != old(self)@.value_type && e == SceneError::TypeMismatch
                    && final(self)@ == old(self)@,
            },
    {
        if value.kind() == self.value_type {
            self.value = value;
            Ok(())
        } else {
            Err(SceneError::TypeMismatch)
        }
    }
}

} // verus!
