use vstd::prelude::*;

verus! {

/// Why an operation on the scene model was refused. Every refusal leaves the
/// model as it was.
#[derive(Clone, Copy, Debug, PartialEq, Eq, Structural, Hash)]
pub enum SceneError {
    /// A name that is empty once the whitespace at its ends is gone.
    InvalidName,
    /// An attribute of that name is on the entity already.
    DuplicateAttribute,
    /// The shape of a value is not the one its attribute has.
    TypeMismatch,
    /// No scene, entity or attribute is known by that handle or name.
    NotFound,
    /// A place beyond the end of a list.
    IndexOutOfRange,
}

impl SceneError {
    /// A refusal that the caller can mend by asking again with other input.
    pub open spec fn spec_is_validation(self) -> bool {
        self == SceneError::InvalidName || self == SceneError::DuplicateAttribute || self
            == SceneError::TypeMismatch
    }

    #[verifier::when_used_as_spec(spec_is_validation)]
    pub fn is_validation(self) -> (b: bool)
        ensures
            b == self.spec_is_validation(),
    {
        match self {
            SceneError::InvalidName => true,
            SceneError::DuplicateAttribute => true,
            SceneError::TypeMismatch => true,
            SceneError::NotFound => false,
            SceneError::IndexOutOfRange => false,
        }
    }

    /// The wording of the refusal.
    pub open spec fn spec_message(self) -> Seq<char> {
        match self {
            SceneError::InvalidName => "name must not be empty"@,
            SceneError::DuplicateAttribute => "attribute already exists"@,
            SceneError::TypeMismatch => "value does not match the attribute type"@,
            SceneError::NotFound => "not found"@,
            SceneError::IndexOutOfRange => "index out of range"@,
        }
    }

    pub fn message(self) -> (s: String)
        ensures
            s@ == self.spec_message(),
    {
        match self {
            SceneError::InvalidName => "name must not be empty".to_owned(),
            SceneError::DuplicateAttribute => "attribute already exists".to_owned(),
            SceneError::TypeMismatch => "value does not match the attribute type".to_owned(),
            SceneError::NotFound => "not found".to_owned(),
            SceneError::IndexOutOfRange => "index out of range".to_owned(),
        }
    }
}

/// Why stored content cannot be a scene or a manager.
#[derive(Clone, Copy, Debug, PartialEq, Eq, Structural, Hash)]
pub enum LoadError {
    /// Two items stand under one handle.
    DuplicateHandle,
    /// An item has a handle that its container never issued.
    UnissuedHandle,
    /// The active scene is none of the scenes.
    MissingActiveScene,
}

impl LoadError {
    /// The wording of the refusal.
    pub open spec fn spec_message(self) -> Seq<char> {
        match self {
            LoadError::DuplicateHandle => "two items share a handle"@,
            LoadError::UnissuedHandle => "a handle was never issued"@,
            LoadError::MissingActiveScene => "the active scene is missing"@,
        }
    }

    pub fn message(self) -> (s: String)
        ensures
            s@ == self.spec_message(),
    {
        match self {
            LoadError::DuplicateHandle => "two items share a handle".to_owned(),
            LoadError::UnissuedHandle => "a handle was never issued".to_owned(),
            LoadError::MissingActiveScene => "the active scene is missing".to_owned(),
        }
    }
}

} // verus!
