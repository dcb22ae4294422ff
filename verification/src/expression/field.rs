//! References to named attributes of a stream.

use crate::types::NesType;
use vstd::prelude::*;

verus! {

/// A reference to an attribute, with the name it is renamed to, if any, and
/// its type. A field whose type is not known yet has the type `Undefined`.
#[derive(Debug, PartialEq)]
pub struct Field {
    name: String,
    projected_name: Option<String>,
    data_type: NesType,
}

/// What a [`Field`] stands for.
pub ghost struct FieldModel {
    pub name: Seq<char>,
    pub projected_name: Option<Seq<char>>,
    pub data_type: NesType,
}

/// The text held by an optional string.
pub open spec fn option_text(s: Option<String>) -> Option<Seq<char>> {
    match s {
        Some(s) => Some(s@),
        None => None,
    }
}

impl View for Field {
    type V = FieldModel;

    closed spec fn view(&self) -> FieldModel {
        FieldModel {
            name: self.name@,
            projected_name: option_text(self.projected_name),
            data_type: self.data_type,
        }
    }
}

impl Clone for Field {
    fn clone(&self) -> (r: Self)
        ensures
            r@ == self@,
    {
        let projected_name = match &self.projected_name {
            Some(name) => Some(name.clone()),
            None => None,
        };
        Self { name: self.name.clone(), projected_name, data_type: self.data_type }
    }
}

impl Field {
    /// A field of unknown type, named by what the argument gives as a
    /// string.
    pub fn untyped<S: Into<String>>(name: S) -> (r: Self)
        ensures
            exists|text: String| #[trigger]
                call_ensures(S::into, (name,), text) && r@ == (FieldModel {
                    name: text@,
                    projected_name: None,
                    data_type: NesType::Undefined,
                }),
    {
        Self { name: name.into(), projected_name: None, data_type: NesType::Undefined }
    }

    /// A field of the given type, named by what the argument gives as a
    /// string.
    pub fn typed<S: Into<String>>(name: S, data_type: NesType) -> (r: Self)
        ensures
            exists|text: String| #[trigger]
                call_ensures(S::into, (name,), text) && r@ == (FieldModel {
                    name: text@,
                    projected_name: None,
                    data_type,
                }),
    {
        Self { name: name.into(), projected_name: None, data_type }
    }

    /// The same field under a new name. An earlier new name is replaced.
    pub fn rename<S: Into<String>>(self, new_name: S) -> (r: Self)
        ensures
            exists|text: String| #[trigger]
                call_ensures(S::into, (new_name,), text) && r@ == (FieldModel {
                    projected_name: Some(text@),
                    ..self@
                }),
    {
        let mut field = self;
        field.projected_name = Some(new_name.into());
        field
    }

    /// The name of the attribute.
    pub fn name(&self) -> (r: &str)
        ensures
            r@ == self@.name,
    {
        self.name.as_str()
    }

    /// The name that the attribute is renamed to, if any.
    pub fn projected_name(&self) -> (r: Option<&str>)
        ensures
            r is Some == self@.projected_name is Some,
            r is Some ==> r.unwrap()@ == self@.projected_name.unwrap(),
    {
        match &self.projected_name {
            Some(name) => Some(name.as_str()),
            None => None,
        }
    }

    /// The type of the attribute.
    pub fn data_type(&self) -> (r: NesType)
        ensures
            r == self@.data_type,
    {
        self.data_type
    }
}

/// What the conversion gives is stated over views at the conversion itself:
/// no specification function can build the string that the result holds.
impl vstd::std_specs::convert::FromSpecImpl<&str> for Field {
    open spec fn obeys_from_spec() -> bool {
        false
    }

    open spec fn from_spec(value: &str) -> Field {
        arbitrary()
    }
}

impl From<&str> for Field {
    /// The field of unknown type with the given name.
    fn from(value: &str) -> (r: Field)
        ensures
            r@ == (FieldModel {
                name: value@,
                projected_name: None,
                data_type: NesType::Undefined,
            }),
    {
        Field { name: value.to_owned(), projected_name: None, data_type: NesType::Undefined }
    }
}

/// What the conversion gives is stated over views at the conversion itself:
/// no specification function can build the string that the result holds.
impl vstd::std_specs::convert::FromSpecImpl<String> for Field {
    open spec fn obeys_from_spec() -> bool {
        false
    }

    open spec fn from_spec(value: String) -> Field {
        arbitrary()
    }
}

impl From<String> for Field {
    /// The field of unknown type with the given name.
    fn from(value: String) -> (r: Field)
        ensures
            r@ == (FieldModel {
                name: value@,
                projected_name: None,
                data_type: NesType::Undefined,
            }),
    {
        Field { name: value, projected_name: None, data_type: NesType::Undefined }
    }
}

} // verus!
