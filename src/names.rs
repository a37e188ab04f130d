//! The naming scheme shared by the compile-time and the prototyping
//! generators: every identifier that refers to a field's widget comes from here.
use vstd::prelude::*;

verus! {

/// `{field}_{component}`: the name of a field's widget state.
pub open spec fn component_field_name(component_name: Seq<char>, field_name: Seq<char>) -> Seq<char> {
    field_name + "_"@ + component_name
}

/// `{component field name}_value`: the name of a widget's parsed value.
pub open spec fn component_value_field_name(component_field: Seq<char>) -> Seq<char> {
    component_field + "_"@ + "value"@
}

/// The name of the widget state that backs a field.
pub struct ComponentFieldName(pub String);

impl ComponentFieldName {
    pub fn new(component_name: &str, field_name: &str) -> (r: Self)
        ensures
            r.0@ == component_field_name(component_name@, field_name@),
    {
        let mut s = field_name.to_owned();
        s.append("_");
        s.append(component_name);
        ComponentFieldName(s)
    }

    pub fn as_str(&self) -> (r: &str)
        ensures
            r@ == self.0@,
    {
        self.0.as_str()
    }
}

/// The name of the parsed value that belongs to a widget.
pub struct ComponentValueFieldName(pub String);

impl ComponentValueFieldName {
    pub fn from(field_name: &ComponentFieldName) -> (r: Self)
        ensures
            r.0@ == component_value_field_name(field_name.0@),
    {
        let mut s = field_name.0.clone();
        s.append("_");
        s.append("value");
        ComponentValueFieldName(s)
    }

    pub fn as_str(&self) -> (r: &str)
        ensures
            r@ == self.0@,
    {
        self.0.as_str()
    }
}

} // verus!
