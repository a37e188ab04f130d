//! The registry of struct shapes: one record per derived struct, filled by
//! explicit registration and read by the prototyping generators.
use vstd::prelude::*;

use crate::components::ComponentsBehaviour;

verus! {

/// One field of a registered struct.
pub struct FieldVariant {
    pub field_name: String,
    /// The field's type as written, inside `Option` for an optional field.
    pub field_type: String,
    pub optional: bool,
    pub behaviour: ComponentsBehaviour,
}

impl FieldVariant {
    pub fn new(field_name: &str, field_type: &str, optional: bool, behaviour: ComponentsBehaviour) -> (r: Self)
        ensures
            r.field_name@ == field_name@,
            r.field_type@ == field_type@,
            r.optional == optional,
            r.behaviour == behaviour,
    {
        FieldVariant {
            field_name: field_name.to_owned(),
            field_type: field_type.to_owned(),
            optional,
            behaviour,
        }
    }

    /// The field's declared type: `Option<{type}>` for an optional field.
    pub open spec fn full_type_view(&self) -> Seq<char> {
        if self.optional {
            "Option<"@ + self.field_type@ + ">"@
        } else {
            self.field_type@
        }
    }

    pub fn full_type(&self) -> (r: String)
        ensures
            r@ == self.full_type_view(),
    {
        if self.optional {
            let mut r = "Option<".to_owned();
            r.append(self.field_type.as_str());
            r.append(">");
            r
        } else {
            self.field_type.clone()
        }
    }
}

/// The shape of one derived struct: its name and its component fields in
/// declaration order.
pub struct GpuiFormShape {
    pub struct_name: String,
    pub components: Vec<FieldVariant>,
}

impl GpuiFormShape {
    pub fn new(struct_name: &str, components: Vec<FieldVariant>) -> (r: Self)
        ensures
            r.struct_name@ == struct_name@,
            r.components@ == components@,
    {
        GpuiFormShape { struct_name: struct_name.to_owned(), components }
    }
}

/// Every registered shape, in the order of registration. Records are only
/// ever appended.
pub struct ShapeRegistry {
    shapes: Vec<GpuiFormShape>,
}

impl View for ShapeRegistry {
    type V = Seq<GpuiFormShape>;

    closed spec fn view(&self) -> Seq<GpuiFormShape> {
        self.shapes@
    }
}

impl ShapeRegistry {
    pub fn new() -> (r: Self)
        ensures
            r@ == Seq::<GpuiFormShape>::empty(),
    {
        ShapeRegistry { shapes: Vec::new() }
    }

    /// Adds the shape of one more struct.
    pub fn register(&mut self, shape: GpuiFormShape)
        ensures
            final(self)@ == old(self)@.push(shape),
    {
        self.shapes.push(shape);
    }

    pub fn len(&self) -> (r: usize)
        ensures
            r == self@.len(),
    {
        self.shapes.len()
    }

    pub fn get(&self, i: usize) -> (r: &GpuiFormShape)
        requires
            i < self@.len(),
        ensures
            *r == self@[i as int],
    {
        &self.shapes[i]
    }

    /// The registered shape of the struct named `name`, if there is one.
    pub fn find(&self, name: &str) -> (r: Option<&GpuiFormShape>)
        ensures
            match r {
                Some(s) => s.struct_name@ == name@ && exists|i: int|
                    0 <= i < self@.len() && self@[i] == *s,
                None => forall|i: int| 0 <= i < self@.len() ==> self@[i].struct_name@ != name@,
            },
    {
        let target = name.to_owned();
        let mut i: usize = 0;
        while i < self.shapes.len()
            invariant
                i <= self.shapes@.len(),
                target@ == name@,
                forall|k: int| 0 <= k < i ==> self.shapes@[k].struct_name@ != name@,
            decreases self.shapes.len() - i,
        {
            if self.shapes[i].struct_name == target {
                assert(self@[i as int] == self.shapes@[i as int]);
                return Some(&self.shapes[i]);
            }
            i = i + 1;
        }
        None
    }
}

} // verus!
