//! Reading one registered shape: the identifiers derived from the struct's
//! name, and the adapter that runs each field through its generator.
use vstd::prelude::*;

use crate::case::{snake_case_of, to_snake_case};
use crate::components::ComponentsBehaviour;
use crate::field_gen::{
    cx_new_call_text, field_initializer_text, focusable_cycle_text, opt_view, render_child_text,
    strings_view, subscription_text, subscription_view, CheckboxCodeGenerator, DateLibrary,
    DatePickerCodeGenerator, DropdownCodeGenerator, FieldCodeGenerator, GeneratedSubscription,
    InputCodeGenerator, NumberInputCodeGenerator, SwitchCodeGenerator,
};
use crate::registry::{FieldVariant, GpuiFormShape};

verus! {

/// The identifiers that generated code derives from a struct's name.
pub trait ComponentIdentities {
    spec fn struct_name_view(&self) -> Seq<char>;

    fn struct_name(&self) -> (r: &str)
        ensures
            r@ == self.struct_name_view(),
    ;

    fn struct_name_ident(&self) -> (r: String)
        ensures
            r@ == self.struct_name_view(),
    {
        self.struct_name().to_owned()
    }

    /// `{S}Form`: the generated controller.
    fn struct_form_ident(&self) -> (r: String)
        ensures
            r@ == self.struct_name_view() + "Form"@,
    {
        let mut r = self.struct_name().to_owned();
        r.append("Form");
        r
    }

    /// `{S}FormComponents`: the constructor namespace.
    fn struct_form_components_ident(&self) -> (r: String)
        ensures
            r@ == self.struct_name_view() + "FormComponents"@,
    {
        let mut r = self.struct_name().to_owned();
        r.append("FormComponents");
        r
    }

    /// `{S}FormFields`: the state holder.
    fn struct_form_fields_ident(&self) -> (r: String)
        ensures
            r@ == self.struct_name_view() + "FormFields"@,
    {
        let mut r = self.struct_name().to_owned();
        r.append("FormFields");
        r
    }

    /// `{s}-form`, with the struct's name in snake case: the form's element id.
    fn form_id_literal(&self) -> (r: String)
        ensures
            r@ == snake_case_of(self.struct_name_view()) + "-form"@,
    {
        let mut r = to_snake_case(self.struct_name());
        r.append("-form");
        r
    }

    /// `{S}LabelFtl`: the field labels.
    fn ftl_label_ident(&self) -> (r: String)
        ensures
            r@ == self.struct_name_view() + "LabelFtl"@,
    {
        let mut r = self.struct_name().to_owned();
        r.append("LabelFtl");
        r
    }

    /// `{S}DescriptionFtl`: the field descriptions.
    fn ftl_description_ident(&self) -> (r: String)
        ensures
            r@ == self.struct_name_view() + "DescriptionFtl"@,
    {
        let mut r = self.struct_name().to_owned();
        r.append("DescriptionFtl");
        r
    }
}

/// The identities of a registered struct, and the date type its forms parse into.
pub struct ShapeIdentities<'a> {
    pub shape: &'a GpuiFormShape,
    pub date_library: DateLibrary,
}

impl<'a> ShapeIdentities<'a> {
    pub fn new(shape_data: &'a GpuiFormShape) -> (r: Self)
        ensures
            r.shape == shape_data,
            r.date_library == DateLibrary::Chrono,
    {
        ShapeIdentities { shape: shape_data, date_library: DateLibrary::Chrono }
    }

    pub fn with_date_library(shape_data: &'a GpuiFormShape, date_library: DateLibrary) -> (r: Self)
        ensures
            r.shape == shape_data,
            r.date_library == date_library,
    {
        ShapeIdentities { shape: shape_data, date_library }
    }
}

impl<'a> ComponentIdentities for ShapeIdentities<'a> {
    open spec fn struct_name_view(&self) -> Seq<char> {
        self.shape.struct_name@
    }

    fn struct_name(&self) -> (r: &str) {
        self.shape.struct_name.as_str()
    }
}

/// A field's type, read as the name of a struct (a dropdown's item type).
impl ComponentIdentities for FieldVariant {
    open spec fn struct_name_view(&self) -> Seq<char> {
        self.field_type@
    }

    fn struct_name(&self) -> (r: &str) {
        self.field_type.as_str()
    }
}

fn cx_new_call_of(field: &FieldVariant, identities: &ShapeIdentities) -> (r: Option<String>)
    ensures
        opt_view(r) == cx_new_call_text(*field, identities.shape.struct_name@),
{
    match field.behaviour {
        ComponentsBehaviour::Input => InputCodeGenerator.generate_cx_new_call(field, identities),
        ComponentsBehaviour::NumberInput => NumberInputCodeGenerator.generate_cx_new_call(field, identities),
        ComponentsBehaviour::Checkbox => CheckboxCodeGenerator.generate_cx_new_call(field, identities),
        ComponentsBehaviour::Switch => SwitchCodeGenerator.generate_cx_new_call(field, identities),
        ComponentsBehaviour::Dropdown(_) => DropdownCodeGenerator.generate_cx_new_call(field, identities),
        ComponentsBehaviour::DatePicker => DatePickerCodeGenerator.generate_cx_new_call(field, identities),
    }
}

fn field_initializer_of(field: &FieldVariant, identities: &ShapeIdentities) -> (r: Option<String>)
    ensures
        opt_view(r) == field_initializer_text(*field),
{
    match field.behaviour {
        ComponentsBehaviour::Input => InputCodeGenerator.generate_field_initializers(field, identities),
        ComponentsBehaviour::NumberInput => NumberInputCodeGenerator.generate_field_initializers(field, identities),
        ComponentsBehaviour::Checkbox => CheckboxCodeGenerator.generate_field_initializers(field, identities),
        ComponentsBehaviour::Switch => SwitchCodeGenerator.generate_field_initializers(field, identities),
        ComponentsBehaviour::Dropdown(_) => DropdownCodeGenerator.generate_field_initializers(field, identities),
        ComponentsBehaviour::DatePicker => DatePickerCodeGenerator.generate_field_initializers(field, identities),
    }
}

fn render_child_of(field: &FieldVariant, identities: &ShapeIdentities) -> (r: String)
    ensures
        r@ == render_child_text(*field, identities.shape.struct_name@),
{
    match field.behaviour {
        ComponentsBehaviour::Input => InputCodeGenerator.generate_render_child(field, identities),
        ComponentsBehaviour::NumberInput => NumberInputCodeGenerator.generate_render_child(field, identities),
        ComponentsBehaviour::Checkbox => CheckboxCodeGenerator.generate_render_child(field, identities),
        ComponentsBehaviour::Switch => SwitchCodeGenerator.generate_render_child(field, identities),
        ComponentsBehaviour::Dropdown(_) => DropdownCodeGenerator.generate_render_child(field, identities),
        ComponentsBehaviour::DatePicker => DatePickerCodeGenerator.generate_render_child(field, identities),
    }
}

fn focusable_cycle_of(field: &FieldVariant, identities: &ShapeIdentities) -> (r: Option<String>)
    ensures
        opt_view(r) == focusable_cycle_text(*field),
{
    match field.behaviour {
        ComponentsBehaviour::Input => InputCodeGenerator.generate_focusable_cycle(field, identities),
        ComponentsBehaviour::NumberInput => NumberInputCodeGenerator.generate_focusable_cycle(field, identities),
        ComponentsBehaviour::Checkbox => CheckboxCodeGenerator.generate_focusable_cycle(field, identities),
        ComponentsBehaviour::Switch => SwitchCodeGenerator.generate_focusable_cycle(field, identities),
        ComponentsBehaviour::Dropdown(_) => DropdownCodeGenerator.generate_focusable_cycle(field, identities),
        ComponentsBehaviour::DatePicker => DatePickerCodeGenerator.generate_focusable_cycle(field, identities),
    }
}

fn subscription_of(field: &FieldVariant, identities: &ShapeIdentities) -> (r: Option<GeneratedSubscription>)
    ensures
        subscription_view(r) == subscription_text(*field, identities.date_library),
{
    match field.behaviour {
        ComponentsBehaviour::Input => InputCodeGenerator.generate_subscription(field, identities),
        ComponentsBehaviour::NumberInput => NumberInputCodeGenerator.generate_subscription(field, identities),
        ComponentsBehaviour::Checkbox => CheckboxCodeGenerator.generate_subscription(field, identities),
        ComponentsBehaviour::Switch => SwitchCodeGenerator.generate_subscription(field, identities),
        ComponentsBehaviour::Dropdown(_) => DropdownCodeGenerator.generate_subscription(field, identities),
        ComponentsBehaviour::DatePicker => DatePickerCodeGenerator.generate_subscription(field, identities),
    }
}


/// The pieces of `piece` over `fields`, concatenated in field order.
pub open spec fn joined(
    fields: Seq<FieldVariant>,
    piece: spec_fn(FieldVariant) -> Option<Seq<char>>,
) -> Seq<char>
    decreases fields.len(),
{
    if fields.len() == 0 {
        Seq::empty()
    } else {
        joined(fields.drop_last(), piece) + match piece(fields.last()) {
            Some(t) => t,
            None => Seq::empty(),
        }
    }
}

/// Nothing for empty text.
pub open spec fn nonempty(t: Seq<char>) -> Option<Seq<char>> {
    if t.len() == 0 {
        None
    } else {
        Some(t)
    }
}

/// The subscription calls of `fields`, in field order.
pub open spec fn all_calls(fields: Seq<FieldVariant>, lib: DateLibrary) -> Seq<Seq<char>>
    decreases fields.len(),
{
    if fields.len() == 0 {
        Seq::empty()
    } else {
        all_calls(fields.drop_last(), lib) + match subscription_text(fields.last(), lib) {
            Some(s) => s.0,
            None => Seq::empty(),
        }
    }
}

/// The event handlers of `fields`, in field order.
pub open spec fn all_handlers(fields: Seq<FieldVariant>, lib: DateLibrary) -> Seq<Seq<char>>
    decreases fields.len(),
{
    if fields.len() == 0 {
        Seq::empty()
    } else {
        all_handlers(fields.drop_last(), lib) + match subscription_text(fields.last(), lib) {
            Some(s) => s.1,
            None => Seq::empty(),
        }
    }
}

/// The parts joined by `sep`.
pub open spec fn join_with(parts: Seq<Seq<char>>, sep: Seq<char>) -> Seq<char>
    decreases parts.len(),
{
    if parts.len() == 0 {
        Seq::empty()
    } else if parts.len() == 1 {
        parts[0]
    } else {
        join_with(parts.drop_last(), sep) + sep + parts.last()
    }
}

fn append_joined(out: &mut String, parts: &Vec<String>, sep: &str)
    ensures
        final(out)@ == old(out)@ + join_with(strings_view(parts@), sep@),
{
    let ghost start = out@;
    let mut i: usize = 0;
    while i < parts.len()
        invariant
            i <= parts@.len(),
            out@ == start + join_with(strings_view(parts@.take(i as int)), sep@),
        decreases parts.len() - i,
    {
        let ghost before = strings_view(parts@.take(i as int));
        assert(strings_view(parts@.take(i + 1)) =~= before.push(parts@[i as int]@));
        assert(strings_view(parts@.take(i + 1)).drop_last() =~= before);
        if i > 0 {
            out.append(sep);
        } else {
            assert(before.len() == 0);
        }
        out.append(parts[i].as_str());
        i = i + 1;
    }
    assert(parts@.take(parts@.len() as int) =~= parts@);
}

/// Runs every field of one registered shape through its generator.
pub struct FormShapeAdapter<'a> {
    pub shape_data: &'a GpuiFormShape,
    pub identities: ShapeIdentities<'a>,
}

impl<'a> FormShapeAdapter<'a> {
    pub fn new(shape_data: &'a GpuiFormShape) -> (r: Self)
        ensures
            r.shape_data == shape_data,
            r.identities.shape == shape_data,
            r.identities.date_library == DateLibrary::Chrono,
    {
        FormShapeAdapter { shape_data, identities: ShapeIdentities::new(shape_data) }
    }

    pub fn with_date_library(shape_data: &'a GpuiFormShape, date_library: DateLibrary) -> (r: Self)
        ensures
            r.shape_data == shape_data,
            r.identities.shape == shape_data,
            r.identities.date_library == date_library,
    {
        FormShapeAdapter {
            shape_data,
            identities: ShapeIdentities::with_date_library(shape_data, date_library),
        }
    }

    pub open spec fn name_view(&self) -> Seq<char> {
        self.identities.shape.struct_name@
    }

    /// The statements constructing each field's widget state, or nothing.
    pub fn cx_new_calls(&self) -> (r: Option<String>)
        ensures
            opt_view(r) == nonempty(
                joined(self.shape_data.components@, |f: FieldVariant| cx_new_call_text(f, self.name_view())),
            ),
    {
        let fields = &self.shape_data.components;
        let mut x = String::new();
        let mut i: usize = 0;
        while i < fields.len()
            invariant
                i <= fields@.len(),
                fields@ == self.shape_data.components@,
                x@ == joined(fields@.take(i as int), |f: FieldVariant| cx_new_call_text(f, self.name_view())),
            decreases fields.len() - i,
        {
            assert(fields@.take(i + 1).drop_last() =~= fields@.take(i as int));
            if let Some(t) = cx_new_call_of(&fields[i], &self.identities) {
                x.append(t.as_str());
            } else {
                assert(x@ =~= x@ + Seq::<char>::empty());
            }
            i = i + 1;
        }
        assert(fields@.take(fields@.len() as int) =~= fields@);
        if x.unicode_len() == 0 {
            None
        } else {
            Some(x)
        }
    }

    /// The state-holder entries of every field that has widget state, or nothing.
    pub fn field_initializers(&self) -> (r: Option<String>)
        ensures
            opt_view(r) == nonempty(
                joined(self.shape_data.components@, |f: FieldVariant| field_initializer_text(f)),
            ),
    {
        let fields = &self.shape_data.components;
        let mut x = String::new();
        let mut i: usize = 0;
        while i < fields.len()
            invariant
                i <= fields@.len(),
                fields@ == self.shape_data.components@,
                x@ == joined(fields@.take(i as int), |f: FieldVariant| field_initializer_text(f)),
            decreases fields.len() - i,
        {
            assert(fields@.take(i + 1).drop_last() =~= fields@.take(i as int));
            if let Some(t) = field_initializer_of(&fields[i], &self.identities) {
                x.append(t.as_str());
            } else {
                assert(x@ =~= x@ + Seq::<char>::empty());
            }
            i = i + 1;
        }
        assert(fields@.take(fields@.len() as int) =~= fields@);
        if x.unicode_len() == 0 {
            None
        } else {
            Some(x)
        }
    }

    /// The focus handles of the focusable fields, in field order, or nothing.
    pub fn focusable_cycle(&self) -> (r: Option<String>)
        ensures
            opt_view(r) == nonempty(
                joined(self.shape_data.components@, |f: FieldVariant| focusable_cycle_text(f)),
            ),
    {
        let fields = &self.shape_data.components;
        let mut x = String::new();
        let mut i: usize = 0;
        while i < fields.len()
            invariant
                i <= fields@.len(),
                fields@ == self.shape_data.components@,
                x@ == joined(fields@.take(i as int), |f: FieldVariant| focusable_cycle_text(f)),
            decreases fields.len() - i,
        {
            assert(fields@.take(i + 1).drop_last() =~= fields@.take(i as int));
            if let Some(t) = focusable_cycle_of(&fields[i], &self.identities) {
                x.append(t.as_str());
            } else {
                assert(x@ =~= x@ + Seq::<char>::empty());
            }
            i = i + 1;
        }
        assert(fields@.take(fields@.len() as int) =~= fields@);
        if x.unicode_len() == 0 {
            None
        } else {
            Some(x)
        }
    }
    /// The rendered children of every field, in field order.
    pub fn child_elements(&self) -> (r: String)
        ensures
            r@ == joined(
                self.shape_data.components@,
                |f: FieldVariant| Some(render_child_text(f, self.name_view())),
            ),
    {
        let fields = &self.shape_data.components;
        let mut x = String::new();
        let mut i: usize = 0;
        while i < fields.len()
            invariant
                i <= fields@.len(),
                fields@ == self.shape_data.components@,
                x@ == joined(
                    fields@.take(i as int),
                    |f: FieldVariant| Some(render_child_text(f, self.name_view())),
                ),
            decreases fields.len() - i,
        {
            assert(fields@.take(i + 1).drop_last() =~= fields@.take(i as int));
            let t = render_child_of(&fields[i], &self.identities);
            x.append(t.as_str());
            i = i + 1;
        }
        assert(fields@.take(fields@.len() as int) =~= fields@);
        x
    }

    fn collect_subscriptions(&self) -> (r: (Vec<String>, Vec<String>))
        ensures
            strings_view(r.0@) == all_calls(
                self.shape_data.components@,
                self.identities.date_library,
            ),
            strings_view(r.1@) == all_handlers(
                self.shape_data.components@,
                self.identities.date_library,
            ),
    {
        let fields = &self.shape_data.components;
        let lib = self.identities.date_library;
        let mut calls: Vec<String> = Vec::new();
        let mut handlers: Vec<String> = Vec::new();
        let mut i: usize = 0;
        while i < fields.len()
            invariant
                i <= fields@.len(),
                fields@ == self.shape_data.components@,
                lib == self.identities.date_library,
                strings_view(calls@) == all_calls(fields@.take(i as int), lib),
                strings_view(handlers@) == all_handlers(fields@.take(i as int), lib),
            decreases fields.len() - i,
        {
            assert(fields@.take(i + 1).drop_last() =~= fields@.take(i as int));
            match subscription_of(&fields[i], &self.identities) {
                Some(sub) => {
                    let ghost c0 = strings_view(calls@);
                    let ghost h0 = strings_view(handlers@);
                    let mut sub = sub;
                    let ghost sc = strings_view(sub.calls@);
                    let ghost sh = strings_view(sub.handlers@);
                    calls.append(&mut sub.calls);
                    handlers.append(&mut sub.handlers);
                    assert(strings_view(calls@) =~= c0 + sc);
                    assert(strings_view(handlers@) =~= h0 + sh);
                },
                None => {
                    assert(strings_view(calls@) =~= strings_view(calls@) + Seq::<Seq<char>>::empty());
                    assert(strings_view(handlers@) =~= strings_view(handlers@) + Seq::<Seq<char>>::empty());
                },
            }
            i = i + 1;
        }
        assert(fields@.take(fields@.len() as int) =~= fields@);
        (calls, handlers)
    }

    /// `let _subscriptions = vec![...];` with every field's subscriptions, or
    /// nothing when no field has one.
    pub fn subscription_calls(&self) -> (r: Option<String>)
        ensures
            opt_view(r) == if all_calls(
                self.shape_data.components@,
                self.identities.date_library,
            ).len() == 0 {
                None
            } else {
                Some(
                    "let _subscriptions = vec!["@ + join_with(
                        all_calls(self.shape_data.components@, self.identities.date_library),
                        ", "@,
                    ) + "];"@,
                )
            },
    {
        let (calls, _) = self.collect_subscriptions();
        if calls.len() == 0 {
            return None;
        }
        let mut r = "let _subscriptions = vec![".to_owned();
        append_joined(&mut r, &calls, ", ");
        r.append("];");
        Some(r)
    }

    /// The handler functions of every field's subscriptions, or nothing.
    pub fn event_handlers(&self) -> (r: Option<String>)
        ensures
            opt_view(r) == if all_handlers(
                self.shape_data.components@,
                self.identities.date_library,
            ).len() == 0 {
                None
            } else {
                Some(
                    join_with(
                        all_handlers(self.shape_data.components@, self.identities.date_library),
                        " "@,
                    ),
                )
            },
    {
        let (_, handlers) = self.collect_subscriptions();
        if handlers.len() == 0 {
            return None;
        }
        let mut r = String::new();
        append_joined(&mut r, &handlers, " ");
        assert(r@ =~= join_with(strings_view(handlers@), " "@));
        Some(r)
    }
}

} // verus!
