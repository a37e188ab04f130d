//! The struct-level entry point of the form derivation: which fields get a
//! widget, what each contributes to the generated structs, and which values
//! the value holder unwraps.
use vstd::prelude::*;

use crate::components::{
    CheckboxComponent, CheckboxOptions, Components, ConfigError, CustomComponent,
    DatePickerComponent, DatePickerOptions, DropdownComponent, FieldInformation, InputComponent,
    InputOptions, NumberInputComponent, NumberInputOptions, SwitchComponent, SwitchOptions,
};
use crate::layout::{
    declaration_text_of, layout_outcome_of, state_type_of, structure_text_of, widget_name_of,
    ComponentLayout,
};

verus! {

/// A field's declared type: its spelling, and as much of its structure as
/// the derivation reads.
pub struct FieldType {
    /// The type as written, token by token.
    pub text: String,
    pub shape: TypeShape,
}

pub enum TypeShape {
    /// A type path: its last segment's identifier, and the first generic
    /// argument of that segment when it is a type.
    Path { last_ident: String, first_type_arg: Option<Box<FieldType>> },
    /// Any other type (a reference, a tuple, an array, ...).
    Other,
}

/// The type argument of `Option<T>`, if `ty` is written so.
pub open spec fn option_argument(ty: FieldType) -> Option<FieldType> {
    match ty.shape {
        TypeShape::Path { last_ident, first_type_arg } => if last_ident@ == "Option"@
            && first_type_arg is Some {
            Some(*first_type_arg->Some_0)
        } else {
            None
        },
        TypeShape::Other => None,
    }
}

/// The identifier that names a field's type, every `Option` layer removed;
/// none for a type that is not a path.
pub open spec fn type_ident(ty: FieldType) -> Option<Seq<char>>
    decreases ty,
{
    match ty.shape {
        TypeShape::Path { last_ident, first_type_arg } => if last_ident@ == "Option"@
            && first_type_arg is Some {
            type_ident(*first_type_arg->Some_0)
        } else {
            Some(last_ident@)
        },
        TypeShape::Other => None,
    }
}

fn is_option_ident(s: &String) -> (r: bool)
    ensures
        r == (s@ == "Option"@),
{
    let option = "Option".to_owned();
    *s == option
}

/// The identifier of a component field's type, inside any `Option`.
pub fn extract_type_ident(ty: &FieldType) -> (r: Result<String, ConfigError>)
    ensures
        match type_ident(*ty) {
            Some(t) => r is Ok && r->Ok_0@ == t,
            None => r == Err::<String, ConfigError>(ConfigError::UnsupportedFieldType),
        },
    decreases ty,
{
    match &ty.shape {
        TypeShape::Path { last_ident, first_type_arg } => {
            if is_option_ident(last_ident) {
                if let Some(inner) = first_type_arg {
                    return extract_type_ident(inner);
                }
            }
            Ok(last_ident.clone())
        },
        TypeShape::Other => Err(ConfigError::UnsupportedFieldType),
    }
}

/// Whether a field is optional, and the spelling of its type inside `Option`.
pub open spec fn optional_split(ty: FieldType) -> (bool, Seq<char>) {
    match option_argument(ty) {
        Some(inner) => (true, inner.text@),
        None => (false, ty.text@),
    }
}

pub fn split_optional(ty: &FieldType) -> (r: (bool, &String))
    ensures
        r.0 == optional_split(*ty).0,
        r.1@ == optional_split(*ty).1,
{
    if let TypeShape::Path { last_ident, first_type_arg } = &ty.shape {
        if is_option_ident(last_ident) {
            if let Some(inner) = first_type_arg {
                return (true, &inner.text);
            }
        }
    }
    (false, &ty.text)
}

/// A field of the struct being derived, with its attributes.
pub struct ComponentField {
    pub ident: String,
    pub ty: FieldType,
    pub component: Option<Components>,
    pub skip: bool,
}

/// A field is left out when it is marked `skip` and names no component.
pub open spec fn is_skipped(f: ComponentField) -> bool {
    f.skip && f.component is None
}

impl ComponentField {
    pub fn skip(&self) -> (r: bool)
        ensures
            r == is_skipped(*self),
    {
        self.skip && self.component.is_none()
    }
}

/// Whether the value holder unwraps the value of a field backed by `c`.
pub open spec fn unwraps(c: Components) -> bool {
    match c {
        Components::DatePicker => false,
        Components::Custom(o) => o.behaviour.should_be_unwrapped,
        _ => true,
    }
}

/// What one field contributes: the state-holder field, the constructor, and
/// whether its value is unwrapped.
pub struct ComponentFieldContent {
    pub field_structure_tokens: String,
    pub field_base_declarations_tokens: String,
    pub should_be_unwrapped: (String, bool),
}

/// What field `f` contributes, or why it cannot be derived.
pub open spec fn field_outcome(f: ComponentField) -> Result<(Seq<char>, Seq<char>, bool), ConfigError> {
    match f.component {
        None => Ok((Seq::empty(), Seq::empty(), false)),
        Some(c) => match type_ident(f.ty) {
            None => Err(ConfigError::UnsupportedFieldType),
            Some(t) => match layout_outcome_of(c) {
                Err(e) => Err(e),
                Ok(_) => Ok(
                    (structure_text_of(c, f.ident@, t), declaration_text_of(c, f.ident@, t), unwraps(
                        c,
                    )),
                ),
            },
        },
    }
}

fn empty_content(name: String) -> (r: ComponentFieldContent)
    ensures
        r.field_structure_tokens@ == Seq::<char>::empty(),
        r.field_base_declarations_tokens@ == Seq::<char>::empty(),
        r.should_be_unwrapped.0@ == name@,
        !r.should_be_unwrapped.1,
{
    ComponentFieldContent {
        field_structure_tokens: String::new(),
        field_base_declarations_tokens: String::new(),
        should_be_unwrapped: (name, false),
    }
}

/// The code that one field contributes to the generated structs.
pub fn generate_component_field(field: &ComponentField) -> (r: Result<ComponentFieldContent, ConfigError>)
    ensures
        match field_outcome(*field) {
            Ok(o) => r is Ok && r->Ok_0.field_structure_tokens@ == o.0
                && r->Ok_0.field_base_declarations_tokens@ == o.1
                && r->Ok_0.should_be_unwrapped.0@ == field.ident@
                && r->Ok_0.should_be_unwrapped.1 == o.2,
            Err(e) => r == Err::<ComponentFieldContent, ConfigError>(e),
        },
{
    let field_name = field.ident.clone();
    let component_def = match &field.component {
        Some(c) => c,
        None => {
            return Ok(empty_content(field_name));
        },
    };
    let type_ident = match extract_type_ident(&field.ty) {
        Ok(t) => t,
        Err(e) => {
            return Err(e);
        },
    };
    let mut content = empty_content(field_name.clone());
    let laid_out = match component_def {
        Components::Input => {
            let component = InputComponent(
                FieldInformation::new(InputOptions, field_name, type_ident),
            );
            content.should_be_unwrapped.1 = true;
            component.field_tokens(
                &mut content.field_structure_tokens,
                &mut content.field_base_declarations_tokens,
            )
        },
        Components::NumberInput => {
            let component = NumberInputComponent(
                FieldInformation::new(NumberInputOptions, field_name, type_ident),
            );
            content.should_be_unwrapped.1 = true;
            component.field_tokens(
                &mut content.field_structure_tokens,
                &mut content.field_base_declarations_tokens,
            )
        },
        Components::Checkbox => {
            let component = CheckboxComponent(
                FieldInformation::new(CheckboxOptions, field_name, type_ident),
            );
            content.should_be_unwrapped.1 = true;
            component.field_tokens(
                &mut content.field_structure_tokens,
                &mut content.field_base_declarations_tokens,
            )
        },
        Components::Switch => {
            let component = SwitchComponent(
                FieldInformation::new(SwitchOptions, field_name, type_ident),
            );
            content.should_be_unwrapped.1 = true;
            component.field_tokens(
                &mut content.field_structure_tokens,
                &mut content.field_base_declarations_tokens,
            )
        },
        Components::Dropdown(options) => {
            let component = DropdownComponent(
                FieldInformation::new(options.duplicate(), field_name, type_ident),
            );
            content.should_be_unwrapped.1 = true;
            component.field_tokens(
                &mut content.field_structure_tokens,
                &mut content.field_base_declarations_tokens,
            )
        },
        Components::DatePicker => {
            let component = DatePickerComponent(
                FieldInformation::new(DatePickerOptions, field_name, type_ident),
            );
            content.should_be_unwrapped.1 = false;
            component.field_tokens(
                &mut content.field_structure_tokens,
                &mut content.field_base_declarations_tokens,
            )
        },
        Components::Custom(options) => {
            let unwrapped = options.behaviour.should_be_unwrapped;
            let component = CustomComponent(
                FieldInformation::new(options.duplicate(), field_name, type_ident),
            );
            content.should_be_unwrapped.1 = unwrapped;
            component.field_tokens(
                &mut content.field_structure_tokens,
                &mut content.field_base_declarations_tokens,
            )
        },
    };
    match laid_out {
        Ok(()) => Ok(content),
        Err(e) => Err(e),
    }
}

pub const BEHAVIOUR_PATH: &'static str = "::gpui_form::components::ComponentsBehaviour";

pub const DROPDOWN_BEHAVIOUR_PATH: &'static str =
    "::gpui_form::components::BehaviourDropdownOptions";

pub const FIELD_VARIANT_PATH: &'static str = "::gpui_form::registry::FieldVariant";

pub const SHAPE_PATH: &'static str = "::gpui_form::registry::GpuiFormShape";

/// `true` or `false`, as source text.
pub open spec fn bool_text(b: bool) -> Seq<char> {
    if b {
        "true"@
    } else {
        "false"@
    }
}

fn push_bool(out: &mut String, b: bool)
    ensures
        final(out)@ == old(out)@ + bool_text(b),
{
    if b {
        out.append("true");
    } else {
        out.append("false");
    }
}

/// The expression for the behaviour that component `c` leaves in the registry;
/// a custom component names its own.
pub open spec fn behaviour_expr_text(c: Components) -> Seq<char> {
    match c {
        Components::Input => BEHAVIOUR_PATH@ + "::Input"@,
        Components::NumberInput => BEHAVIOUR_PATH@ + "::NumberInput"@,
        Components::Checkbox => BEHAVIOUR_PATH@ + "::Checkbox"@,
        Components::Switch => BEHAVIOUR_PATH@ + "::Switch"@,
        Components::Dropdown(o) => BEHAVIOUR_PATH@ + "::Dropdown("@ + DROPDOWN_BEHAVIOUR_PATH@
            + " { searchable: "@ + bool_text(o.behaviour.searchable) + ", partial: "@ + bool_text(
            o.behaviour.partial,
        ) + " })"@,
        Components::DatePicker => BEHAVIOUR_PATH@ + "::DatePicker"@,
        Components::Custom(o) => o.behaviour.name@,
    }
}

pub fn get_components_behaviour_tokens(component: &Components) -> (r: String)
    ensures
        r@ == behaviour_expr_text(*component),
{
    match component {
        Components::Custom(options) => options.behaviour.name.clone(),
        _ => {
            let mut s = BEHAVIOUR_PATH.to_owned();
            match component {
                Components::Input => s.append("::Input"),
                Components::NumberInput => s.append("::NumberInput"),
                Components::Checkbox => s.append("::Checkbox"),
                Components::Switch => s.append("::Switch"),
                Components::DatePicker => s.append("::DatePicker"),
                Components::Dropdown(options) => {
                    s.append("::Dropdown(");
                    s.append(DROPDOWN_BEHAVIOUR_PATH);
                    s.append(" { searchable: ");
                    push_bool(&mut s, options.behaviour.searchable);
                    s.append(", partial: ");
                    push_bool(&mut s, options.behaviour.partial);
                    s.append(" })");
                    assert(s@ =~= behaviour_expr_text(*component));
                },
                Components::Custom(_) => {},
            }
            s
        },
    }
}

/// A character inside a string literal: quotes and backslashes escaped.
pub open spec fn escape_char(c: char) -> Seq<char> {
    if c == '"' {
        seq!['\\', '"']
    } else if c == '\\' {
        seq!['\\', '\\']
    } else {
        seq![c]
    }
}

/// Text inside a string literal.
pub open spec fn escape_text(s: Seq<char>) -> Seq<char>
    decreases s.len(),
{
    if s.len() == 0 {
        Seq::empty()
    } else {
        escape_text(s.drop_last()) + escape_char(s.last())
    }
}

/// Appends `s` escaped for a string literal.
pub fn push_escaped(out: &mut String, s: &str)
    ensures
        final(out)@ == old(out)@ + escape_text(s@),
{
    let ghost start = out@;
    let n = s.unicode_len();
    let mut i: usize = 0;
    while i < n
        invariant
            n == s@.len(),
            i <= n,
            out@ == start + escape_text(s@.take(i as int)),
        decreases n - i,
    {
        assert(s@.take(i + 1).drop_last() =~= s@.take(i as int));
        let c = s.get_char(i);
        if c == '"' {
            out.append("\\\"");
            proof {
                reveal_strlit("\\\"");
            }
        } else if c == '\\' {
            out.append("\\\\");
            proof {
                reveal_strlit("\\\\");
            }
        } else {
            let one = s.substring_char(i, i + 1);
            assert(one@ =~= seq![c]);
            out.append(one);
        }
        assert(out@ =~= start + escape_text(s@.take(i + 1)));
        i = i + 1;
    }
    assert(s@.take(n as int) =~= s@);
}

/// The registry record of a component field, as an expression.
pub open spec fn field_variant_text(f: ComponentField, c: Components) -> Seq<char> {
    FIELD_VARIANT_PATH@ + "::new(\""@ + f.ident@ + "\", \""@ + escape_text(optional_split(f.ty).1)
        + "\", "@
        + bool_text(optional_split(f.ty).0) + ", "@ + behaviour_expr_text(c) + ")"@
}

fn push_field_variant(out: &mut String, f: &ComponentField, c: &Components)
    requires
        f.component == Some(*c),
    ensures
        final(out)@ == old(out)@ + field_variant_text(*f, *c),
{
    let (optional, base) = split_optional(&f.ty);
    let behaviour = get_components_behaviour_tokens(c);
    out.append(FIELD_VARIANT_PATH);
    out.append("::new(\"");
    out.append(f.ident.as_str());
    out.append("\", \"");
    push_escaped(out, base.as_str());
    out.append("\", ");
    push_bool(out, optional);
    out.append(", ");
    out.append(behaviour.as_str());
    out.append(")");
    assert(final(out)@ =~= old(out)@ + field_variant_text(*f, *c));
}

/// The struct being derived.
pub struct ComponentStruct {
    pub ident: String,
    pub fields: Vec<ComponentField>,
}

/// Switches of the derivation.
pub struct GpuiFormOptions {
    /// Also emit the registration of the struct's shape.
    pub generate_shape: bool,
}

/// A field that cannot be derived: its position among the struct's fields,
/// and why.
#[derive(Debug, PartialEq, Eq, Structural)]
pub struct FieldError {
    pub index: usize,
    pub error: ConfigError,
}

/// The first field, in declaration order, that cannot be derived: its
/// position and its error.
pub open spec fn first_error(fields: Seq<ComponentField>) -> Option<(int, ConfigError)>
    decreases fields.len(),
{
    if fields.len() == 0 {
        None
    } else {
        match first_error(fields.drop_last()) {
            Some(e) => Some(e),
            None => if !is_skipped(fields.last()) && field_outcome(fields.last()) is Err {
                Some((fields.len() - 1, field_outcome(fields.last())->Err_0))
            } else {
                None
            },
        }
    }
}

/// The state-holder fields of `fields`, concatenated in declaration order.
pub open spec fn structures_text(fields: Seq<ComponentField>) -> Seq<char>
    decreases fields.len(),
{
    if fields.len() == 0 {
        Seq::empty()
    } else if is_skipped(fields.last()) {
        structures_text(fields.drop_last())
    } else {
        structures_text(fields.drop_last()) + field_outcome(fields.last())->Ok_0.0
    }
}

/// The constructors of `fields`, concatenated in declaration order.
pub open spec fn declarations_text(fields: Seq<ComponentField>) -> Seq<char>
    decreases fields.len(),
{
    if fields.len() == 0 {
        Seq::empty()
    } else if is_skipped(fields.last()) {
        declarations_text(fields.drop_last())
    } else {
        declarations_text(fields.drop_last()) + field_outcome(fields.last())->Ok_0.1
    }
}

/// For each field that is not skipped, its name and whether its value is unwrapped.
pub open spec fn unwrap_decisions(fields: Seq<ComponentField>) -> Seq<(Seq<char>, bool)>
    decreases fields.len(),
{
    if fields.len() == 0 {
        Seq::empty()
    } else if is_skipped(fields.last()) {
        unwrap_decisions(fields.drop_last())
    } else {
        unwrap_decisions(fields.drop_last()).push(
            (fields.last().ident@, field_outcome(fields.last())->Ok_0.2),
        )
    }
}

/// The registry records of the component fields, each followed by `, `.
pub open spec fn variants_text(fields: Seq<ComponentField>) -> Seq<char>
    decreases fields.len(),
{
    if fields.len() == 0 {
        Seq::empty()
    } else {
        match fields.last().component {
            Some(c) => variants_text(fields.drop_last()) + field_variant_text(fields.last(), c)
                + ", "@,
            None => variants_text(fields.drop_last()),
        }
    }
}

/// `pub struct {S}FormFields { ... }`
pub open spec fn fields_struct_text(name: Seq<char>, structures: Seq<char>) -> Seq<char> {
    "pub struct "@ + name + "FormFields { "@ + structures + " }"@
}

/// `pub struct {S}FormComponents;` and its constructors.
pub open spec fn components_struct_text(name: Seq<char>, declarations: Seq<char>) -> Seq<char> {
    "pub struct "@ + name + "FormComponents; impl "@ + name + "FormComponents { "@ + declarations
        + " }"@
}

/// A function on the constructor namespace that returns the struct's shape.
pub open spec fn shape_registration_text(name: Seq<char>, variants: Seq<char>) -> Seq<char> {
    "impl "@ + name + "FormComponents { pub fn shape() -> "@ + SHAPE_PATH@ + " { "@ + SHAPE_PATH@
        + "::new(\""@ + name + "\", vec!["@ + variants + "]) } }"@
}

/// Everything the derivation emits for one struct, but the value holder.
pub struct DerivedForm {
    /// The name of the value holder that the unwrap transform builds.
    pub value_holder_name: String,
    /// The state-holder struct.
    pub fields_struct: String,
    /// The constructor namespace and its functions.
    pub components_struct: String,
    /// The registration of the struct's shape, or nothing.
    pub shape_registration: String,
    /// For each field that is not skipped: whether the value holder unwraps it.
    pub should_be_unwrapped: Vec<(String, bool)>,
}

pub open spec fn unwrap_view(v: Seq<(String, bool)>) -> Seq<(Seq<char>, bool)> {
    v.map_values(|p: (String, bool)| (p.0@, p.1))
}

/// Derives the form structs of `input`, or reports the first field that
/// cannot be derived.
pub fn from(input: &ComponentStruct, options: GpuiFormOptions) -> (r: Result<
    DerivedForm,
    FieldError,
>)
    ensures
        match first_error(input.fields@) {
            Some(e) => r is Err && r->Err_0.index == e.0 && r->Err_0.error == e.1,
            None => r is Ok && {
                let d = r->Ok_0;
                &&& d.value_holder_name@ == input.ident@ + "FormValueHolder"@
                &&& d.fields_struct@ == fields_struct_text(
                    input.ident@,
                    structures_text(input.fields@),
                )
                &&& d.components_struct@ == components_struct_text(
                    input.ident@,
                    declarations_text(input.fields@),
                )
                &&& d.shape_registration@ == if options.generate_shape {
                    shape_registration_text(input.ident@, variants_text(input.fields@))
                } else {
                    Seq::<char>::empty()
                }
                &&& unwrap_view(d.should_be_unwrapped@) == unwrap_decisions(input.fields@)
            },
        },
{
    let mut structures = String::new();
    let mut declarations = String::new();
    let mut should_be_unwrapped: Vec<(String, bool)> = Vec::new();
    let mut i: usize = 0;
    while i < input.fields.len()
        invariant
            i <= input.fields@.len(),
            first_error(input.fields@.take(i as int)) is None,
            structures@ == structures_text(input.fields@.take(i as int)),
            declarations@ == declarations_text(input.fields@.take(i as int)),
            unwrap_view(should_be_unwrapped@) == unwrap_decisions(input.fields@.take(i as int)),
        decreases input.fields.len() - i,
    {
        let field = &input.fields[i];
        assert(input.fields@.take(i + 1).drop_last() =~= input.fields@.take(i as int));
        assert(input.fields@.take(i + 1).last() == input.fields@[i as int]);
        if !field.skip() {
            let content = match generate_component_field(field) {
                Ok(c) => c,
                Err(e) => {
                    proof {
                        assert(field_outcome(*field) == Err::<(Seq<char>, Seq<char>, bool), ConfigError>(e));
                        assert(input.fields@.take(i as int + 1).len() == i + 1);
                        assert(first_error(input.fields@.take(i as int + 1)) == Some((i as int, e)));
                        lemma_first_error_extends(input.fields@, i as int + 1);
                    }
                    return Err(FieldError { index: i, error: e });
                },
            };
            structures.append(content.field_structure_tokens.as_str());
            declarations.append(content.field_base_declarations_tokens.as_str());
            let ghost before = should_be_unwrapped@;
            should_be_unwrapped.push(content.should_be_unwrapped);
            assert(unwrap_view(should_be_unwrapped@) =~= unwrap_view(before).push(
                (field.ident@, field_outcome(*field)->Ok_0.2),
            ));
        }
        i = i + 1;
    }
    assert(input.fields@.take(input.fields@.len() as int) =~= input.fields@);

    let mut variants = String::new();
    let mut j: usize = 0;
    while j < input.fields.len()
        invariant
            j <= input.fields@.len(),
            variants@ == variants_text(input.fields@.take(j as int)),
        decreases input.fields.len() - j,
    {
        let field = &input.fields[j];
        assert(input.fields@.take(j + 1).drop_last() =~= input.fields@.take(j as int));
        assert(input.fields@.take(j + 1).last() == input.fields@[j as int]);
        if let Some(c) = &field.component {
            push_field_variant(&mut variants, field, c);
            variants.append(", ");
        }
        j = j + 1;
    }

    let name = input.ident.as_str();
    let mut value_holder_name = name.to_owned();
    value_holder_name.append("FormValueHolder");

    let mut fields_struct = "pub struct ".to_owned();
    fields_struct.append(name);
    fields_struct.append("FormFields { ");
    fields_struct.append(structures.as_str());
    fields_struct.append(" }");

    let mut components_struct = "pub struct ".to_owned();
    components_struct.append(name);
    components_struct.append("FormComponents; impl ");
    components_struct.append(name);
    components_struct.append("FormComponents { ");
    components_struct.append(declarations.as_str());
    components_struct.append(" }");

    let mut shape_registration = String::new();
    if options.generate_shape {
        shape_registration.append("impl ");
        shape_registration.append(name);
        shape_registration.append("FormComponents { pub fn shape() -> ");
        shape_registration.append(SHAPE_PATH);
        shape_registration.append(" { ");
        shape_registration.append(SHAPE_PATH);
        shape_registration.append("::new(\"");
        shape_registration.append(name);
        shape_registration.append("\", vec![");
        shape_registration.append(variants.as_str());
        shape_registration.append("]) } }");
    }
    assert(fields_struct@ =~= fields_struct_text(input.ident@, structures_text(input.fields@)));
    assert(components_struct@ =~= components_struct_text(
        input.ident@,
        declarations_text(input.fields@),
    ));
    assert(options.generate_shape ==> shape_registration@ =~= shape_registration_text(
        input.ident@,
        variants_text(input.fields@),
    ));
    Ok(
        DerivedForm {
            value_holder_name,
            fields_struct,
            components_struct,
            shape_registration,
            should_be_unwrapped,
        },
    )
}

/// The first error of a prefix that ends in a failing field is found there
/// or earlier, and stays the first error of every longer prefix.
proof fn lemma_first_error_extends(fields: Seq<ComponentField>, n: int)
    requires
        0 < n <= fields.len(),
        first_error(fields.take(n)) is Some,
    ensures
        first_error(fields) == first_error(fields.take(n)),
    decreases fields.len() - n,
{
    if n == fields.len() {
        assert(fields.take(n) =~= fields);
    } else {
        assert(fields.take(n + 1).drop_last() =~= fields.take(n));
        lemma_first_error_extends(fields, n + 1);
    }
}

/// Whether component `c` keeps widget state of its own in the state holder.
pub open spec fn keeps_widget_state(c: Components) -> bool {
    c is Input || c is NumberInput || c is Dropdown || c is DatePicker
}

/// The fields of the state holder, in declaration order: the widget name and
/// the state type of each field that is not skipped and whose component keeps
/// widget state.
pub open spec fn state_holder_entries(fields: Seq<ComponentField>) -> Seq<(Seq<char>, Seq<char>)>
    decreases fields.len(),
{
    if fields.len() == 0 {
        Seq::empty()
    } else {
        let f = fields.last();
        let rest = state_holder_entries(fields.drop_last());
        if is_skipped(f) {
            rest
        } else {
            match f.component {
                Some(c) => match type_ident(f.ty) {
                    Some(t) => match state_type_of(c, t) {
                        Some(state) => rest.push((widget_name_of(c, f.ident@), state)),
                        None => rest,
                    },
                    None => rest,
                },
                None => rest,
            }
        }
    }
}

/// The source text of state-holder fields.
pub open spec fn entries_text(entries: Seq<(Seq<char>, Seq<char>)>) -> Seq<char>
    decreases entries.len(),
{
    if entries.len() == 0 {
        Seq::empty()
    } else {
        entries_text(entries.drop_last()) + crate::layout::entity_field_text(
            entries.last().0,
            entries.last().1,
        )
    }
}

/// The widget name of every field that is not skipped and names a component,
/// in declaration order.
pub open spec fn component_field_names(fields: Seq<ComponentField>) -> Seq<Seq<char>>
    decreases fields.len(),
{
    if fields.len() == 0 {
        Seq::empty()
    } else {
        let f = fields.last();
        let rest = component_field_names(fields.drop_last());
        if is_skipped(f) {
            rest
        } else {
            match f.component {
                Some(c) => rest.push(widget_name_of(c, f.ident@)),
                None => rest,
            }
        }
    }
}

/// The state holder that `from` emits holds exactly the entries of
/// `state_holder_entries`, one field each, in declaration order.
pub proof fn lemma_state_holder_is_its_entries(fields: Seq<ComponentField>)
    requires
        first_error(fields) is None,
    ensures
        structures_text(fields) == entries_text(state_holder_entries(fields)),
    decreases fields.len(),
{
    if fields.len() > 0 {
        let f = fields.last();
        lemma_state_holder_is_its_entries(fields.drop_last());
        let rest = state_holder_entries(fields.drop_last());
        if !is_skipped(f) {
            match f.component {
                Some(c) => {
                    let t = type_ident(f.ty)->Some_0;
                    match state_type_of(c, t) {
                        Some(state) => {
                            assert(rest.push((widget_name_of(c, f.ident@), state)).drop_last()
                                =~= rest);
                        },
                        None => {
                            assert(structures_text(fields) =~= structures_text(
                                fields.drop_last(),
                            ));
                        },
                    }
                },
                None => {
                    assert(structures_text(fields) =~= structures_text(fields.drop_last()));
                },
            }
        }
    }
}

/// When every component field that is not skipped keeps widget state, the
/// state holder's fields are exactly those component fields, in declaration
/// order, each under its widget name.
pub proof fn lemma_state_holder_fields_are_component_fields(fields: Seq<ComponentField>)
    requires
        first_error(fields) is None,
        forall|i: int|
            0 <= i < fields.len() && !is_skipped(#[trigger] fields[i]) && fields[i].component is Some
                ==> keeps_widget_state(fields[i].component->Some_0),
    ensures
        state_holder_entries(fields).map_values(|e: (Seq<char>, Seq<char>)| e.0)
            == component_field_names(fields),
    decreases fields.len(),
{
    if fields.len() > 0 {
        let prefix = fields.drop_last();
        assert forall|i: int|
            0 <= i < prefix.len() && !is_skipped(#[trigger] prefix[i]) && prefix[i].component is Some
                implies keeps_widget_state(prefix[i].component->Some_0) by {
            assert(prefix[i] == fields[i]);
        }
        lemma_state_holder_fields_are_component_fields(prefix);
        let f = fields.last();
        assert(f == fields[fields.len() - 1]);
        let rest = state_holder_entries(prefix);
        let names = rest.map_values(|e: (Seq<char>, Seq<char>)| e.0);
        if !is_skipped(f) && f.component is Some {
            let c = f.component->Some_0;
            let t = type_ident(f.ty)->Some_0;
            let state = state_type_of(c, t)->Some_0;
            assert(rest.push((widget_name_of(c, f.ident@), state)).map_values(
                |e: (Seq<char>, Seq<char>)| e.0,
            ) =~= names.push(widget_name_of(c, f.ident@)));
        }
    }
}

/// The field that `first_error` names is one of the fields.
proof fn lemma_first_error_in_range(fields: Seq<ComponentField>)
    ensures
        first_error(fields) is Some ==> 0 <= first_error(fields)->Some_0.0 < fields.len(),
    decreases fields.len(),
{
    if fields.len() > 0 {
        lemma_first_error_in_range(fields.drop_last());
    }
}

/// A dropdown field that names an initial value and also asks for the
/// default one cannot be derived, and a struct with such a field fails at
/// the first failing field.
pub proof fn lemma_conflicting_dropdown_field_fails(fields: Seq<ComponentField>, i: int)
    requires
        0 <= i < fields.len(),
        !is_skipped(fields[i]),
        fields[i].component matches Some(Components::Dropdown(o)) && o.named_index is Some
            && o.index_default,
        type_ident(fields[i].ty) is Some,
    ensures
        field_outcome(fields[i]) == Err::<(Seq<char>, Seq<char>, bool), ConfigError>(
            ConfigError::ConflictingIndexOptions,
        ),
        first_error(fields) is Some,
        first_error(fields)->Some_0.0 <= i,
    decreases fields.len(),
{
    if i == fields.len() - 1 {
        assert(fields.last() == fields[i]);
        lemma_first_error_in_range(fields.drop_last());
    } else {
        assert(fields.drop_last()[i] == fields[i]);
        lemma_conflicting_dropdown_field_fails(fields.drop_last(), i);
    }
}

/// The `DropdownItem` impl of an enum: its title is its display text, its
/// value the item itself.
pub open spec fn dropdown_item_text(item: Seq<char>) -> Seq<char> {
    "impl gpui_component::dropdown::DropdownItem for "@ + item
        + " { type Value = Self; fn title(&self) -> gpui::SharedString { self.to_string().into() } fn value(&self) -> &Self::Value { self } }"@
}

/// Derives `DropdownItem` for the enum named `item_ident`.
pub fn derive_dropdown_item(item_ident: &str) -> (r: String)
    ensures
        r@ == dropdown_item_text(item_ident@),
{
    let mut r = "impl gpui_component::dropdown::DropdownItem for ".to_owned();
    r.append(item_ident);
    r.append(
        " { type Value = Self; fn title(&self) -> gpui::SharedString { self.to_string().into() } fn value(&self) -> &Self::Value { self } }",
    );
    r
}

} // verus!
