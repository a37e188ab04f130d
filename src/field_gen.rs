//! The prototyping backend: for each field of a registered shape, the pieces
//! of a complete form controller (widget construction, state wiring, the
//! rendered child, the focus order, and event subscriptions with handlers).
use vstd::prelude::*;

use crate::case::{kebab_case_of, pascal_case_of, to_kebab_case, to_pascal_case};
use crate::code_gen::{ComponentIdentities, ShapeIdentities};
use crate::components::ComponentsBehaviour;
use crate::names::{component_field_name, ComponentFieldName};
use crate::registry::FieldVariant;

verus! {

/// The date type that a date-picker handler parses into.
#[derive(Clone, Copy, Debug, PartialEq, Eq, Structural)]
pub enum DateLibrary {
    /// `chrono::NaiveDate`, written `%Y-%m-%d`.
    Chrono,
    /// `jiff::civil::DateTime`.
    Jiff,
}

pub open spec fn opt_view(o: Option<String>) -> Option<Seq<char>> {
    match o {
        Some(s) => Some(s@),
        None => None,
    }
}

pub open spec fn strings_view(v: Seq<String>) -> Seq<Seq<char>> {
    v.map_values(|s: String| s@)
}

/// `{field}_{behaviour}`: the field's widget state in the state holder.
pub open spec fn widget_name(f: FieldVariant) -> Seq<char> {
    component_field_name(f.behaviour.name_view(), f.field_name@)
}

fn widget_name_string(f: &FieldVariant) -> (r: String)
    ensures
        r@ == widget_name(*f),
{
    ComponentFieldName::new(f.behaviour.name(), f.field_name.as_str()).0
}

/// The behaviour keeps a separate widget state that the form constructs.
pub open spec fn has_widget_state(b: ComponentsBehaviour) -> bool {
    !(b is Checkbox || b is Switch)
}

/// `let w = cx.new(|cx| {S}FormComponents::w(window, cx));`
pub open spec fn cx_new_text(w: Seq<char>, s: Seq<char>) -> Seq<char> {
    "let "@ + w + " = cx.new(|cx| "@ + s + "FormComponents::"@ + w + "(window, cx));"@
}

/// The statement constructing a field's widget state, if the form builds one.
pub open spec fn cx_new_call_text(f: FieldVariant, s: Seq<char>) -> Option<Seq<char>> {
    if has_widget_state(f.behaviour) && !f.behaviour.partial_view() {
        Some(cx_new_text(widget_name(f), s))
    } else {
        None
    }
}

/// The entry wiring a field's widget state into the state holder: present
/// exactly when the form constructs that state.
pub open spec fn field_initializer_text(f: FieldVariant) -> Option<Seq<char>> {
    if has_widget_state(f.behaviour) && !f.behaviour.partial_view() {
        Some(widget_name(f) + ", "@)
    } else {
        None
    }
}

/// The label and description of a field, looked up by its PascalCase name.
pub open spec fn labelled_text(s: Seq<char>, p: Seq<char>) -> Seq<char> {
    ".child(form_field().label("@ + s + "LabelFtl::"@ + p + ".to_string()).description("@ + s
        + "DescriptionFtl::"@ + p + ".to_string())"@
}

/// A rendered child that shows a field's widget state.
pub open spec fn render_state_text(s: Seq<char>, p: Seq<char>, c: Seq<char>, w: Seq<char>) -> Seq<
    char,
> {
    labelled_text(s, p) + ".child("@ + c + "::new(&self.fields."@ + w + ")))"@
}

/// A rendered child that reads a boolean field and toggles it on click.
pub open spec fn render_toggle_text(
    s: Seq<char>,
    p: Seq<char>,
    c: Seq<char>,
    id: Seq<char>,
    f: Seq<char>,
) -> Seq<char> {
    labelled_text(s, p) + ".child("@ + c + "::new(\""@ + id + "\").checked(self.current_data."@ + f
        + ").on_click(cx.listener(|v, _, _, _| { v.current_data."@ + f + " = !v.current_data."@ + f
        + "; }))))"@
}

/// The rendered child of a field.
pub open spec fn render_child_text(f: FieldVariant, s: Seq<char>) -> Seq<char> {
    if has_widget_state(f.behaviour) {
        render_state_text(
            s,
            pascal_case_of(f.field_name@),
            f.behaviour.component_ident_view(),
            widget_name(f),
        )
    } else {
        render_toggle_text(
            s,
            pascal_case_of(f.field_name@),
            f.behaviour.component_ident_view(),
            kebab_case_of(widget_name(f)),
            f.field_name@,
        )
    }
}

/// A field's contribution to the tab-focus order.
pub open spec fn focusable_cycle_text(f: FieldVariant) -> Option<Seq<char>> {
    if f.behaviour.is_focusable() {
        Some("self.fields."@ + widget_name(f) + ".focus_handle(cx), "@)
    } else {
        None
    }
}

/// `cx.subscribe_in(&w, window, Self::handler)`
pub open spec fn subscribe_text(w: Seq<char>, handler: Seq<char>) -> Seq<char> {
    "cx.subscribe_in(&"@ + w + ", window, Self::"@ + handler + ")"@
}

/// `on_{field}_{event}`
pub open spec fn handler_name(f: Seq<char>, event: Seq<char>) -> Seq<char> {
    "on_"@ + f + "_"@ + event + "_event"@
}

pub open spec fn input_handler_text(h: Seq<char>, f: Seq<char>) -> Seq<char> {
    "fn "@ + h
        + "(&mut self, state: &Entity<InputState>, event: &InputEvent, _window: &mut Window, _cx: &mut Context<Self>) { match event { InputEvent::Change => { let text = state.read(_cx).value(); self.current_data."@
        + f + " = text.to_owned().into(); } _ => {} } }"@
}

pub open spec fn number_text_handler_text(h: Seq<char>, f: Seq<char>, t: Seq<char>) -> Seq<char> {
    "fn "@ + h
        + "(&mut self, _this: &Entity<InputState>, event: &InputEvent, _: &mut Window, _: &mut Context<Self>) { match event { InputEvent::Change(text) => { if let Ok(value) = text.parse::<"@
        + t + ">() { self.current_data."@ + f + " = value.into(); } } _ => {} } }"@
}

/// How a number field steps: by plain arithmetic, or saturating at its bounds.
#[derive(Clone, Copy, Debug, PartialEq, Eq, Structural)]
pub enum StepArithmetic {
    /// `f32`, `f64`: plain addition and subtraction of `1`.
    Float,
    /// `i*`, `u*`: saturating addition and subtraction of `1`.
    Integer,
    /// Any other type: saturating arithmetic with `T::from(1)`.
    External,
}

/// The primitive floating-point types.
pub open spec fn is_float_type(t: Seq<char>) -> bool {
    t == "f32"@ || t == "f64"@
}

/// The primitive integer types.
pub open spec fn is_integer_type(t: Seq<char>) -> bool {
    t == "i8"@ || t == "i16"@ || t == "i32"@ || t == "i64"@ || t == "i128"@ || t == "isize"@ || t == "u8"@ || t == "u16"@ || t == "u32"@ || t == "u64"@ || t == "u128"@ || t == "usize"@
}

/// The step arithmetic of a field type, by its family: primitive floats,
/// primitive integers, or any other numeric type.
pub open spec fn step_arithmetic_of(t: Seq<char>) -> StepArithmetic {
    if is_float_type(t) {
        StepArithmetic::Float
    } else if is_integer_type(t) {
        StepArithmetic::Integer
    } else {
        StepArithmetic::External
    }
}

fn same_text(a: &str, b: &str) -> (r: bool)
    ensures
        r == (a@ == b@),
{
    a.to_owned() == b.to_owned()
}

pub fn step_arithmetic(t: &str) -> (r: StepArithmetic)
    ensures
        r == step_arithmetic_of(t@),
{
    if same_text(t, "f32") || same_text(t, "f64") {
        StepArithmetic::Float
    } else if same_text(t, "i8") || same_text(t, "i16") || same_text(t, "i32") || same_text(t, "i64") || same_text(t, "i128") || same_text(t, "isize") || same_text(t, "u8") || same_text(t, "u16") || same_text(t, "u32") || same_text(t, "u64") || same_text(t, "u128") || same_text(t, "usize") {
        StepArithmetic::Integer
    } else {
        StepArithmetic::External
    }
}

/// The statements that step field `f` of type `t` up or down by one.
pub open spec fn step_text(a: StepArithmetic, f: Seq<char>, t: Seq<char>, up: bool) -> Seq<char> {
    "let new_value = self.current_data."@ + f + match a {
        StepArithmetic::Float => (if up {
            " + "@
        } else {
            " - "@
        }) + "1 as "@ + t,
        StepArithmetic::Integer => (if up {
            ".saturating_add("@
        } else {
            ".saturating_sub("@
        }) + "1 as "@ + t + ")"@,
        StepArithmetic::External => (if up {
            ".saturating_add("@
        } else {
            ".saturating_sub("@
        }) + t + "::from(1))"@,
    } + "; self.current_data."@ + f + " = new_value;"@
}

/// Writes a stepped value back into the widget.
pub open spec fn write_back_text(f: Seq<char>) -> Seq<char> {
    " this.update(cx, |input, cx| { input.set_value(self.current_data."@ + f
        + ".to_string(), window, cx); });"@
}

pub open spec fn number_step_handler_text(h: Seq<char>, f: Seq<char>, t: Seq<char>) -> Seq<char> {
    "fn "@ + h
        + "(&mut self, this: &Entity<InputState>, event: &NumberInputEvent, window: &mut Window, cx: &mut Context<Self>) { match event { NumberInputEvent::Step(step_action) => match step_action { StepAction::Decrement => { "@
        + step_text(step_arithmetic_of(t), f, t, false) + write_back_text(f)
        + " } StepAction::Increment => { "@ + step_text(step_arithmetic_of(t), f, t, true)
        + write_back_text(f) + " } }, } }"@
}

/// The candidate collection of a dropdown, as the generated module imports it.
pub open spec fn dropdown_collection_text(searchable: bool) -> Seq<char> {
    if searchable {
        "SearchableVec"@
    } else {
        "Vec"@
    }
}

pub open spec fn dropdown_handler_text(h: Seq<char>, f: Seq<char>, v: Seq<char>, t: Seq<char>) -> Seq<
    char,
> {
    "fn "@ + h + "(&mut self, _this: &Entity<DropdownState<"@ + v + "<"@ + t
        + ">>>, event: &DropdownEvent<"@ + v + "<"@ + t
        + ">>, _window: &mut Window, _cx: &mut Context<Self>) { match event { DropdownEvent::Confirm(value) => { if let Some(value) = value { self.current_data."@
        + f + " = value.clone().into(); } }, } }"@
}

/// The parse of a picked date: a required field falls back to the type's
/// default, an optional one becomes `None`.
pub open spec fn date_assign_text(lib: DateLibrary, f: Seq<char>, optional: bool) -> Seq<char> {
    "self.current_data."@ + f + " = "@ + match lib {
        DateLibrary::Chrono => "chrono::NaiveDate::parse_from_str(&date.to_owned().to_string(), \"%Y-%m-%d\")"@,
        DateLibrary::Jiff => "jiff::civil::DateTime::from_str(&date.to_owned().to_string())"@,
    } + if optional {
        ".ok();"@
    } else {
        ".unwrap_or_default();"@
    }
}

pub open spec fn date_handler_text(h: Seq<char>, assign: Seq<char>) -> Seq<char> {
    "fn "@ + h
        + "(&mut self, _this: &Entity<DatePickerState>, event: &DatePickerEvent, _: &mut Window, _: &mut Context<Self>) { match event { DatePickerEvent::Change(date) => { "@
        + assign + " } } }"@
}

/// The subscriptions of a field and their handlers, if it has any.
pub open spec fn subscription_text(f: FieldVariant, lib: DateLibrary) -> Option<
    (Seq<Seq<char>>, Seq<Seq<char>>),
> {
    let w = widget_name(f);
    let n = f.field_name@;
    let t = f.field_type@;
    match f.behaviour {
        ComponentsBehaviour::Input => Some(
            (
                seq![subscribe_text(w, handler_name(n, "input"@))],
                seq![input_handler_text(handler_name(n, "input"@), n)],
            ),
        ),
        ComponentsBehaviour::NumberInput => Some(
            (
                seq![
                    subscribe_text(w, handler_name(n, "input"@)),
                    subscribe_text(w, handler_name(n, "number_input"@)),
                ],
                seq![
                    number_text_handler_text(handler_name(n, "input"@), n, t),
                    number_step_handler_text(handler_name(n, "number_input"@), n, t),
                ],
            ),
        ),
        ComponentsBehaviour::Dropdown(o) => Some(
            (
                seq![subscribe_text(w, handler_name(n, "dropdown"@))],
                seq![
                    dropdown_handler_text(
                        handler_name(n, "dropdown"@),
                        n,
                        dropdown_collection_text(o.searchable),
                        t,
                    ),
                ],
            ),
        ),
        ComponentsBehaviour::DatePicker => Some(
            (
                seq![subscribe_text(w, handler_name(n, "date_picker"@))],
                seq![
                    date_handler_text(
                        handler_name(n, "date_picker"@),
                        date_assign_text(lib, n, f.optional),
                    ),
                ],
            ),
        ),
        _ => None,
    }
}

/// Event subscriptions of one field and the handler functions they name.
pub struct GeneratedSubscription {
    pub calls: Vec<String>,
    pub handlers: Vec<String>,
}

impl GeneratedSubscription {
    pub fn is_empty(&self) -> (r: bool)
        ensures
            r == (self.calls@.len() == 0 && self.handlers@.len() == 0),
    {
        self.calls.len() == 0 && self.handlers.len() == 0
    }
}

pub open spec fn subscription_view(s: Option<GeneratedSubscription>) -> Option<
    (Seq<Seq<char>>, Seq<Seq<char>>),
> {
    match s {
        Some(g) => Some((strings_view(g.calls@), strings_view(g.handlers@))),
        None => None,
    }
}

fn cx_new(w: &str, s: &str) -> (r: String)
    ensures
        r@ == cx_new_text(w@, s@),
{
    let mut r = "let ".to_owned();
    r.append(w);
    r.append(" = cx.new(|cx| ");
    r.append(s);
    r.append("FormComponents::");
    r.append(w);
    r.append("(window, cx));");
    assert(r@ =~= cx_new_text(w@, s@));
    r
}

fn labelled(s: &str, p: &str) -> (r: String)
    ensures
        r@ == labelled_text(s@, p@),
{
    let mut r = ".child(form_field().label(".to_owned();
    r.append(s);
    r.append("LabelFtl::");
    r.append(p);
    r.append(".to_string()).description(");
    r.append(s);
    r.append("DescriptionFtl::");
    r.append(p);
    r.append(".to_string())");
    assert(r@ =~= labelled_text(s@, p@));
    r
}

fn subscribe(w: &str, handler: &str) -> (r: String)
    ensures
        r@ == subscribe_text(w@, handler@),
{
    let mut r = "cx.subscribe_in(&".to_owned();
    r.append(w);
    r.append(", window, Self::");
    r.append(handler);
    r.append(")");
    assert(r@ =~= subscribe_text(w@, handler@));
    r
}

fn make_handler_name(f: &str, event: &str) -> (r: String)
    ensures
        r@ == handler_name(f@, event@),
{
    let mut r = "on_".to_owned();
    r.append(f);
    r.append("_");
    r.append(event);
    r.append("_event");
    assert(r@ =~= handler_name(f@, event@));
    r
}

fn input_handler(h: &str, f: &str) -> (r: String)
    ensures
        r@ == input_handler_text(h@, f@),
{
    let mut r = "fn ".to_owned();
    r.append(h);
    r.append("(&mut self, state: &Entity<InputState>, event: &InputEvent, _window: &mut Window, _cx: &mut Context<Self>) { match event { InputEvent::Change => { let text = state.read(_cx).value(); self.current_data.");
    r.append(f);
    r.append(" = text.to_owned().into(); } _ => {} } }");
    assert(r@ =~= input_handler_text(h@, f@));
    r
}

fn number_text_handler(h: &str, f: &str, t: &str) -> (r: String)
    ensures
        r@ == number_text_handler_text(h@, f@, t@),
{
    let mut r = "fn ".to_owned();
    r.append(h);
    r.append("(&mut self, _this: &Entity<InputState>, event: &InputEvent, _: &mut Window, _: &mut Context<Self>) { match event { InputEvent::Change(text) => { if let Ok(value) = text.parse::<");
    r.append(t);
    r.append(">() { self.current_data.");
    r.append(f);
    r.append(" = value.into(); } } _ => {} } }");
    assert(r@ =~= number_text_handler_text(h@, f@, t@));
    r
}

fn write_back(f: &str) -> (r: String)
    ensures
        r@ == write_back_text(f@),
{
    let mut r = " this.update(cx, |input, cx| { input.set_value(self.current_data.".to_owned();
    r.append(f);
    r.append(".to_string(), window, cx); });");
    assert(r@ =~= write_back_text(f@));
    r
}

fn dropdown_handler(h: &str, f: &str, v: &str, t: &str) -> (r: String)
    ensures
        r@ == dropdown_handler_text(h@, f@, v@, t@),
{
    let mut r = "fn ".to_owned();
    r.append(h);
    r.append("(&mut self, _this: &Entity<DropdownState<");
    r.append(v);
    r.append("<");
    r.append(t);
    r.append(">>>, event: &DropdownEvent<");
    r.append(v);
    r.append("<");
    r.append(t);
    r.append(">>, _window: &mut Window, _cx: &mut Context<Self>) { match event { DropdownEvent::Confirm(value) => { if let Some(value) = value { self.current_data.");
    r.append(f);
    r.append(" = value.clone().into(); } }, } }");
    assert(r@ =~= dropdown_handler_text(h@, f@, v@, t@));
    r
}

fn date_handler(h: &str, assign: &str) -> (r: String)
    ensures
        r@ == date_handler_text(h@, assign@),
{
    let mut r = "fn ".to_owned();
    r.append(h);
    r.append("(&mut self, _this: &Entity<DatePickerState>, event: &DatePickerEvent, _: &mut Window, _: &mut Context<Self>) { match event { DatePickerEvent::Change(date) => { ");
    r.append(assign);
    r.append(" } } }");
    assert(r@ =~= date_handler_text(h@, assign@));
    r
}

fn render_state(s: &str, p: &str, c: &str, w: &str) -> (r: String)
    ensures
        r@ == render_state_text(s@, p@, c@, w@),
{
    let mut r = labelled(s, p);
    r.append(".child(");
    r.append(c);
    r.append("::new(&self.fields.");
    r.append(w);
    r.append(")))");
    assert(r@ =~= render_state_text(s@, p@, c@, w@));
    r
}

fn render_toggle(s: &str, p: &str, c: &str, id: &str, f: &str) -> (r: String)
    ensures
        r@ == render_toggle_text(s@, p@, c@, id@, f@),
{
    let mut r = labelled(s, p);
    r.append(".child(");
    r.append(c);
    r.append("::new(\"");
    r.append(id);
    r.append("\").checked(self.current_data.");
    r.append(f);
    r.append(").on_click(cx.listener(|v, _, _, _| { v.current_data.");
    r.append(f);
    r.append(" = !v.current_data.");
    r.append(f);
    r.append("; }))))");
    assert(r@ =~= render_toggle_text(s@, p@, c@, id@, f@));
    r
}

fn step(a: StepArithmetic, f: &str, t: &str, up: bool) -> (r: String)
    ensures
        r@ == step_text(a, f@, t@, up),
{
    let mut r = "let new_value = self.current_data.".to_owned();
    r.append(f);
    let ghost prefix = r@;
    let mut op = String::new();
    match a {
        StepArithmetic::Float => {
            if up {
                op.append(" + ");
            } else {
                op.append(" - ");
            }
            op.append("1 as ");
            op.append(t);
        },
        StepArithmetic::Integer => {
            if up {
                op.append(".saturating_add(");
            } else {
                op.append(".saturating_sub(");
            }
            op.append("1 as ");
            op.append(t);
            op.append(")");
        },
        StepArithmetic::External => {
            if up {
                op.append(".saturating_add(");
            } else {
                op.append(".saturating_sub(");
            }
            op.append(t);
            op.append("::from(1))");
        },
    }
    r.append(op.as_str());
    r.append("; self.current_data.");
    r.append(f);
    r.append(" = new_value;");
    assert(r@ =~= step_text(a, f@, t@, up));
    r
}

fn number_step_handler(h: &str, f: &str, t: &str) -> (r: String)
    ensures
        r@ == number_step_handler_text(h@, f@, t@),
{
    let a = step_arithmetic(t);
    let down = step(a, f, t, false);
    let up = step(a, f, t, true);
    let back = write_back(f);
    let mut r = "fn ".to_owned();
    r.append(h);
    r.append(
        "(&mut self, this: &Entity<InputState>, event: &NumberInputEvent, window: &mut Window, cx: &mut Context<Self>) { match event { NumberInputEvent::Step(step_action) => match step_action { StepAction::Decrement => { ",
    );
    r.append(down.as_str());
    r.append(back.as_str());
    r.append(" } StepAction::Increment => { ");
    r.append(up.as_str());
    r.append(back.as_str());
    r.append(" } }, } }");
    assert(r@ =~= number_step_handler_text(h@, f@, t@));
    r
}

fn date_assign(lib: DateLibrary, f: &str, optional: bool) -> (r: String)
    ensures
        r@ == date_assign_text(lib, f@, optional),
{
    let mut r = "self.current_data.".to_owned();
    r.append(f);
    r.append(" = ");
    match lib {
        DateLibrary::Chrono => r.append(
            "chrono::NaiveDate::parse_from_str(&date.to_owned().to_string(), \"%Y-%m-%d\")",
        ),
        DateLibrary::Jiff => r.append(
            "jiff::civil::DateTime::from_str(&date.to_owned().to_string())",
        ),
    }
    if optional {
        r.append(".ok();");
    } else {
        r.append(".unwrap_or_default();");
    }
    assert(r@ =~= date_assign_text(lib, f@, optional));
    r
}

fn state_cx_new_call(field: &FieldVariant, component: &ShapeIdentities) -> (r: Option<String>)
    requires
        has_widget_state(field.behaviour),
    ensures
        opt_view(r) == cx_new_call_text(*field, component.shape.struct_name@),
{
    if field.behaviour.partial() {
        return None;
    }
    let w = widget_name_string(field);
    Some(cx_new(w.as_str(), component.struct_name()))
}

fn state_field_initializer(field: &FieldVariant) -> (r: Option<String>)
    requires
        has_widget_state(field.behaviour),
    ensures
        opt_view(r) == field_initializer_text(*field),
{
    if field.behaviour.partial() {
        return None;
    }
    let mut w = widget_name_string(field);
    w.append(", ");
    Some(w)
}

fn state_render_child(field: &FieldVariant, component: &ShapeIdentities) -> (r: String)
    requires
        has_widget_state(field.behaviour),
    ensures
        r@ == render_child_text(*field, component.shape.struct_name@),
{
    let p = to_pascal_case(field.field_name.as_str());
    let w = widget_name_string(field);
    render_state(
        component.struct_name(),
        p.as_str(),
        field.behaviour.as_component_ident(),
        w.as_str(),
    )
}

fn toggle_render_child(field: &FieldVariant, component: &ShapeIdentities) -> (r: String)
    requires
        !has_widget_state(field.behaviour),
    ensures
        r@ == render_child_text(*field, component.shape.struct_name@),
{
    let p = to_pascal_case(field.field_name.as_str());
    let w = widget_name_string(field);
    let id = to_kebab_case(w.as_str());
    render_toggle(
        component.struct_name(),
        p.as_str(),
        field.behaviour.as_component_ident(),
        id.as_str(),
        field.field_name.as_str(),
    )
}

fn focus_entry(field: &FieldVariant) -> (r: Option<String>)
    ensures
        opt_view(r) == focusable_cycle_text(*field),
{
    if field.behaviour.focusable() {
        let mut r = "self.fields.".to_owned();
        r.append(widget_name_string(field).as_str());
        r.append(".focus_handle(cx), ");
        assert(r@ =~= focusable_cycle_text(*field)->Some_0);
        Some(r)
    } else {
        None
    }
}

/// The prototyping code of the fields of one behaviour.
pub trait FieldCodeGenerator {
    /// The behaviours whose fields this generator is asked about.
    spec fn handles(&self, b: ComponentsBehaviour) -> bool;

    fn generate_cx_new_call(&self, field: &FieldVariant, component: &ShapeIdentities) -> (r: Option<String>)
        requires
            self.handles(field.behaviour),
        ensures
            opt_view(r) == cx_new_call_text(*field, component.shape.struct_name@),
    ;

    fn generate_field_initializers(
        &self,
        field: &FieldVariant,
        component: &ShapeIdentities,
    ) -> (r: Option<String>)
        requires
            self.handles(field.behaviour),
        ensures
            opt_view(r) == field_initializer_text(*field),
    ;

    fn generate_render_child(&self, field: &FieldVariant, component: &ShapeIdentities) -> (r: String)
        requires
            self.handles(field.behaviour),
        ensures
            r@ == render_child_text(*field, component.shape.struct_name@),
    ;

    fn generate_focusable_cycle(
        &self,
        field: &FieldVariant,
        component: &ShapeIdentities,
    ) -> (r: Option<String>)
        requires
            self.handles(field.behaviour),
        ensures
            opt_view(r) == focusable_cycle_text(*field),
    ;

    fn generate_subscription(
        &self,
        field: &FieldVariant,
        component: &ShapeIdentities,
    ) -> (r: Option<GeneratedSubscription>)
        requires
            self.handles(field.behaviour),
        ensures
            subscription_view(r) == subscription_text(*field, component.date_library),
    ;
}

pub struct InputCodeGenerator;

pub struct NumberInputCodeGenerator;

pub struct CheckboxCodeGenerator;

pub struct SwitchCodeGenerator;

pub struct DropdownCodeGenerator;

pub struct DatePickerCodeGenerator;

fn one_subscription(call: String, handler: String) -> (r: Option<GeneratedSubscription>)
    ensures
        subscription_view(r) == Some((seq![call@], seq![handler@])),
{
    let mut calls: Vec<String> = Vec::new();
    calls.push(call);
    let mut handlers: Vec<String> = Vec::new();
    handlers.push(handler);
    assert(strings_view(calls@) =~= seq![call@]);
    assert(strings_view(handlers@) =~= seq![handler@]);
    Some(GeneratedSubscription { calls, handlers })
}

impl FieldCodeGenerator for InputCodeGenerator {
    open spec fn handles(&self, b: ComponentsBehaviour) -> bool {
        b is Input
    }

    fn generate_cx_new_call(&self, field: &FieldVariant, component: &ShapeIdentities) -> (r: Option<String>) {
        state_cx_new_call(field, component)
    }

    fn generate_field_initializers(
        &self,
        field: &FieldVariant,
        component: &ShapeIdentities,
    ) -> (r: Option<String>) {
        state_field_initializer(field)
    }

    fn generate_render_child(&self, field: &FieldVariant, component: &ShapeIdentities) -> (r: String) {
        state_render_child(field, component)
    }

    fn generate_focusable_cycle(
        &self,
        field: &FieldVariant,
        component: &ShapeIdentities,
    ) -> (r: Option<String>) {
        focus_entry(field)
    }

    fn generate_subscription(
        &self,
        field: &FieldVariant,
        component: &ShapeIdentities,
    ) -> (r: Option<GeneratedSubscription>) {
        let w = widget_name_string(field);
        let f = field.field_name.as_str();
        let h = make_handler_name(f, "input");
        one_subscription(subscribe(w.as_str(), h.as_str()), input_handler(h.as_str(), f))
    }
}

impl FieldCodeGenerator for NumberInputCodeGenerator {
    open spec fn handles(&self, b: ComponentsBehaviour) -> bool {
        b is NumberInput
    }

    fn generate_cx_new_call(&self, field: &FieldVariant, component: &ShapeIdentities) -> (r: Option<String>) {
        state_cx_new_call(field, component)
    }

    fn generate_field_initializers(
        &self,
        field: &FieldVariant,
        component: &ShapeIdentities,
    ) -> (r: Option<String>) {
        state_field_initializer(field)
    }

    fn generate_render_child(&self, field: &FieldVariant, component: &ShapeIdentities) -> (r: String) {
        state_render_child(field, component)
    }

    fn generate_focusable_cycle(
        &self,
        field: &FieldVariant,
        component: &ShapeIdentities,
    ) -> (r: Option<String>) {
        focus_entry(field)
    }

    fn generate_subscription(
        &self,
        field: &FieldVariant,
        component: &ShapeIdentities,
    ) -> (r: Option<GeneratedSubscription>) {
        let w = widget_name_string(field);
        let f = field.field_name.as_str();
        let t = field.field_type.as_str();
        let text_handler = make_handler_name(f, "input");
        let step_handler = make_handler_name(f, "number_input");
        let mut calls: Vec<String> = Vec::new();
        calls.push(subscribe(w.as_str(), text_handler.as_str()));
        calls.push(subscribe(w.as_str(), step_handler.as_str()));
        let mut handlers: Vec<String> = Vec::new();
        handlers.push(number_text_handler(text_handler.as_str(), f, t));
        handlers.push(number_step_handler(step_handler.as_str(), f, t));
        let r = Some(GeneratedSubscription { calls, handlers });
        assert(subscription_view(r)->Some_0.0 =~= subscription_text(*field, component.date_library)->Some_0.0);
        assert(subscription_view(r)->Some_0.1 =~= subscription_text(*field, component.date_library)->Some_0.1);
        r
    }
}

impl FieldCodeGenerator for CheckboxCodeGenerator {
    open spec fn handles(&self, b: ComponentsBehaviour) -> bool {
        b is Checkbox
    }

    fn generate_cx_new_call(&self, field: &FieldVariant, component: &ShapeIdentities) -> (r: Option<String>) {
        None
    }

    fn generate_field_initializers(
        &self,
        field: &FieldVariant,
        component: &ShapeIdentities,
    ) -> (r: Option<String>) {
        None
    }

    fn generate_render_child(&self, field: &FieldVariant, component: &ShapeIdentities) -> (r: String) {
        toggle_render_child(field, component)
    }

    fn generate_focusable_cycle(
        &self,
        field: &FieldVariant,
        component: &ShapeIdentities,
    ) -> (r: Option<String>) {
        None
    }

    fn generate_subscription(
        &self,
        field: &FieldVariant,
        component: &ShapeIdentities,
    ) -> (r: Option<GeneratedSubscription>) {
        None
    }
}

impl FieldCodeGenerator for SwitchCodeGenerator {
    open spec fn handles(&self, b: ComponentsBehaviour) -> bool {
        b is Switch
    }

    fn generate_cx_new_call(&self, field: &FieldVariant, component: &ShapeIdentities) -> (r: Option<String>) {
        None
    }

    fn generate_field_initializers(
        &self,
        field: &FieldVariant,
        component: &ShapeIdentities,
    ) -> (r: Option<String>) {
        None
    }

    fn generate_render_child(&self, field: &FieldVariant, component: &ShapeIdentities) -> (r: String) {
        toggle_render_child(field, component)
    }

    fn generate_focusable_cycle(
        &self,
        field: &FieldVariant,
        component: &ShapeIdentities,
    ) -> (r: Option<String>) {
        None
    }

    fn generate_subscription(
        &self,
        field: &FieldVariant,
        component: &ShapeIdentities,
    ) -> (r: Option<GeneratedSubscription>) {
        None
    }
}

impl FieldCodeGenerator for DropdownCodeGenerator {
    open spec fn handles(&self, b: ComponentsBehaviour) -> bool {
        b is Dropdown
    }

    fn generate_cx_new_call(&self, field: &FieldVariant, component: &ShapeIdentities) -> (r: Option<String>) {
        state_cx_new_call(field, component)
    }

    fn generate_field_initializers(
        &self,
        field: &FieldVariant,
        component: &ShapeIdentities,
    ) -> (r: Option<String>) {
        state_field_initializer(field)
    }

    fn generate_render_child(&self, field: &FieldVariant, component: &ShapeIdentities) -> (r: String) {
        state_render_child(field, component)
    }

    fn generate_focusable_cycle(
        &self,
        field: &FieldVariant,
        component: &ShapeIdentities,
    ) -> (r: Option<String>) {
        focus_entry(field)
    }

    fn generate_subscription(
        &self,
        field: &FieldVariant,
        component: &ShapeIdentities,
    ) -> (r: Option<GeneratedSubscription>) {
        let searchable = match field.behaviour {
            ComponentsBehaviour::Dropdown(options) => options.searchable,
            _ => false,
        };
        let collection = if searchable {
            "SearchableVec"
        } else {
            "Vec"
        };
        let w = widget_name_string(field);
        let f = field.field_name.as_str();
        let h = make_handler_name(f, "dropdown");
        let handler = dropdown_handler(h.as_str(), f, collection, field.struct_name());
        one_subscription(subscribe(w.as_str(), h.as_str()), handler)
    }
}

impl FieldCodeGenerator for DatePickerCodeGenerator {
    open spec fn handles(&self, b: ComponentsBehaviour) -> bool {
        b is DatePicker
    }

    fn generate_cx_new_call(&self, field: &FieldVariant, component: &ShapeIdentities) -> (r: Option<String>) {
        state_cx_new_call(field, component)
    }

    fn generate_field_initializers(
        &self,
        field: &FieldVariant,
        component: &ShapeIdentities,
    ) -> (r: Option<String>) {
        state_field_initializer(field)
    }

    fn generate_render_child(&self, field: &FieldVariant, component: &ShapeIdentities) -> (r: String) {
        state_render_child(field, component)
    }

    fn generate_focusable_cycle(
        &self,
        field: &FieldVariant,
        component: &ShapeIdentities,
    ) -> (r: Option<String>) {
        focus_entry(field)
    }

    fn generate_subscription(
        &self,
        field: &FieldVariant,
        component: &ShapeIdentities,
    ) -> (r: Option<GeneratedSubscription>) {
        let w = widget_name_string(field);
        let f = field.field_name.as_str();
        let h = make_handler_name(f, "date_picker");
        let assign = date_assign(component.date_library, f, field.optional);
        one_subscription(subscribe(w.as_str(), h.as_str()), date_handler(h.as_str(), assign.as_str()))
    }
}

} // verus!
