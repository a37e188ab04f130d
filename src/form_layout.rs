//! The layout driver: one complete form module, as source text, for one
//! registered shape.
use vstd::prelude::*;

use crate::case::{snake_case_of, to_snake_case};
use crate::code_gen::{
    all_calls, all_handlers, join_with, joined, ComponentIdentities, FormShapeAdapter,
};
use crate::field_gen::{
    cx_new_call_text, field_initializer_text, focusable_cycle_text, render_child_text, DateLibrary,
};
use crate::registry::{FieldVariant, GpuiFormShape};

verus! {

/// The imports of a generated form module.
pub open spec fn form_imports_text(module: Seq<char>, snake: Seq<char>) -> Seq<char> {
    "use "@
        + module
        + "::"@
        + snake
        + "::*; "@
        + "use gpui::{App, AppContext, Context, Entity, FocusHandle, Focusable, InteractiveElement, IntoElement, KeyBinding, ParentElement as _, Render, Styled, Subscription, Window, actions}; "@
        + "use gpui_component::{AxisExt, FocusableCycle, Selectable, Sizable, Size, button::{Button, ButtonGroup}, checkbox::Checkbox, date_picker::{DatePicker, DatePickerEvent, DatePickerState}, divider::Divider, dropdown::{Dropdown, DropdownEvent, DropdownItem, DropdownState, SearchableVec}, form::{form_field, v_form}, h_flex, input::{InputEvent, InputState, NumberInput, NumberInputEvent, StepAction, TextInput}, switch::Switch, v_flex}; "@
        + "use rust_decimal::Decimal; "@
        + "use std::sync::{Arc, Mutex}; "@
        + "use std::str::FromStr; "@
        + "use story_container::story::Story; "@
}

fn form_imports(module: &str, snake: &str) -> (r: String)
    ensures
        r@ == form_imports_text(module@, snake@),
{
    let mut r = String::new();
    r.append("use ");
    r.append(module);
    r.append("::");
    r.append(snake);
    r.append("::*; ");
    r.append("use gpui::{App, AppContext, Context, Entity, FocusHandle, Focusable, InteractiveElement, IntoElement, KeyBinding, ParentElement as _, Render, Styled, Subscription, Window, actions}; ");
    r.append("use gpui_component::{AxisExt, FocusableCycle, Selectable, Sizable, Size, button::{Button, ButtonGroup}, checkbox::Checkbox, date_picker::{DatePicker, DatePickerEvent, DatePickerState}, divider::Divider, dropdown::{Dropdown, DropdownEvent, DropdownItem, DropdownState, SearchableVec}, form::{form_field, v_form}, h_flex, input::{InputEvent, InputState, NumberInput, NumberInputEvent, StepAction, TextInput}, switch::Switch, v_flex}; ");
    r.append("use rust_decimal::Decimal; ");
    r.append("use std::sync::{Arc, Mutex}; ");
    r.append("use std::str::FromStr; ");
    r.append("use story_container::story::Story; ");
    assert(r@ =~= form_imports_text(module@, snake@));
    r
}

/// The tab and shift-tab bindings, scoped to this form.
pub open spec fn form_keys_text(name: Seq<char>, snake: Seq<char>, tab: bool) -> Seq<char> {
    (if tab {
            "actions!("@
                + snake
                + "_story, [Tab, TabPrev]); const CONTEXT: &str = \""@
                + name
                + "Form\"; pub fn init(cx: &mut App) { cx.bind_keys([KeyBinding::new(\"shift-tab\", TabPrev, Some(CONTEXT)), KeyBinding::new(\"tab\", Tab, Some(CONTEXT))]) } "@
        } else {
            Seq::<char>::empty()
        })
}

fn form_keys(name: &str, snake: &str, tab: bool) -> (r: String)
    ensures
        r@ == form_keys_text(name@, snake@, tab),
{
    let mut r = String::new();
    if tab {
        r.append("actions!(");
        r.append(snake);
        r.append("_story, [Tab, TabPrev]); const CONTEXT: &str = \"");
        r.append(name);
        r.append("Form\"; pub fn init(cx: &mut App) { cx.bind_keys([KeyBinding::new(\"shift-tab\", TabPrev, Some(CONTEXT)), KeyBinding::new(\"tab\", Tab, Some(CONTEXT))]) } ");
    }
    assert(r@ =~= form_keys_text(name@, snake@, tab));
    r
}

/// The controller struct.
pub open spec fn form_struct_text(name: Seq<char>, subs: bool) -> Seq<char> {
    "pub struct "@
        + name
        + "Form { original_data: Arc<"@
        + name
        + ">, current_data: "@
        + name
        + "FormValueHolder, fields: "@
        + name
        + "FormFields, focus_handle: FocusHandle, "@
        + (if subs {
            "_subscriptions: Vec<Subscription>, "@
        } else {
            Seq::<char>::empty()
        })
        + "} "@
}

fn form_struct(name: &str, subs: bool) -> (r: String)
    ensures
        r@ == form_struct_text(name@, subs),
{
    let mut r = String::new();
    r.append("pub struct ");
    r.append(name);
    r.append("Form { original_data: Arc<");
    r.append(name);
    r.append(">, current_data: ");
    r.append(name);
    r.append("FormValueHolder, fields: ");
    r.append(name);
    r.append("FormFields, focus_handle: FocusHandle, ");
    if subs {
        r.append("_subscriptions: Vec<Subscription>, ");
    }
    r.append("} ");
    assert(r@ =~= form_struct_text(name@, subs));
    r
}

/// The focus, focus-cycle and story impls of the controller.
pub open spec fn form_traits_text(name: Seq<char>, focus: Seq<char>, tab: bool) -> Seq<char> {
    "impl Focusable for "@
        + name
        + "Form { fn focus_handle(&self, _cx: &App) -> FocusHandle { self.focus_handle.clone() } } "@
        + (if tab {
            "impl FocusableCycle for "@
                + name
                + "Form { fn cycle_focus_handles(&self, _: &mut Window, cx: &mut App) -> Vec<FocusHandle> { ["@
                + focus
                + "].to_vec() } } "@
        } else {
            Seq::<char>::empty()
        })
        + "impl Story for "@
        + name
        + "Form { fn title() -> &'static str { \""@
        + name
        + "\" } fn new_view(window: &mut Window, cx: &mut App) -> Entity<impl Render + Focusable> { Self::view(window, cx, "@
        + name
        + "::default()) } } "@
}

fn form_traits(name: &str, focus: &str, tab: bool) -> (r: String)
    ensures
        r@ == form_traits_text(name@, focus@, tab),
{
    let mut r = String::new();
    r.append("impl Focusable for ");
    r.append(name);
    r.append("Form { fn focus_handle(&self, _cx: &App) -> FocusHandle { self.focus_handle.clone() } } ");
    if tab {
        r.append("impl FocusableCycle for ");
        r.append(name);
        r.append("Form { fn cycle_focus_handles(&self, _: &mut Window, cx: &mut App) -> Vec<FocusHandle> { [");
        r.append(focus);
        r.append("].to_vec() } } ");
    }
    r.append("impl Story for ");
    r.append(name);
    r.append("Form { fn title() -> &'static str { \"");
    r.append(name);
    r.append("\" } fn new_view(window: &mut Window, cx: &mut App) -> Entity<impl Render + Focusable> { Self::view(window, cx, ");
    r.append(name);
    r.append("::default()) } } ");
    assert(r@ =~= form_traits_text(name@, focus@, tab));
    r
}

/// The controller's constructor, focus moves and event handlers.
pub open spec fn form_methods_text(name: Seq<char>, handlers: Seq<char>, creations: Seq<char>, calls: Seq<char>, initializers: Seq<char>, tab: bool, subs: bool) -> Seq<char> {
    "impl "@
        + name
        + "Form { pub fn view(window: &mut Window, cx: &mut App, original_data: "@
        + name
        + ") -> Entity<Self> { cx.new(|cx| Self::new(window, cx, original_data)) } "@
        + (if tab {
            "fn tab(&mut self, _: &Tab, window: &mut Window, cx: &mut Context<Self>) { self.cycle_focus(true, window, cx); } fn tab_prev(&mut self, _: &TabPrev, window: &mut Window, cx: &mut Context<Self>) { self.cycle_focus(false, window, cx); } "@
        } else {
            Seq::<char>::empty()
        })
        + handlers
        + " fn new(window: &mut Window, cx: &mut Context<Self>, original_data: "@
        + name
        + ") -> Self { "@
        + creations
        + " "@
        + calls
        + " Self { original_data: Arc::new(original_data.clone()), current_data: original_data.into(), fields: "@
        + name
        + "FormFields { "@
        + initializers
        + " }, focus_handle: cx.focus_handle(), "@
        + (if subs {
            "_subscriptions, "@
        } else {
            Seq::<char>::empty()
        })
        + "} } } "@
}

fn form_methods(name: &str, handlers: &str, creations: &str, calls: &str, initializers: &str, tab: bool, subs: bool) -> (r: String)
    ensures
        r@ == form_methods_text(name@, handlers@, creations@, calls@, initializers@, tab, subs),
{
    let mut r = String::new();
    r.append("impl ");
    r.append(name);
    r.append("Form { pub fn view(window: &mut Window, cx: &mut App, original_data: ");
    r.append(name);
    r.append(") -> Entity<Self> { cx.new(|cx| Self::new(window, cx, original_data)) } ");
    if tab {
        r.append("fn tab(&mut self, _: &Tab, window: &mut Window, cx: &mut Context<Self>) { self.cycle_focus(true, window, cx); } fn tab_prev(&mut self, _: &TabPrev, window: &mut Window, cx: &mut Context<Self>) { self.cycle_focus(false, window, cx); } ");
    }
    r.append(handlers);
    r.append(" fn new(window: &mut Window, cx: &mut Context<Self>, original_data: ");
    r.append(name);
    r.append(") -> Self { ");
    r.append(creations);
    r.append(" ");
    r.append(calls);
    r.append(" Self { original_data: Arc::new(original_data.clone()), current_data: original_data.into(), fields: ");
    r.append(name);
    r.append("FormFields { ");
    r.append(initializers);
    r.append(" }, focus_handle: cx.focus_handle(), ");
    if subs {
        r.append("_subscriptions, ");
    }
    r.append("} } } ");
    assert(r@ =~= form_methods_text(name@, handlers@, creations@, calls@, initializers@, tab, subs));
    r
}

/// The render method: the fields stacked between two dividers, then the live values.
pub open spec fn form_render_text(name: Seq<char>, form_id: Seq<char>, children: Seq<char>, tab: bool) -> Seq<char> {
    "impl Render for "@
        + name
        + "Form { fn render(&mut self, _: &mut Window, cx: &mut Context<Self>) -> impl IntoElement { v_flex()"@
        + (if tab {
            ".key_context(CONTEXT)"@
        } else {
            Seq::<char>::empty()
        })
        + ".id(\""@
        + form_id
        + "\")"@
        + (if tab {
            ".on_action(cx.listener(Self::tab)).on_action(cx.listener(Self::tab_prev))"@
        } else {
            Seq::<char>::empty()
        })
        + ".size_full().p_4().justify_start().gap_3().child(Divider::horizontal()).child(v_form()"@
        + children
        + ").child(Divider::horizontal()).absolute().child(format!(\"{:?}\", self.current_data)) } }"@
}

fn form_render(name: &str, form_id: &str, children: &str, tab: bool) -> (r: String)
    ensures
        r@ == form_render_text(name@, form_id@, children@, tab),
{
    let mut r = String::new();
    r.append("impl Render for ");
    r.append(name);
    r.append("Form { fn render(&mut self, _: &mut Window, cx: &mut Context<Self>) -> impl IntoElement { v_flex()");
    if tab {
        r.append(".key_context(CONTEXT)");
    }
    r.append(".id(\"");
    r.append(form_id);
    r.append("\")");
    if tab {
        r.append(".on_action(cx.listener(Self::tab)).on_action(cx.listener(Self::tab_prev))");
    }
    r.append(".size_full().p_4().justify_start().gap_3().child(Divider::horizontal()).child(v_form()");
    r.append(children);
    r.append(").child(Divider::horizontal()).absolute().child(format!(\"{:?}\", self.current_data)) } }");
    assert(r@ =~= form_render_text(name@, form_id@, children@, tab));
    r
}

/// The text inside an optional piece, or nothing.
pub open spec fn or_empty(o: Option<Seq<char>>) -> Seq<char> {
    match o {
        Some(t) => t,
        None => Seq::empty(),
    }
}

fn string_or_empty(o: Option<String>) -> (r: String)
    ensures
        r@ == or_empty(crate::field_gen::opt_view(o)),
{
    match o {
        Some(t) => t,
        None => String::new(),
    }
}

/// The whole generated module of the form of `shape`, whose struct lives in
/// `module::{struct in snake case}`.
pub open spec fn form_file_text(
    shape: GpuiFormShape,
    module: Seq<char>,
    tab: bool,
    lib: DateLibrary,
) -> Seq<char> {
    let name = shape.struct_name@;
    let fields = shape.components@;
    let snake = snake_case_of(name);
    let calls = all_calls(fields, lib);
    let handlers = all_handlers(fields, lib);
    let subs = calls.len() > 0;
    let calls_text = if subs {
        "let _subscriptions = vec!["@ + join_with(calls, ", "@) + "];"@
    } else {
        Seq::empty()
    };
    let handlers_text = if handlers.len() > 0 {
        join_with(handlers, " "@)
    } else {
        Seq::empty()
    };
    form_imports_text(module, snake) + form_keys_text(name, snake, tab) + form_struct_text(name, subs)
        + form_traits_text(name, joined(fields, |f: FieldVariant| focusable_cycle_text(f)), tab)
        + form_methods_text(
        name,
        handlers_text,
        joined(fields, |f: FieldVariant| cx_new_call_text(f, name)),
        calls_text,
        joined(fields, |f: FieldVariant| field_initializer_text(f)),
        tab,
        subs,
    ) + form_render_text(
        name,
        snake + "-form"@,
        joined(fields, |f: FieldVariant| Some(render_child_text(f, name))),
        tab,
    )
}

/// Lays out the form module of one registered shape. With `tab_cycling`, the
/// form binds tab and shift-tab to move the focus through its focusable
/// fields, under a key context of its own.
pub fn layout(
    data: &GpuiFormShape,
    target_module: &str,
    tab_cycling: bool,
    date_library: DateLibrary,
) -> (r: String)
    ensures
        r@ == form_file_text(*data, target_module@, tab_cycling, date_library),
{
    let adapter = FormShapeAdapter::with_date_library(data, date_library);
    let name = adapter.identities.struct_name();
    let snake = to_snake_case(name);
    let form_id = adapter.identities.form_id_literal();

    let creations = string_or_empty(adapter.cx_new_calls());
    let initializers = string_or_empty(adapter.field_initializers());
    let children = adapter.child_elements();
    let focus = string_or_empty(adapter.focusable_cycle());
    let calls_opt = adapter.subscription_calls();
    let subs = calls_opt.is_some();
    let calls = string_or_empty(calls_opt);
    let handlers = string_or_empty(adapter.event_handlers());

    let mut r = form_imports(target_module, snake.as_str());
    r.append(form_keys(name, snake.as_str(), tab_cycling).as_str());
    r.append(form_struct(name, subs).as_str());
    r.append(form_traits(name, focus.as_str(), tab_cycling).as_str());
    r.append(
        form_methods(
            name,
            handlers.as_str(),
            creations.as_str(),
            calls.as_str(),
            initializers.as_str(),
            tab_cycling,
            subs,
        ).as_str(),
    );
    r.append(form_render(name, form_id.as_str(), children.as_str(), tab_cycling).as_str());
    proof {
        let fields = data.components@;
        assert(or_empty(crate::code_gen::nonempty(joined(fields, |f: FieldVariant| cx_new_call_text(f, data.struct_name@)))) == joined(fields, |f: FieldVariant| cx_new_call_text(f, data.struct_name@)));
        assert(or_empty(crate::code_gen::nonempty(joined(fields, |f: FieldVariant| field_initializer_text(f)))) == joined(fields, |f: FieldVariant| field_initializer_text(f)));
        assert(or_empty(crate::code_gen::nonempty(joined(fields, |f: FieldVariant| focusable_cycle_text(f)))) == joined(fields, |f: FieldVariant| focusable_cycle_text(f)));
    }
    r
}

} // verus!
