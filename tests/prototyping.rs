use gpui_form::code_gen::{ComponentIdentities, FormShapeAdapter, ShapeIdentities};
use gpui_form::components::{BehaviourDropdownOptions, ComponentsBehaviour};
use gpui_form::field_gen::{
    step_arithmetic, CheckboxCodeGenerator, DateLibrary, DatePickerCodeGenerator,
    DropdownCodeGenerator, FieldCodeGenerator, InputCodeGenerator, NumberInputCodeGenerator,
    StepArithmetic, SwitchCodeGenerator,
};
use gpui_form::form_layout::layout;
use gpui_form::registry::{FieldVariant, GpuiFormShape, ShapeRegistry};

fn user_shape() -> GpuiFormShape {
    GpuiFormShape::new(
        "User",
        vec![
            FieldVariant::new("username", "String", true, ComponentsBehaviour::Input),
            FieldVariant::new("age", "u32", true, ComponentsBehaviour::NumberInput),
            FieldVariant::new("subscribe_newsletter", "bool", false, ComponentsBehaviour::Checkbox),
            FieldVariant::new(
                "country",
                "EnumCountry",
                true,
                ComponentsBehaviour::Dropdown(BehaviourDropdownOptions { partial: false, searchable: true }),
            ),
            FieldVariant::new("birth_date", "chrono :: NaiveDate", true, ComponentsBehaviour::DatePicker),
        ],
    )
}

#[test]
fn identities_follow_the_struct_name() {
    let shape = GpuiFormShape::new("UserProfile", vec![]);
    let ids = ShapeIdentities::new(&shape);
    assert_eq!(ids.struct_name(), "UserProfile");
    assert_eq!(ids.struct_name_ident(), "UserProfile");
    assert_eq!(ids.struct_form_ident(), "UserProfileForm");
    assert_eq!(ids.struct_form_components_ident(), "UserProfileFormComponents");
    assert_eq!(ids.struct_form_fields_ident(), "UserProfileFormFields");
    assert_eq!(ids.form_id_literal(), "user_profile-form");
    assert_eq!(ids.ftl_label_ident(), "UserProfileLabelFtl");
    assert_eq!(ids.ftl_description_ident(), "UserProfileDescriptionFtl");
}

#[test]
fn input_generator_pieces() {
    let shape = user_shape();
    let ids = ShapeIdentities::new(&shape);
    let field = &shape.components[0];
    let g = InputCodeGenerator;
    assert_eq!(
        g.generate_cx_new_call(field, &ids).unwrap(),
        "let username_input = cx.new(|cx| UserFormComponents::username_input(window, cx));"
    );
    assert_eq!(g.generate_field_initializers(field, &ids).unwrap(), "username_input, ");
    assert_eq!(
        g.generate_render_child(field, &ids),
        ".child(form_field().label(UserLabelFtl::Username.to_string()).description(UserDescriptionFtl::Username.to_string()).child(TextInput::new(&self.fields.username_input)))"
    );
    assert_eq!(
        g.generate_focusable_cycle(field, &ids).unwrap(),
        "self.fields.username_input.focus_handle(cx), "
    );
    let sub = g.generate_subscription(field, &ids).unwrap();
    assert_eq!(sub.calls, vec!["cx.subscribe_in(&username_input, window, Self::on_username_input_event)"]);
    assert_eq!(sub.handlers.len(), 1);
    assert!(sub.handlers[0].starts_with("fn on_username_input_event(&mut self, state: &Entity<InputState>"));
    assert!(!sub.is_empty());
}

#[test]
fn checkbox_toggles_in_place() {
    let shape = user_shape();
    let ids = ShapeIdentities::new(&shape);
    let field = &shape.components[2];
    let g = CheckboxCodeGenerator;
    assert!(g.generate_cx_new_call(field, &ids).is_none());
    assert!(g.generate_field_initializers(field, &ids).is_none());
    assert!(g.generate_focusable_cycle(field, &ids).is_none());
    assert!(g.generate_subscription(field, &ids).is_none());
    assert_eq!(
        g.generate_render_child(field, &ids),
        ".child(form_field().label(UserLabelFtl::SubscribeNewsletter.to_string()).description(UserDescriptionFtl::SubscribeNewsletter.to_string()).child(Checkbox::new(\"subscribe-newsletter-checkbox\").checked(self.current_data.subscribe_newsletter).on_click(cx.listener(|v, _, _, _| { v.current_data.subscribe_newsletter = !v.current_data.subscribe_newsletter; }))))"
    );
}

#[test]
fn switch_toggles_in_place() {
    let field = FieldVariant::new("dark_mode", "bool", false, ComponentsBehaviour::Switch);
    let shape = GpuiFormShape::new("Prefs", vec![]);
    let ids = ShapeIdentities::new(&shape);
    let child = SwitchCodeGenerator.generate_render_child(&field, &ids);
    assert!(child.contains("Switch::new(\"dark-mode-switch\").checked(self.current_data.dark_mode)"));
    assert!(SwitchCodeGenerator.generate_cx_new_call(&field, &ids).is_none());
}

#[test]
fn unsigned_decrement_saturates() {
    let shape = user_shape();
    let ids = ShapeIdentities::new(&shape);
    let sub = NumberInputCodeGenerator.generate_subscription(&shape.components[1], &ids).unwrap();
    assert_eq!(sub.calls.len(), 2);
    assert_eq!(sub.calls[1], "cx.subscribe_in(&age_number_input, window, Self::on_age_number_input_event)");
    let step = &sub.handlers[1];
    assert!(step.contains(
        "StepAction::Decrement => { let new_value = self.current_data.age.saturating_sub(1 as u32); self.current_data.age = new_value;"
    ));
    assert!(step.contains("self.current_data.age.saturating_add(1 as u32)"));
    assert!(sub.handlers[0].contains("if let Ok(value) = text.parse::<u32>()"));
}

#[test]
fn step_arithmetic_by_type() {
    assert_eq!(step_arithmetic("f64"), StepArithmetic::Float);
    assert_eq!(step_arithmetic("u8"), StepArithmetic::Integer);
    assert_eq!(step_arithmetic("i128"), StepArithmetic::Integer);
    assert_eq!(step_arithmetic("Decimal"), StepArithmetic::External);
    assert_eq!(step_arithmetic(""), StepArithmetic::External);
    assert_eq!(step_arithmetic("f64"), StepArithmetic::Float);
    assert_eq!(step_arithmetic("usize"), StepArithmetic::Integer);
    assert_eq!(step_arithmetic("fixed::types::I16F16"), StepArithmetic::External);
    assert_eq!(step_arithmetic("u256"), StepArithmetic::External);
    assert_eq!(step_arithmetic("i32x"), StepArithmetic::External);
    let shape = GpuiFormShape::new("M", vec![]);
    let ids = ShapeIdentities::new(&shape);
    let float = FieldVariant::new("x", "f32", false, ComponentsBehaviour::NumberInput);
    let sub = NumberInputCodeGenerator.generate_subscription(&float, &ids).unwrap();
    assert!(sub.handlers[1].contains("let new_value = self.current_data.x - 1 as f32;"));
    let dec = FieldVariant::new("balance", "Decimal", false, ComponentsBehaviour::NumberInput);
    let sub = NumberInputCodeGenerator.generate_subscription(&dec, &ids).unwrap();
    assert!(sub.handlers[1].contains("self.current_data.balance.saturating_add(Decimal::from(1))"));
}

#[test]
fn date_parse_failure_policy() {
    let shape = GpuiFormShape::new("Event", vec![]);
    let ids = ShapeIdentities::new(&shape);
    let required = FieldVariant::new("day", "chrono :: NaiveDate", false, ComponentsBehaviour::DatePicker);
    let optional = FieldVariant::new("end", "chrono :: NaiveDate", true, ComponentsBehaviour::DatePicker);
    let r = DatePickerCodeGenerator.generate_subscription(&required, &ids).unwrap();
    assert!(r.handlers[0].contains(
        "self.current_data.day = chrono::NaiveDate::parse_from_str(&date.to_owned().to_string(), \"%Y-%m-%d\").unwrap_or_default();"
    ));
    let o = DatePickerCodeGenerator.generate_subscription(&optional, &ids).unwrap();
    assert!(o.handlers[0].contains(
        "self.current_data.end = chrono::NaiveDate::parse_from_str(&date.to_owned().to_string(), \"%Y-%m-%d\").ok();"
    ));
    let jiff = ShapeIdentities::with_date_library(&shape, DateLibrary::Jiff);
    let j = DatePickerCodeGenerator.generate_subscription(&required, &jiff).unwrap();
    assert!(j.handlers[0].contains("jiff::civil::DateTime::from_str(&date.to_owned().to_string()).unwrap_or_default();"));
    assert!(DatePickerCodeGenerator.generate_focusable_cycle(&required, &ids).is_none());
}

#[test]
fn dropdown_commits_on_confirm_with_its_collection() {
    let shape = user_shape();
    let ids = ShapeIdentities::new(&shape);
    let sub = DropdownCodeGenerator.generate_subscription(&shape.components[3], &ids).unwrap();
    assert!(sub.handlers[0].contains("_this: &Entity<DropdownState<SearchableVec<EnumCountry>>>"));
    assert!(sub.handlers[0].contains("DropdownEvent::Confirm(value) =>"));
    let plain = FieldVariant::new(
        "mode",
        "Mode",
        false,
        ComponentsBehaviour::Dropdown(BehaviourDropdownOptions { partial: true, searchable: false }),
    );
    let sub = DropdownCodeGenerator.generate_subscription(&plain, &ids).unwrap();
    assert!(sub.handlers[0].contains("event: &DropdownEvent<Vec<Mode>>"));
    assert!(DropdownCodeGenerator.generate_cx_new_call(&plain, &ids).is_none());
    assert!(DropdownCodeGenerator.generate_field_initializers(&plain, &ids).is_none());
    let built = FieldVariant::new(
        "mode",
        "Mode",
        false,
        ComponentsBehaviour::Dropdown(BehaviourDropdownOptions { partial: false, searchable: false }),
    );
    assert_eq!(DropdownCodeGenerator.generate_field_initializers(&built, &ids).unwrap(), "mode_dropdown, ");
}

#[test]
fn adapter_collects_in_field_order() {
    let shape = user_shape();
    let adapter = FormShapeAdapter::new(&shape);
    assert_eq!(
        adapter.field_initializers().unwrap(),
        "username_input, age_number_input, country_dropdown, birth_date_date_picker, "
    );
    assert_eq!(
        adapter.focusable_cycle().unwrap(),
        "self.fields.username_input.focus_handle(cx), self.fields.age_number_input.focus_handle(cx), self.fields.country_dropdown.focus_handle(cx), "
    );
    assert!(adapter.cx_new_calls().unwrap().starts_with("let username_input = cx.new("));
    assert_eq!(
        adapter.subscription_calls().unwrap(),
        "let _subscriptions = vec![cx.subscribe_in(&username_input, window, Self::on_username_input_event), cx.subscribe_in(&age_number_input, window, Self::on_age_input_event), cx.subscribe_in(&age_number_input, window, Self::on_age_number_input_event), cx.subscribe_in(&country_dropdown, window, Self::on_country_dropdown_event), cx.subscribe_in(&birth_date_date_picker, window, Self::on_birth_date_date_picker_event)];"
    );
    assert_eq!(adapter.event_handlers().unwrap().matches("fn on_").count(), 5);
    assert_eq!(adapter.child_elements().matches(".child(form_field()").count(), 5);
}

#[test]
fn adapter_on_toggles_only() {
    let shape = GpuiFormShape::new(
        "Flags",
        vec![FieldVariant::new("on", "bool", false, ComponentsBehaviour::Checkbox)],
    );
    let adapter = FormShapeAdapter::new(&shape);
    assert!(adapter.cx_new_calls().is_none());
    assert!(adapter.field_initializers().is_none());
    assert!(adapter.focusable_cycle().is_none());
    assert!(adapter.subscription_calls().is_none());
    assert!(adapter.event_handlers().is_none());
    assert!(!adapter.child_elements().is_empty());
}

#[test]
fn layout_with_and_without_tab_cycling() {
    let shape = user_shape();
    let with = layout(&shape, "some_lib::structs", true, DateLibrary::Chrono);
    assert!(with.starts_with("use some_lib::structs::user::*; "));
    assert!(with.contains("actions!(user_story, [Tab, TabPrev]); const CONTEXT: &str = \"UserForm\";"));
    assert!(with.contains("impl FocusableCycle for UserForm"));
    assert!(with.contains("_subscriptions: Vec<Subscription>, "));
    assert!(with.contains(".id(\"user-form\")"));
    let without = layout(&shape, "some_lib::structs", false, DateLibrary::Chrono);
    assert!(!without.contains("actions!("));
    assert!(!without.contains("FocusableCycle for"));
    assert!(!without.contains("cycle_focus"));
    assert!(without.contains("fields: UserFormFields { username_input, "));
}

#[test]
fn layout_without_subscriptions() {
    let shape = GpuiFormShape::new(
        "Flags",
        vec![FieldVariant::new("on", "bool", false, ComponentsBehaviour::Switch)],
    );
    let text = layout(&shape, "crate::model", true, DateLibrary::Jiff);
    assert!(!text.contains("_subscriptions"));
    assert!(text.contains("fields: FlagsFormFields {  }"));
}

#[test]
fn registry_appends_and_finds() {
    let mut registry = ShapeRegistry::new();
    assert_eq!(registry.len(), 0);
    registry.register(user_shape());
    registry.register(GpuiFormShape::new("Address", vec![]));
    assert_eq!(registry.len(), 2);
    assert_eq!(registry.get(1).struct_name, "Address");
    assert_eq!(registry.find("User").unwrap().components.len(), 5);
    assert!(registry.find("Missing").is_none());
    let field = FieldVariant::new("age", "u32", true, ComponentsBehaviour::NumberInput);
    assert_eq!(field.full_type(), "Option<u32>");
    let field = FieldVariant::new("age", "u32", false, ComponentsBehaviour::NumberInput);
    assert_eq!(field.full_type(), "u32");
}

#[test]
fn partial_dropdown_is_neither_constructed_nor_initialized() {
    let shape = GpuiFormShape::new(
        "Remote",
        vec![FieldVariant::new(
            "city",
            "City",
            false,
            ComponentsBehaviour::Dropdown(BehaviourDropdownOptions { partial: true, searchable: true }),
        )],
    );
    let adapter = FormShapeAdapter::new(&shape);
    assert!(adapter.cx_new_calls().is_none());
    assert!(adapter.field_initializers().is_none());
    assert!(adapter.child_elements().contains("&self.fields.city_dropdown"));
}

#[test]
fn external_numeric_type_steps_with_from_one() {
    let shape = GpuiFormShape::new("M", vec![]);
    let ids = ShapeIdentities::new(&shape);
    let fixed = FieldVariant::new("ratio", "fixed::types::I16F16", false, ComponentsBehaviour::NumberInput);
    let sub = NumberInputCodeGenerator.generate_subscription(&fixed, &ids).unwrap();
    assert!(sub.handlers[1].contains(
        "self.current_data.ratio.saturating_sub(fixed::types::I16F16::from(1))"
    ));
    assert!(sub.handlers[1].contains(
        "self.current_data.ratio.saturating_add(fixed::types::I16F16::from(1))"
    ));
}
