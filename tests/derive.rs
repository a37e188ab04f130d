use gpui_form::components::{
    BehaviourCustomOptions, BehaviourDropdownOptions, Components, ComponentsBehaviour,
    ConfigError, CustomOptions, DropdownOptions,
};
use gpui_form::derive::{
    extract_type_ident, from, generate_component_field, get_components_behaviour_tokens,
    split_optional, ComponentField, ComponentStruct, FieldError, FieldType, GpuiFormOptions,
    TypeShape,
};
use gpui_form::names::{ComponentFieldName, ComponentValueFieldName};

fn path(name: &str) -> FieldType {
    FieldType {
        text: name.to_string(),
        shape: TypeShape::Path { last_ident: name.to_string(), first_type_arg: None },
    }
}

fn qualified(text: &str, last: &str) -> FieldType {
    FieldType {
        text: text.to_string(),
        shape: TypeShape::Path { last_ident: last.to_string(), first_type_arg: None },
    }
}

fn option_of(inner: FieldType) -> FieldType {
    FieldType {
        text: format!("Option < {} >", inner.text),
        shape: TypeShape::Path {
            last_ident: "Option".to_string(),
            first_type_arg: Some(Box::new(inner)),
        },
    }
}

fn field(name: &str, ty: FieldType, component: Option<Components>) -> ComponentField {
    ComponentField { ident: name.to_string(), ty, component, skip: false }
}

fn dropdown(searchable: bool, partial: bool, named: Option<&str>, default: bool) -> Components {
    Components::Dropdown(DropdownOptions::new(
        BehaviourDropdownOptions { partial, searchable },
        named.map(|s| s.to_string()),
        default,
    ))
}

fn derive_one(f: ComponentField) -> Result<gpui_form::derive::DerivedForm, FieldError> {
    from(
        &ComponentStruct { ident: "Profile".to_string(), fields: vec![f] },
        GpuiFormOptions { generate_shape: false },
    )
}

#[test]
fn field_names_join_field_and_component() {
    let name = ComponentFieldName::new("number_input", "age");
    assert_eq!(name.0, "age_number_input");
    assert_eq!(ComponentValueFieldName::from(&name).0, "age_number_input_value");
}

#[test]
fn type_ident_unwraps_options() {
    assert_eq!(extract_type_ident(&path("u32")).unwrap(), "u32");
    assert_eq!(extract_type_ident(&option_of(path("String"))).unwrap(), "String");
    assert_eq!(
        extract_type_ident(&option_of(option_of(qualified("chrono :: NaiveDate", "NaiveDate"))))
            .unwrap(),
        "NaiveDate"
    );
    let other = FieldType { text: "(u8 , u8)".to_string(), shape: TypeShape::Other };
    assert_eq!(extract_type_ident(&other), Err(ConfigError::UnsupportedFieldType));
}

#[test]
fn optional_split_is_one_level() {
    let optional_u32 = option_of(path("u32"));
    let (optional, base) = split_optional(&optional_u32);
    assert!(optional);
    assert_eq!(base, "u32");
    let string = path("String");
    let (optional, base) = split_optional(&string);
    assert!(!optional);
    assert_eq!(base, "String");
}

#[test]
fn checkbox_only_struct_has_empty_state_holder() {
    let derived = from(
        &ComponentStruct {
            ident: "Settings".to_string(),
            fields: vec![field("enabled", path("bool"), Some(Components::Checkbox))],
        },
        GpuiFormOptions { generate_shape: false },
    )
    .unwrap();
    assert_eq!(derived.fields_struct, "pub struct SettingsFormFields {  }");
    assert_eq!(
        derived.components_struct,
        "pub struct SettingsFormComponents; impl SettingsFormComponents {  }"
    );
    assert_eq!(derived.value_holder_name, "SettingsFormValueHolder");
    assert_eq!(derived.should_be_unwrapped, vec![("enabled".to_string(), true)]);
    assert_eq!(derived.shape_registration, "");
}

#[test]
fn input_field_code_is_exact() {
    let content =
        generate_component_field(&field("username", option_of(path("String")), Some(Components::Input)))
            .ok()
            .unwrap();
    assert_eq!(
        content.field_structure_tokens,
        "pub username_input: ::gpui::Entity<::gpui_component::input::InputState>,"
    );
    assert_eq!(
        content.field_base_declarations_tokens,
        "pub fn username_input(window: &mut ::gpui::Window, cx: &mut ::gpui::Context<'_, ::gpui_component::input::InputState>) -> ::gpui_component::input::InputState { ::gpui_component::input::InputState::new(window, cx) }"
    );
    assert_eq!(content.should_be_unwrapped, ("username".to_string(), true));
}

#[test]
fn number_input_constructor_attaches_pattern() {
    let content =
        generate_component_field(&field("age", path("u32"), Some(Components::NumberInput))).ok().unwrap();
    assert_eq!(
        content.field_base_declarations_tokens,
        "pub fn age_number_input(window: &mut ::gpui::Window, cx: &mut ::gpui::Context<'_, ::gpui_component::input::InputState>) -> ::gpui_component::input::InputState { use ::gpui_form::NumRegex; ::gpui_component::input::InputState::new(window, cx).pattern(u32::validation_regex().regex().clone()) }"
    );
}

#[test]
fn dropdown_default_index_selects_type_default() {
    let content =
        generate_component_field(&field("preferred", path("Language"), Some(dropdown(false, false, None, true))))
            .ok()
            .unwrap();
    assert!(content.field_base_declarations_tokens.contains(
        "Some(::gpui_component::IndexPath::new(Language::iter().position(|x| x == Language::default()).unwrap()))"
    ));
}

#[test]
fn dropdown_named_index_selects_named_value() {
    let content = generate_component_field(&field(
        "country",
        option_of(path("Country")),
        Some(dropdown(true, false, Some("Country::France"), false)),
    ))
    .ok()
    .unwrap();
    assert!(content.field_base_declarations_tokens.contains(
        "Some(::gpui_component::IndexPath::new(Country::iter().position(|x| x == Country::France).unwrap()))"
    ));
}

#[test]
fn dropdown_without_policy_selects_nothing() {
    let content =
        generate_component_field(&field("country", path("Country"), Some(dropdown(false, false, None, false))))
            .ok()
            .unwrap();
    assert!(content.field_base_declarations_tokens.ends_with(
        "::gpui_component::dropdown::DropdownState::new(Country::iter().collect::<Vec<Country>>().into(), None, window, cx) }"
    ));
}

#[test]
fn dropdown_index_options_conflict() {
    let options = DropdownOptions::new(
        BehaviourDropdownOptions::default(),
        Some("Country::France".to_string()),
        true,
    );
    assert_eq!(options.index_default(), Err(ConfigError::ConflictingIndexOptions));
    assert!(matches!(options.named_index(), Err(ConfigError::ConflictingIndexOptions)));
    let result = derive_one(field(
        "country",
        path("Country"),
        Some(dropdown(false, false, Some("Country::France"), true)),
    ));
    assert_eq!(
        result.err(),
        Some(FieldError { index: 0, error: ConfigError::ConflictingIndexOptions })
    );
}

#[test]
fn dropdown_accessors_without_conflict() {
    let options = DropdownOptions::new(BehaviourDropdownOptions::default(), None, true);
    assert_eq!(options.index_default(), Ok(true));
    assert!(matches!(options.named_index(), Ok(None)));
    let options =
        DropdownOptions::new(BehaviourDropdownOptions::default(), Some("E::A".to_string()), false);
    assert_eq!(options.index_default(), Ok(false));
    assert_eq!(options.named_index().unwrap().unwrap(), "E::A");
}

#[test]
fn searchable_and_plain_dropdowns_use_distinct_collections() {
    let derived = from(
        &ComponentStruct {
            ident: "Trip".to_string(),
            fields: vec![
                field("origin", path("City"), Some(dropdown(true, false, None, false))),
                field("mode", path("Mode"), Some(dropdown(false, false, None, false))),
            ],
        },
        GpuiFormOptions { generate_shape: false },
    )
    .unwrap();
    assert_eq!(
        derived.fields_struct,
        "pub struct TripFormFields { pub origin_dropdown: ::gpui::Entity<::gpui_component::dropdown::DropdownState<::gpui_component::dropdown::SearchableVec<City>>>,pub mode_dropdown: ::gpui::Entity<::gpui_component::dropdown::DropdownState<Vec<Mode>>>, }"
    );
}

#[test]
fn partial_dropdown_has_no_constructor() {
    let content =
        generate_component_field(&field("city", path("City"), Some(dropdown(false, true, None, false))))
            .ok()
            .unwrap();
    assert!(content.field_structure_tokens.contains("pub city_dropdown"));
    assert_eq!(content.field_base_declarations_tokens, "");
}

#[test]
fn unwrapping_follows_the_component() {
    let custom = Components::Custom(CustomOptions {
        behaviour: BehaviourCustomOptions {
            should_be_unwrapped: false,
            partial: false,
            name: "MY_BEHAVIOUR".to_string(),
        },
    });
    let derived = from(
        &ComponentStruct {
            ident: "Mixed".to_string(),
            fields: vec![
                field("born", option_of(path("NaiveDate")), Some(Components::DatePicker)),
                field("widget", path("Thing"), Some(custom)),
                field("plain", path("u8"), None),
                field("on", path("bool"), Some(Components::Switch)),
            ],
        },
        GpuiFormOptions { generate_shape: false },
    )
    .unwrap();
    assert_eq!(
        derived.should_be_unwrapped,
        vec![
            ("born".to_string(), false),
            ("widget".to_string(), false),
            ("plain".to_string(), false),
            ("on".to_string(), true),
        ]
    );
    assert_eq!(
        derived.fields_struct,
        "pub struct MixedFormFields { pub born_date_picker: ::gpui::Entity<::gpui_component::date_picker::DatePickerState>, }"
    );
    let default_custom = BehaviourCustomOptions::new("X".to_string());
    assert!(default_custom.should_be_unwrapped);
    assert!(!default_custom.partial);
}

#[test]
fn skip_applies_only_without_component() {
    let mut skipped = field("secret", path("String"), None);
    skipped.skip = true;
    assert!(skipped.skip());
    let mut kept = field("name", path("String"), Some(Components::Input));
    kept.skip = true;
    assert!(!kept.skip());
    let derived = from(
        &ComponentStruct { ident: "S".to_string(), fields: vec![skipped, kept] },
        GpuiFormOptions { generate_shape: false },
    )
    .unwrap();
    assert_eq!(derived.should_be_unwrapped, vec![("name".to_string(), true)]);
    assert!(derived.fields_struct.contains("pub name_input:"));
}

#[test]
fn unsupported_field_type_is_reported() {
    let other = FieldType { text: "& str".to_string(), shape: TypeShape::Other };
    assert_eq!(
        derive_one(field("name", other, Some(Components::Input))).err(),
        Some(FieldError { index: 0, error: ConfigError::UnsupportedFieldType })
    );
    let other = FieldType { text: "& str".to_string(), shape: TypeShape::Other };
    assert!(derive_one(field("name", other, None)).is_ok());
}

#[test]
fn first_failing_field_decides_the_error() {
    let other = FieldType { text: "[u8 ; 4]".to_string(), shape: TypeShape::Other };
    let result = from(
        &ComponentStruct {
            ident: "S".to_string(),
            fields: vec![
                field("a", other, Some(Components::Checkbox)),
                field("b", path("E"), Some(dropdown(false, false, Some("E::A"), true))),
            ],
        },
        GpuiFormOptions { generate_shape: true },
    );
    assert_eq!(
        result.err(),
        Some(FieldError { index: 0, error: ConfigError::UnsupportedFieldType })
    );
}

#[test]
fn later_failing_field_is_located() {
    let later = from(
        &ComponentStruct {
            ident: "S".to_string(),
            fields: vec![
                field("a", path("String"), Some(Components::Input)),
                field("b", path("E"), Some(dropdown(false, false, Some("E::A"), true))),
            ],
        },
        GpuiFormOptions { generate_shape: false },
    );
    assert_eq!(
        later.err(),
        Some(FieldError { index: 1, error: ConfigError::ConflictingIndexOptions })
    );
}

#[test]
fn shape_registration_lists_component_fields() {
    let derived = from(
        &ComponentStruct {
            ident: "User".to_string(),
            fields: vec![
                field("age", option_of(path("u32")), Some(Components::NumberInput)),
                field("note", path("String"), None),
                field("lang", path("Lang"), Some(dropdown(true, false, None, true))),
            ],
        },
        GpuiFormOptions { generate_shape: true },
    )
    .unwrap();
    assert_eq!(
        derived.shape_registration,
        "impl UserFormComponents { pub fn shape() -> ::gpui_form::registry::GpuiFormShape { ::gpui_form::registry::GpuiFormShape::new(\"User\", vec![::gpui_form::registry::FieldVariant::new(\"age\", \"u32\", true, ::gpui_form::components::ComponentsBehaviour::NumberInput), ::gpui_form::registry::FieldVariant::new(\"lang\", \"Lang\", false, ::gpui_form::components::ComponentsBehaviour::Dropdown(::gpui_form::components::BehaviourDropdownOptions { searchable: true, partial: false })), ]) } }"
    );
}

#[test]
fn custom_behaviour_is_named_by_its_options() {
    let custom = Components::Custom(CustomOptions {
        behaviour: BehaviourCustomOptions::new("MY_TAG".to_string()),
    });
    assert_eq!(get_components_behaviour_tokens(&custom), "MY_TAG");
    assert_eq!(
        get_components_behaviour_tokens(&Components::Switch),
        "::gpui_form::components::ComponentsBehaviour::Switch"
    );
}

#[test]
fn behaviour_predicates() {
    let dd = ComponentsBehaviour::Dropdown(BehaviourDropdownOptions { partial: true, searchable: false });
    assert!(dd.partial() && dd.subscribable() && dd.focusable());
    assert!(!dd.is_value_only_field() && !dd.needs_value_field());
    assert!(ComponentsBehaviour::Checkbox.is_value_only_field());
    assert!(ComponentsBehaviour::Switch.is_value_only_field());
    assert!(!ComponentsBehaviour::Switch.focusable());
    assert!(ComponentsBehaviour::NumberInput.needs_value_field());
    assert!(!ComponentsBehaviour::DatePicker.subscribable());
    assert!(!ComponentsBehaviour::DatePicker.focusable());
    assert!(!ComponentsBehaviour::Input.partial());
    assert_eq!(ComponentsBehaviour::DatePicker.name(), "date_picker");
    assert_eq!(ComponentsBehaviour::Input.as_component_ident(), "TextInput");
    assert_eq!(
        ComponentsBehaviour::Dropdown(BehaviourDropdownOptions { partial: false, searchable: true }),
        ComponentsBehaviour::Dropdown(BehaviourDropdownOptions { partial: false, searchable: true })
    );
}

#[test]
fn dropdown_item_impl_names_the_enum() {
    assert_eq!(
        gpui_form::derive::derive_dropdown_item("Country"),
        "impl gpui_component::dropdown::DropdownItem for Country { type Value = Self; fn title(&self) -> gpui::SharedString { self.to_string().into() } fn value(&self) -> &Self::Value { self } }"
    );
}

#[test]
fn registration_escapes_type_text() {
    let derived = from(
        &ComponentStruct {
            ident: "Odd".to_string(),
            fields: vec![field("tag", qualified("Tagged < \"a\\b\" >", "Tagged"), Some(Components::Input))],
        },
        GpuiFormOptions { generate_shape: true },
    )
    .unwrap();
    assert!(derived
        .shape_registration
        .contains("FieldVariant::new(\"tag\", \"Tagged < \\\"a\\\\b\\\" >\", false, "));
    let mut out = String::from("x");
    gpui_form::derive::push_escaped(&mut out, "say \"hi\"");
    assert_eq!(out, "xsay \\\"hi\\\"");
}
