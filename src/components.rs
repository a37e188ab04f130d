//! The closed set of component kinds, their option bags, and the behaviour
//! that remains observable once a form has been generated.
use vstd::prelude::*;

verus! {

/// Marker for the option bag of a component kind.
pub trait ComponentOption {}

/// Why a form description cannot be turned into code.
#[derive(Debug, PartialEq, Eq, Structural)]
pub enum ConfigError {
    /// A dropdown names an initial value and also asks for the default one.
    ConflictingIndexOptions,
    /// A component field whose type is not a (possibly optional) named type.
    UnsupportedFieldType,
}

/// The runtime-relevant options of a dropdown.
#[derive(Clone, Copy, Debug, Default, PartialEq, Eq, Structural)]
pub struct BehaviourDropdownOptions {
    /// The host builds the widget itself; no constructor is generated.
    pub partial: bool,
    /// The candidate list is filterable.
    pub searchable: bool,
}

impl ComponentOption for BehaviourDropdownOptions {}

/// Options of a user-supplied widget.
#[derive(Clone, Debug)]
pub struct BehaviourCustomOptions {
    /// Whether the value holder unwraps the field's optional value.
    pub should_be_unwrapped: bool,
    /// The host builds the widget itself.
    pub partial: bool,
    /// The behaviour tag that the custom field reduces to.
    pub name: String,
}

impl ComponentOption for BehaviourCustomOptions {}

/// The value that `should_be_unwrapped` takes when an attribute leaves it out.
pub fn default_true() -> (r: bool)
    ensures
        r,
{
    true
}

impl BehaviourCustomOptions {
    /// Custom options with every flag at its default.
    pub fn new(name: String) -> (r: Self)
        ensures
            r.should_be_unwrapped,
            !r.partial,
            r.name@ == name@,
    {
        BehaviourCustomOptions { should_be_unwrapped: default_true(), partial: false, name }
    }
}

#[derive(Clone, Debug)]
pub struct CustomOptions {
    pub behaviour: BehaviourCustomOptions,
}

impl CustomOptions {
    /// A copy with the same options.
    pub fn duplicate(&self) -> (r: Self)
        ensures
            r == *self,
    {
        CustomOptions {
            behaviour: BehaviourCustomOptions {
                should_be_unwrapped: self.behaviour.should_be_unwrapped,
                partial: self.behaviour.partial,
                name: self.behaviour.name.clone(),
            },
        }
    }
}

impl ComponentOption for CustomOptions {}

/// Options of a dropdown. The two ways of choosing an initial selection
/// exclude each other: the accessors `named_index` and `index_default` report
/// a conflict whenever both are set.
#[derive(Clone, Debug)]
pub struct DropdownOptions {
    pub behaviour: BehaviourDropdownOptions,
    pub named_index: Option<String>,
    pub index_default: bool,
}

impl ComponentOption for DropdownOptions {}

/// Both initial-selection policies are configured.
pub open spec fn index_options_conflict(named_index: Option<Seq<char>>, index_default: bool) -> bool {
    named_index is Some && index_default
}

impl DropdownOptions {
    /// The path of the value that is selected first, as written.
    pub open spec fn named_index_view(&self) -> Option<Seq<char>> {
        match self.named_index {
            Some(p) => Some(p@),
            None => None,
        }
    }

    /// Whether the type's default value is selected first, as written.
    pub open spec fn index_default_view(&self) -> bool {
        self.index_default
    }

    /// The configured options conflict.
    pub open spec fn conflicting(&self) -> bool {
        index_options_conflict(self.named_index_view(), self.index_default_view())
    }

    pub fn new(
        behaviour: BehaviourDropdownOptions,
        named_index: Option<String>,
        index_default: bool,
    ) -> (r: Self)
        ensures
            r.behaviour == behaviour,
            r.named_index_view() == (match named_index {
                Some(p) => Some(p@),
                None => None::<Seq<char>>,
            }),
            r.index_default_view() == index_default,
    {
        DropdownOptions { behaviour, named_index, index_default }
    }

    /// A copy with the same options.
    pub fn duplicate(&self) -> (r: Self)
        ensures
            r == *self,
    {
        let named_index = match &self.named_index {
            Some(p) => Some(p.clone()),
            None => None,
        };
        DropdownOptions { behaviour: self.behaviour, named_index, index_default: self.index_default }
    }

    /// What `named_index` answers for these options.
    pub open spec fn named_index_outcome(&self) -> Result<Option<Seq<char>>, ConfigError> {
        if self.conflicting() {
            Err(ConfigError::ConflictingIndexOptions)
        } else {
            Ok(self.named_index_view())
        }
    }

    /// What `index_default` answers for these options.
    pub open spec fn index_default_outcome(&self) -> Result<bool, ConfigError> {
        if self.conflicting() {
            Err(ConfigError::ConflictingIndexOptions)
        } else {
            Ok(self.index_default)
        }
    }

    /// The path of the value selected first, unless both policies are set.
    pub fn named_index(&self) -> (r: Result<Option<&String>, ConfigError>)
        ensures
            match r {
                Ok(Some(p)) => self.named_index_outcome() == Ok::<Option<Seq<char>>, ConfigError>(
                    Some(p@),
                ),
                Ok(None) => self.named_index_outcome() == Ok::<Option<Seq<char>>, ConfigError>(
                    None,
                ),
                Err(e) => self.named_index_outcome() == Err::<Option<Seq<char>>, ConfigError>(e),
            },
    {
        if self.named_index.is_some() && self.index_default {
            Err(ConfigError::ConflictingIndexOptions)
        } else {
            Ok(self.named_index.as_ref())
        }
    }

    /// Whether the default value is selected first, unless both policies are set.
    pub fn index_default(&self) -> (r: Result<bool, ConfigError>)
        ensures
            r == self.index_default_outcome(),
    {
        if self.named_index.is_some() && self.index_default {
            Err(ConfigError::ConflictingIndexOptions)
        } else {
            Ok(self.index_default)
        }
    }
}

/// Configuring both `named_index` and `index_default` on one dropdown fails,
/// whichever of the two accessors is consulted, and in either order.
pub proof fn lemma_conflicting_index_options_fail(options: DropdownOptions)
    requires
        options.named_index is Some,
        options.index_default,
    ensures
        options.named_index_outcome() == Err::<Option<Seq<char>>, ConfigError>(
            ConfigError::ConflictingIndexOptions,
        ),
        options.index_default_outcome() == Err::<bool, ConfigError>(
            ConfigError::ConflictingIndexOptions,
        ),
{
}

#[derive(Clone, Copy, Debug)]
pub struct InputOptions;

impl ComponentOption for InputOptions {}

#[derive(Clone, Copy, Debug)]
pub struct NumberInputOptions;

impl ComponentOption for NumberInputOptions {}

#[derive(Clone, Copy, Debug)]
pub struct CheckboxOptions;

impl ComponentOption for CheckboxOptions {}

#[derive(Clone, Copy, Debug)]
pub struct SwitchOptions;

impl ComponentOption for SwitchOptions {}

#[derive(Clone, Copy, Debug)]
pub struct DatePickerOptions;

impl ComponentOption for DatePickerOptions {}

/// The component kinds, each with its option bag.
#[derive(Clone, Debug)]
pub enum Components {
    Input,
    NumberInput,
    Checkbox,
    Switch,
    Dropdown(DropdownOptions),
    DatePicker,
    Custom(CustomOptions),
}

/// The tag of a component kind, without its options.
#[derive(Clone, Copy, Debug, PartialEq, Eq, Structural)]
pub enum ComponentsDiscriminants {
    Input,
    NumberInput,
    Checkbox,
    Switch,
    Dropdown,
    DatePicker,
    Custom,
}

/// The snake-case name of a component kind, used in generated identifiers.
pub open spec fn kind_name(kind: ComponentsDiscriminants) -> Seq<char> {
    match kind {
        ComponentsDiscriminants::Input => "input"@,
        ComponentsDiscriminants::NumberInput => "number_input"@,
        ComponentsDiscriminants::Checkbox => "checkbox"@,
        ComponentsDiscriminants::Switch => "switch"@,
        ComponentsDiscriminants::Dropdown => "dropdown"@,
        ComponentsDiscriminants::DatePicker => "date_picker"@,
        ComponentsDiscriminants::Custom => "custom"@,
    }
}

impl ComponentsDiscriminants {
    pub fn name(&self) -> (r: &'static str)
        ensures
            r@ == kind_name(*self),
    {
        match self {
            ComponentsDiscriminants::Input => "input",
            ComponentsDiscriminants::NumberInput => "number_input",
            ComponentsDiscriminants::Checkbox => "checkbox",
            ComponentsDiscriminants::Switch => "switch",
            ComponentsDiscriminants::Dropdown => "dropdown",
            ComponentsDiscriminants::DatePicker => "date_picker",
            ComponentsDiscriminants::Custom => "custom",
        }
    }
}

impl Components {
    pub open spec fn kind(&self) -> ComponentsDiscriminants {
        match self {
            Components::Input => ComponentsDiscriminants::Input,
            Components::NumberInput => ComponentsDiscriminants::NumberInput,
            Components::Checkbox => ComponentsDiscriminants::Checkbox,
            Components::Switch => ComponentsDiscriminants::Switch,
            Components::Dropdown(_) => ComponentsDiscriminants::Dropdown,
            Components::DatePicker => ComponentsDiscriminants::DatePicker,
            Components::Custom(_) => ComponentsDiscriminants::Custom,
        }
    }

    pub fn discriminant(&self) -> (r: ComponentsDiscriminants)
        ensures
            r == self.kind(),
    {
        match self {
            Components::Input => ComponentsDiscriminants::Input,
            Components::NumberInput => ComponentsDiscriminants::NumberInput,
            Components::Checkbox => ComponentsDiscriminants::Checkbox,
            Components::Switch => ComponentsDiscriminants::Switch,
            Components::Dropdown(_) => ComponentsDiscriminants::Dropdown,
            Components::DatePicker => ComponentsDiscriminants::DatePicker,
            Components::Custom(_) => ComponentsDiscriminants::Custom,
        }
    }
}

/// What of a component kind is still observable after generation.
#[derive(Clone, Copy, Debug, PartialEq, Eq, Structural)]
pub enum ComponentsBehaviour {
    Input,
    NumberInput,
    Checkbox,
    Switch,
    Dropdown(BehaviourDropdownOptions),
    DatePicker,
}

impl ComponentsBehaviour {
    /// The snake-case name of the behaviour: the suffix of generated field names.
    pub open spec fn name_view(&self) -> Seq<char> {
        match self {
            ComponentsBehaviour::Input => kind_name(ComponentsDiscriminants::Input),
            ComponentsBehaviour::NumberInput => kind_name(ComponentsDiscriminants::NumberInput),
            ComponentsBehaviour::Checkbox => kind_name(ComponentsDiscriminants::Checkbox),
            ComponentsBehaviour::Switch => kind_name(ComponentsDiscriminants::Switch),
            ComponentsBehaviour::Dropdown(_) => kind_name(ComponentsDiscriminants::Dropdown),
            ComponentsBehaviour::DatePicker => kind_name(ComponentsDiscriminants::DatePicker),
        }
    }

    /// The snake-case name of the behaviour.
    pub fn name(&self) -> (r: &'static str)
        ensures
            r@ == self.name_view(),
    {
        match self {
            ComponentsBehaviour::Input => "input",
            ComponentsBehaviour::NumberInput => "number_input",
            ComponentsBehaviour::Checkbox => "checkbox",
            ComponentsBehaviour::Switch => "switch",
            ComponentsBehaviour::Dropdown(_) => "dropdown",
            ComponentsBehaviour::DatePicker => "date_picker",
        }
    }

    /// The name of the toolkit element that renders the field.
    pub open spec fn component_ident_view(&self) -> Seq<char> {
        match self {
            ComponentsBehaviour::Input => "TextInput"@,
            ComponentsBehaviour::NumberInput => "NumberInput"@,
            ComponentsBehaviour::Checkbox => "Checkbox"@,
            ComponentsBehaviour::Switch => "Switch"@,
            ComponentsBehaviour::Dropdown(_) => "Dropdown"@,
            ComponentsBehaviour::DatePicker => "DatePicker"@,
        }
    }

    pub fn as_component_ident(&self) -> (r: &'static str)
        ensures
            r@ == self.component_ident_view(),
    {
        match self {
            ComponentsBehaviour::Input => "TextInput",
            ComponentsBehaviour::NumberInput => "NumberInput",
            ComponentsBehaviour::Checkbox => "Checkbox",
            ComponentsBehaviour::Switch => "Switch",
            ComponentsBehaviour::Dropdown(_) => "Dropdown",
            ComponentsBehaviour::DatePicker => "DatePicker",
        }
    }

    /// Checkbox and switch hold their value directly, with no text buffer.
    pub fn is_value_only_field(&self) -> (r: bool)
        ensures
            r <==> (*self is Checkbox || *self is Switch),
    {
        matches!(self, ComponentsBehaviour::Checkbox | ComponentsBehaviour::Switch)
    }

    /// A number input reconciles its text with a parsed value.
    pub fn needs_value_field(&self) -> (r: bool)
        ensures
            r <==> *self is NumberInput,
    {
        matches!(self, ComponentsBehaviour::NumberInput)
    }

    pub open spec fn partial_view(&self) -> bool {
        match *self {
            ComponentsBehaviour::Dropdown(o) => o.partial,
            _ => false,
        }
    }

    /// The host constructs the widget (a partial dropdown).
    pub fn partial(&self) -> (r: bool)
        ensures
            r == self.partial_view(),
    {
        match self {
            ComponentsBehaviour::Dropdown(options) => options.partial,
            _ => false,
        }
    }

    pub open spec fn is_subscribable(&self) -> bool {
        *self is Input || *self is NumberInput || *self is Dropdown
    }

    /// The widget emits change events worth subscribing to.
    pub fn subscribable(&self) -> (r: bool)
        ensures
            r == self.is_subscribable(),
    {
        matches!(
            self,
            ComponentsBehaviour::Input | ComponentsBehaviour::NumberInput
                | ComponentsBehaviour::Dropdown(_)
        )
    }

    pub open spec fn is_focusable(&self) -> bool {
        *self is Input || *self is NumberInput || *self is Dropdown
    }

    /// The widget takes part in the tab-focus order.
    pub fn focusable(&self) -> (r: bool)
        ensures
            r == self.is_focusable(),
    {
        matches!(
            self,
            ComponentsBehaviour::Input | ComponentsBehaviour::NumberInput
                | ComponentsBehaviour::Dropdown(_)
        )
    }
}

/// What a component needs to know of its field.
pub struct FieldInformation<T: ComponentOption> {
    pub options: T,
    /// The field's name.
    pub name: String,
    /// The last identifier of the field's type, an `Option` unwrapped.
    pub type_ident: String,
}

impl<T: ComponentOption> FieldInformation<T> {
    pub fn new(options: T, name: String, type_ident: String) -> (r: Self)
        ensures
            r.options == options,
            r.name@ == name@,
            r.type_ident@ == type_ident@,
    {
        FieldInformation { options, name, type_ident }
    }
}

/// Names a component kind by its snake-case tag.
pub trait ComponentDefinition {
    spec fn definition_kind() -> ComponentsDiscriminants;

    fn component_name() -> (r: &'static str)
        ensures
            r@ == kind_name(Self::definition_kind()),
    ;
}

pub struct InputComponent(pub FieldInformation<InputOptions>);

pub struct NumberInputComponent(pub FieldInformation<NumberInputOptions>);

pub struct CheckboxComponent(pub FieldInformation<CheckboxOptions>);

pub struct SwitchComponent(pub FieldInformation<SwitchOptions>);

pub struct DropdownComponent(pub FieldInformation<DropdownOptions>);

pub struct DatePickerComponent(pub FieldInformation<DatePickerOptions>);

pub struct CustomComponent(pub FieldInformation<CustomOptions>);

impl ComponentDefinition for InputComponent {
    open spec fn definition_kind() -> ComponentsDiscriminants {
        ComponentsDiscriminants::Input
    }

    fn component_name() -> (r: &'static str) {
        ComponentsDiscriminants::Input.name()
    }
}

impl ComponentDefinition for NumberInputComponent {
    open spec fn definition_kind() -> ComponentsDiscriminants {
        ComponentsDiscriminants::NumberInput
    }

    fn component_name() -> (r: &'static str) {
        ComponentsDiscriminants::NumberInput.name()
    }
}

impl ComponentDefinition for CheckboxComponent {
    open spec fn definition_kind() -> ComponentsDiscriminants {
        ComponentsDiscriminants::Checkbox
    }

    fn component_name() -> (r: &'static str) {
        ComponentsDiscriminants::Checkbox.name()
    }
}

impl ComponentDefinition for SwitchComponent {
    open spec fn definition_kind() -> ComponentsDiscriminants {
        ComponentsDiscriminants::Switch
    }

    fn component_name() -> (r: &'static str) {
        ComponentsDiscriminants::Switch.name()
    }
}

impl ComponentDefinition for DropdownComponent {
    open spec fn definition_kind() -> ComponentsDiscriminants {
        ComponentsDiscriminants::Dropdown
    }

    fn component_name() -> (r: &'static str) {
        ComponentsDiscriminants::Dropdown.name()
    }
}

impl ComponentDefinition for DatePickerComponent {
    open spec fn definition_kind() -> ComponentsDiscriminants {
        ComponentsDiscriminants::DatePicker
    }

    fn component_name() -> (r: &'static str) {
        ComponentsDiscriminants::DatePicker.name()
    }
}

impl ComponentDefinition for CustomComponent {
    open spec fn definition_kind() -> ComponentsDiscriminants {
        ComponentsDiscriminants::Custom
    }

    fn component_name() -> (r: &'static str) {
        ComponentsDiscriminants::Custom.name()
    }
}

} // verus!
