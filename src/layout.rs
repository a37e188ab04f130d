//! The compile-time backend: for each component kind, the field that holds
//! its widget state and the function that builds that state, as source text.
use vstd::prelude::*;

use crate::components::{
    kind_name, CheckboxComponent, ComponentDefinition, Components, ConfigError, DropdownOptions,
    CustomComponent, DatePickerComponent, DropdownComponent, InputComponent, NumberInputComponent,
    SwitchComponent,
};
use crate::names::{component_field_name, ComponentFieldName};

verus! {

pub const ENTITY: &'static str = "::gpui::Entity";

pub const WINDOW: &'static str = "::gpui::Window";

pub const CONTEXT: &'static str = "::gpui::Context";

pub const INPUT_STATE: &'static str = "::gpui_component::input::InputState";

pub const DATE_PICKER_STATE: &'static str = "::gpui_component::date_picker::DatePickerState";

pub const DROPDOWN_STATE: &'static str = "::gpui_component::dropdown::DropdownState";

pub const SEARCHABLE_VEC: &'static str = "::gpui_component::dropdown::SearchableVec";

pub const PLAIN_VEC: &'static str = "Vec";

pub const INDEX_PATH: &'static str = "::gpui_component::IndexPath";

/// `pub {field}: Entity<{state}>,`
pub open spec fn entity_field_text(field: Seq<char>, state: Seq<char>) -> Seq<char> {
    "pub "@ + field + ": "@ + ENTITY@ + "<"@ + state + ">,"@
}

/// A constructor named after the field, building `state` from a window and a context.
pub open spec fn constructor_text(field: Seq<char>, state: Seq<char>, body: Seq<char>) -> Seq<char> {
    "pub fn "@ + field + "(window: &mut "@ + WINDOW@ + ", cx: &mut "@ + CONTEXT@ + "<'_, "@
        + state + ">) -> "@ + state + " { "@ + body + " }"@
}

/// `{state}::new(window, cx)`
pub open spec fn plain_new_text(state: Seq<char>) -> Seq<char> {
    state + "::new(window, cx)"@
}

/// A number input's state, with the validation pattern of its numeric type.
pub open spec fn number_input_body_text(ty: Seq<char>) -> Seq<char> {
    "use ::gpui_form::NumRegex; "@ + INPUT_STATE@ + "::new(window, cx).pattern("@ + ty
        + "::validation_regex().regex().clone())"@
}

/// The candidate collection of a dropdown: filterable or a plain sequence.
pub open spec fn collection_type_text(searchable: bool) -> Seq<char> {
    if searchable {
        SEARCHABLE_VEC@
    } else {
        PLAIN_VEC@
    }
}

/// `DropdownState<{collection}<{ty}>>`
pub open spec fn dropdown_state_text(searchable: bool, ty: Seq<char>) -> Seq<char> {
    DROPDOWN_STATE@ + "<"@ + collection_type_text(searchable) + "<"@ + ty + ">>"@
}

/// How a dropdown picks its first selection.
pub enum IndexPolicy {
    /// Nothing is selected.
    Unselected,
    /// The position of the named value in the type's iteration order.
    Named(Seq<char>),
    /// The position of the type's default value in its iteration order.
    TypeDefault,
}

/// The expression selecting the position of `target` among `ty`'s values.
pub open spec fn position_text(ty: Seq<char>, target: Seq<char>) -> Seq<char> {
    "Some("@ + INDEX_PATH@ + "::new("@ + ty + "::iter().position(|x| x == "@ + target
        + ").unwrap()))"@
}

/// The initial selection handed to a dropdown's state.
pub open spec fn index_text(ty: Seq<char>, policy: IndexPolicy) -> Seq<char> {
    match policy {
        IndexPolicy::Unselected => "None"@,
        IndexPolicy::Named(path) => position_text(ty, path),
        IndexPolicy::TypeDefault => position_text(ty, ty + "::default()"@),
    }
}

/// A dropdown's state, filled with every value of `ty` in iteration order.
pub open spec fn dropdown_body_text(ty: Seq<char>, index: Seq<char>) -> Seq<char> {
    "use strum::IntoEnumIterator as _; "@ + DROPDOWN_STATE@ + "::new("@ + ty
        + "::iter().collect::<Vec<"@ + ty + ">>().into(), "@ + index + ", window, cx)"@
}

/// The initial-selection policy of dropdown options that do not conflict.
pub open spec fn index_policy_of(options: DropdownOptions) -> IndexPolicy {
    match options.named_index_view() {
        Some(path) => IndexPolicy::Named(path),
        None => if options.index_default {
            IndexPolicy::TypeDefault
        } else {
            IndexPolicy::Unselected
        },
    }
}

/// The state type that a component keeps for a field of type `ty`, if it keeps one.
pub open spec fn state_type_of(c: Components, ty: Seq<char>) -> Option<Seq<char>> {
    match c {
        Components::Input => Some(INPUT_STATE@),
        Components::NumberInput => Some(INPUT_STATE@),
        Components::Dropdown(o) => Some(dropdown_state_text(o.behaviour.searchable, ty)),
        Components::DatePicker => Some(DATE_PICKER_STATE@),
        Components::Checkbox => None,
        Components::Switch => None,
        Components::Custom(_) => None,
    }
}

/// The name of the widget state of field `name` under component `c`.
pub open spec fn widget_name_of(c: Components, name: Seq<char>) -> Seq<char> {
    component_field_name(kind_name(c.kind()), name)
}

/// The state-holder field that component `c` emits for field `name` of type `ty`.
pub open spec fn structure_text_of(c: Components, name: Seq<char>, ty: Seq<char>) -> Seq<char> {
    match state_type_of(c, ty) {
        Some(state) => entity_field_text(widget_name_of(c, name), state),
        None => Seq::empty(),
    }
}

/// The constructor that component `c` emits for field `name` of type `ty`.
pub open spec fn declaration_text_of(c: Components, name: Seq<char>, ty: Seq<char>) -> Seq<char> {
    match c {
        Components::Input => constructor_text(
            widget_name_of(c, name),
            INPUT_STATE@,
            plain_new_text(INPUT_STATE@),
        ),
        Components::NumberInput => constructor_text(
            widget_name_of(c, name),
            INPUT_STATE@,
            number_input_body_text(ty),
        ),
        Components::DatePicker => constructor_text(
            widget_name_of(c, name),
            DATE_PICKER_STATE@,
            plain_new_text(DATE_PICKER_STATE@),
        ),
        Components::Dropdown(o) => if o.behaviour.partial {
            Seq::empty()
        } else {
            constructor_text(
                widget_name_of(c, name),
                dropdown_state_text(o.behaviour.searchable, ty),
                dropdown_body_text(ty, index_text(ty, index_policy_of(o))),
            )
        },
        Components::Checkbox => Seq::empty(),
        Components::Switch => Seq::empty(),
        Components::Custom(_) => Seq::empty(),
    }
}

/// Whether component `c`'s options can be turned into code.
pub open spec fn layout_outcome_of(c: Components) -> Result<(), ConfigError> {
    match c {
        Components::Dropdown(o) => if o.conflicting() {
            Err(ConfigError::ConflictingIndexOptions)
        } else {
            Ok(())
        },
        _ => Ok(()),
    }
}

/// Appends `pub {field}: Entity<{state}>,`.
pub fn push_entity_field(out: &mut String, field: &str, state: &str)
    ensures
        final(out)@ == old(out)@ + entity_field_text(field@, state@),
{
    out.append("pub ");
    out.append(field);
    out.append(": ");
    out.append(ENTITY);
    out.append("<");
    out.append(state);
    out.append(">,");
    assert(final(out)@ =~= old(out)@ + entity_field_text(field@, state@));
}

/// Appends a constructor named after the field.
pub fn push_constructor(out: &mut String, field: &str, state: &str, body: &str)
    ensures
        final(out)@ == old(out)@ + constructor_text(field@, state@, body@),
{
    out.append("pub fn ");
    out.append(field);
    out.append("(window: &mut ");
    out.append(WINDOW);
    out.append(", cx: &mut ");
    out.append(CONTEXT);
    out.append("<'_, ");
    out.append(state);
    out.append(">) -> ");
    out.append(state);
    out.append(" { ");
    out.append(body);
    out.append(" }");
    assert(final(out)@ =~= old(out)@ + constructor_text(field@, state@, body@));
}

fn plain_new(state: &str) -> (r: String)
    ensures
        r@ == plain_new_text(state@),
{
    let mut s = state.to_owned();
    s.append("::new(window, cx)");
    s
}

fn dropdown_state(searchable: bool, ty: &str) -> (r: String)
    ensures
        r@ == dropdown_state_text(searchable, ty@),
{
    let mut s = DROPDOWN_STATE.to_owned();
    s.append("<");
    if searchable {
        s.append(SEARCHABLE_VEC);
    } else {
        s.append(PLAIN_VEC);
    }
    s.append("<");
    s.append(ty);
    s.append(">>");
    assert(s@ =~= dropdown_state_text(searchable, ty@));
    s
}

fn position(ty: &str, target: &str) -> (r: String)
    ensures
        r@ == position_text(ty@, target@),
{
    let mut s = "Some(".to_owned();
    s.append(INDEX_PATH);
    s.append("::new(");
    s.append(ty);
    s.append("::iter().position(|x| x == ");
    s.append(target);
    s.append(").unwrap()))");
    assert(s@ =~= position_text(ty@, target@));
    s
}

/// The compile-time code of one component: the state-holder field and the
/// constructor, or a configuration error.
pub trait ComponentLayout {
    /// The field appended to the state-holder struct.
    spec fn structure_fragment(&self) -> Seq<char>;

    /// The constructor appended to the constructor namespace.
    spec fn declaration_fragment(&self) -> Seq<char>;

    /// Whether the component's options can be turned into code.
    spec fn layout_outcome(&self) -> Result<(), ConfigError>;

    fn field_tokens(
        &self,
        field_structure_tokens: &mut String,
        field_base_declarations_tokens: &mut String,
    ) -> (r: Result<(), ConfigError>)
        ensures
            r == self.layout_outcome(),
            r is Ok ==> final(field_structure_tokens)@ == old(field_structure_tokens)@
                + self.structure_fragment(),
            r is Ok ==> final(field_base_declarations_tokens)@ == old(
                field_base_declarations_tokens,
            )@ + self.declaration_fragment(),
            r is Err ==> final(field_structure_tokens)@ == old(field_structure_tokens)@,
            r is Err ==> final(field_base_declarations_tokens)@ == old(
                field_base_declarations_tokens,
            )@,
    ;
}

impl ComponentLayout for InputComponent {
    open spec fn structure_fragment(&self) -> Seq<char> {
        structure_text_of(Components::Input, self.0.name@, self.0.type_ident@)
    }

    open spec fn declaration_fragment(&self) -> Seq<char> {
        declaration_text_of(Components::Input, self.0.name@, self.0.type_ident@)
    }

    open spec fn layout_outcome(&self) -> Result<(), ConfigError> {
        layout_outcome_of(Components::Input)
    }

    fn field_tokens(
        &self,
        field_structure_tokens: &mut String,
        field_base_declarations_tokens: &mut String,
    ) -> (r: Result<(), ConfigError>) {
        let field_name = ComponentFieldName::new(Self::component_name(), self.0.name.as_str());
        push_entity_field(field_structure_tokens, field_name.as_str(), INPUT_STATE);
        let body = plain_new(INPUT_STATE);
        push_constructor(
            field_base_declarations_tokens,
            field_name.as_str(),
            INPUT_STATE,
            body.as_str(),
        );
        Ok(())
    }
}

impl ComponentLayout for NumberInputComponent {
    open spec fn structure_fragment(&self) -> Seq<char> {
        structure_text_of(Components::NumberInput, self.0.name@, self.0.type_ident@)
    }

    open spec fn declaration_fragment(&self) -> Seq<char> {
        declaration_text_of(Components::NumberInput, self.0.name@, self.0.type_ident@)
    }

    open spec fn layout_outcome(&self) -> Result<(), ConfigError> {
        layout_outcome_of(Components::NumberInput)
    }

    fn field_tokens(
        &self,
        field_structure_tokens: &mut String,
        field_base_declarations_tokens: &mut String,
    ) -> (r: Result<(), ConfigError>) {
        let field_name = ComponentFieldName::new(Self::component_name(), self.0.name.as_str());
        push_entity_field(field_structure_tokens, field_name.as_str(), INPUT_STATE);
        let mut body = "use ::gpui_form::NumRegex; ".to_owned();
        body.append(INPUT_STATE);
        body.append("::new(window, cx).pattern(");
        body.append(self.0.type_ident.as_str());
        body.append("::validation_regex().regex().clone())");
        assert(body@ =~= number_input_body_text(self.0.type_ident@));
        push_constructor(
            field_base_declarations_tokens,
            field_name.as_str(),
            INPUT_STATE,
            body.as_str(),
        );
        Ok(())
    }
}

impl ComponentLayout for DatePickerComponent {
    open spec fn structure_fragment(&self) -> Seq<char> {
        structure_text_of(Components::DatePicker, self.0.name@, self.0.type_ident@)
    }

    open spec fn declaration_fragment(&self) -> Seq<char> {
        declaration_text_of(Components::DatePicker, self.0.name@, self.0.type_ident@)
    }

    open spec fn layout_outcome(&self) -> Result<(), ConfigError> {
        layout_outcome_of(Components::DatePicker)
    }

    fn field_tokens(
        &self,
        field_structure_tokens: &mut String,
        field_base_declarations_tokens: &mut String,
    ) -> (r: Result<(), ConfigError>) {
        let field_name = ComponentFieldName::new(Self::component_name(), self.0.name.as_str());
        push_entity_field(field_structure_tokens, field_name.as_str(), DATE_PICKER_STATE);
        let body = plain_new(DATE_PICKER_STATE);
        push_constructor(
            field_base_declarations_tokens,
            field_name.as_str(),
            DATE_PICKER_STATE,
            body.as_str(),
        );
        Ok(())
    }
}

impl ComponentLayout for CheckboxComponent {
    open spec fn structure_fragment(&self) -> Seq<char> {
        structure_text_of(Components::Checkbox, self.0.name@, self.0.type_ident@)
    }

    open spec fn declaration_fragment(&self) -> Seq<char> {
        declaration_text_of(Components::Checkbox, self.0.name@, self.0.type_ident@)
    }

    open spec fn layout_outcome(&self) -> Result<(), ConfigError> {
        layout_outcome_of(Components::Checkbox)
    }

    fn field_tokens(
        &self,
        field_structure_tokens: &mut String,
        field_base_declarations_tokens: &mut String,
    ) -> (r: Result<(), ConfigError>) {
        assert(field_structure_tokens@ =~= field_structure_tokens@ + Seq::<char>::empty());
        assert(field_base_declarations_tokens@ =~= field_base_declarations_tokens@
            + Seq::<char>::empty());
        Ok(())
    }
}

impl ComponentLayout for SwitchComponent {
    open spec fn structure_fragment(&self) -> Seq<char> {
        structure_text_of(Components::Switch, self.0.name@, self.0.type_ident@)
    }

    open spec fn declaration_fragment(&self) -> Seq<char> {
        declaration_text_of(Components::Switch, self.0.name@, self.0.type_ident@)
    }

    open spec fn layout_outcome(&self) -> Result<(), ConfigError> {
        layout_outcome_of(Components::Switch)
    }

    fn field_tokens(
        &self,
        field_structure_tokens: &mut String,
        field_base_declarations_tokens: &mut String,
    ) -> (r: Result<(), ConfigError>) {
        assert(field_structure_tokens@ =~= field_structure_tokens@ + Seq::<char>::empty());
        assert(field_base_declarations_tokens@ =~= field_base_declarations_tokens@
            + Seq::<char>::empty());
        Ok(())
    }
}

impl ComponentLayout for CustomComponent {
    open spec fn structure_fragment(&self) -> Seq<char> {
        structure_text_of(Components::Custom(self.0.options), self.0.name@, self.0.type_ident@)
    }

    open spec fn declaration_fragment(&self) -> Seq<char> {
        declaration_text_of(Components::Custom(self.0.options), self.0.name@, self.0.type_ident@)
    }

    open spec fn layout_outcome(&self) -> Result<(), ConfigError> {
        layout_outcome_of(Components::Custom(self.0.options))
    }

    fn field_tokens(
        &self,
        field_structure_tokens: &mut String,
        field_base_declarations_tokens: &mut String,
    ) -> (r: Result<(), ConfigError>) {
        assert(field_structure_tokens@ =~= field_structure_tokens@ + Seq::<char>::empty());
        assert(field_base_declarations_tokens@ =~= field_base_declarations_tokens@
            + Seq::<char>::empty());
        Ok(())
    }
}

impl ComponentLayout for DropdownComponent {
    open spec fn structure_fragment(&self) -> Seq<char> {
        structure_text_of(Components::Dropdown(self.0.options), self.0.name@, self.0.type_ident@)
    }

    open spec fn declaration_fragment(&self) -> Seq<char> {
        declaration_text_of(Components::Dropdown(self.0.options), self.0.name@, self.0.type_ident@)
    }

    open spec fn layout_outcome(&self) -> Result<(), ConfigError> {
        layout_outcome_of(Components::Dropdown(self.0.options))
    }

    fn field_tokens(
        &self,
        field_structure_tokens: &mut String,
        field_base_declarations_tokens: &mut String,
    ) -> (r: Result<(), ConfigError>) {
        let options = &self.0.options;
        let ty = self.0.type_ident.as_str();
        let field_name = ComponentFieldName::new(Self::component_name(), self.0.name.as_str());
        let state = dropdown_state(options.behaviour.searchable, ty);

        let named_index = match options.named_index() {
            Ok(n) => n,
            Err(e) => {
                return Err(e);
            },
        };
        let index = match named_index {
            Some(path) => position(ty, path.as_str()),
            None => {
                let index_default = match options.index_default() {
                    Ok(d) => d,
                    Err(e) => {
                        return Err(e);
                    },
                };
                if index_default {
                    let mut target = ty.to_owned();
                    target.append("::default()");
                    position(ty, target.as_str())
                } else {
                    "None".to_owned()
                }
            },
        };
        assert(index@ == index_text(self.0.type_ident@, index_policy_of(self.0.options)));

        push_entity_field(field_structure_tokens, field_name.as_str(), state.as_str());
        if !options.behaviour.partial {
            let mut body = "use strum::IntoEnumIterator as _; ".to_owned();
            body.append(DROPDOWN_STATE);
            body.append("::new(");
            body.append(ty);
            body.append("::iter().collect::<Vec<");
            body.append(ty);
            body.append(">>().into(), ");
            body.append(index.as_str());
            body.append(", window, cx)");
            assert(body@ =~= dropdown_body_text(self.0.type_ident@, index@));
            push_constructor(
                field_base_declarations_tokens,
                field_name.as_str(),
                state.as_str(),
                body.as_str(),
            );
        } else {
            assert(field_base_declarations_tokens@ =~= field_base_declarations_tokens@
                + Seq::<char>::empty());
        }
        Ok(())
    }
}

/// A dropdown configured with `index_default` starts on the position of its
/// type's default value in the type's iteration order.
pub proof fn lemma_default_index_selects_default_value(
    options: DropdownOptions,
    name: Seq<char>,
    ty: Seq<char>,
)
    requires
        options.index_default,
        options.named_index is None,
        !options.behaviour.partial,
    ensures
        declaration_text_of(Components::Dropdown(options), name, ty) == constructor_text(
            widget_name_of(Components::Dropdown(options), name),
            dropdown_state_text(options.behaviour.searchable, ty),
            dropdown_body_text(ty, position_text(ty, ty + "::default()"@)),
        ),
{
}

/// A dropdown configured with `named_index = path` starts on the position of
/// `path` in its type's iteration order.
pub proof fn lemma_named_index_selects_named_value(
    options: DropdownOptions,
    name: Seq<char>,
    ty: Seq<char>,
)
    requires
        options.named_index is Some,
        !options.index_default,
        !options.behaviour.partial,
    ensures
        declaration_text_of(Components::Dropdown(options), name, ty) == constructor_text(
            widget_name_of(Components::Dropdown(options), name),
            dropdown_state_text(options.behaviour.searchable, ty),
            dropdown_body_text(ty, position_text(ty, options.named_index->Some_0@)),
        ),
{
}

/// A searchable dropdown and a plain one never share a state type, whatever
/// their item types: one holds a filterable collection, the other a `Vec`.
pub proof fn lemma_searchable_state_differs(searchable_ty: Seq<char>, plain_ty: Seq<char>)
    ensures
        dropdown_state_text(true, searchable_ty) != dropdown_state_text(false, plain_ty),
{
    reveal_strlit("::gpui_component::dropdown::DropdownState");
    reveal_strlit("::gpui_component::dropdown::SearchableVec");
    reveal_strlit("Vec");
    reveal_strlit("<");
    let k = DROPDOWN_STATE@.len() as int + 1;
    let a = dropdown_state_text(true, searchable_ty);
    let b = dropdown_state_text(false, plain_ty);
    assert(a[k] == ':');
    assert(b[k] == 'V');
}

/// The state-holder entries of a searchable and a plain dropdown field differ
/// in their state type.
pub proof fn lemma_searchable_entries_differ(
    searchable: DropdownOptions,
    plain: DropdownOptions,
    searchable_ty: Seq<char>,
    plain_ty: Seq<char>,
)
    requires
        searchable.behaviour.searchable,
        !plain.behaviour.searchable,
    ensures
        state_type_of(Components::Dropdown(searchable), searchable_ty) != state_type_of(
            Components::Dropdown(plain),
            plain_ty,
        ),
{
    lemma_searchable_state_differs(searchable_ty, plain_ty);
}

/// A dropdown whose options name an initial value and also ask for the
/// default one cannot be laid out, whatever its other options: `field_tokens`
/// then returns this error and extends neither output.
pub proof fn lemma_conflicting_dropdown_is_refused(options: DropdownOptions)
    requires
        options.named_index is Some,
        options.index_default,
    ensures
        layout_outcome_of(Components::Dropdown(options)) == Err::<(), ConfigError>(
            ConfigError::ConflictingIndexOptions,
        ),
{
}

} // verus!
