//! Case conversion of identifiers, done by the `heck` crate.
use vstd::prelude::*;

verus! {

/// What `heck` makes of an identifier in PascalCase.
pub uninterp spec fn pascal_case_of(s: Seq<char>) -> Seq<char>;

/// What `heck` makes of an identifier in snake_case.
pub uninterp spec fn snake_case_of(s: Seq<char>) -> Seq<char>;

/// What `heck` makes of an identifier in kebab-case.
pub uninterp spec fn kebab_case_of(s: Seq<char>) -> Seq<char>;

/// Relies on `heck::ToPascalCase::to_pascal_case` for `str`: the result
/// depends on the characters of `s` alone.
#[verifier::external_body]
pub(crate) fn to_pascal_case(s: &str) -> (r: String)
    ensures
        r@ == pascal_case_of(s@),
{
    heck::ToPascalCase::to_pascal_case(s)
}

/// Relies on `heck::ToSnakeCase::to_snake_case` for `str`: the result
/// depends on the characters of `s` alone.
#[verifier::external_body]
pub(crate) fn to_snake_case(s: &str) -> (r: String)
    ensures
        r@ == snake_case_of(s@),
{
    heck::ToSnakeCase::to_snake_case(s)
}

/// Relies on `heck::ToKebabCase::to_kebab_case` for `str`: the result
/// depends on the characters of `s` alone.
#[verifier::external_body]
pub(crate) fn to_kebab_case(s: &str) -> (r: String)
    ensures
        r@ == kebab_case_of(s@),
{
    heck::ToKebabCase::to_kebab_case(s)
}

} // verus!
