//! Names of identifiers derived from Rust type and variant names.
use vstd::prelude::*;

verus! {

/// The snake-case form of a name, as heck computes it.
pub uninterp spec fn snake_case_of(s: Seq<char>) -> Seq<char>;

/// Relies on heck's `SnakeCase::to_snake_case` for `str`: the result depends on
/// the characters alone, and an empty name stays empty.
#[verifier::external_body]
fn to_snake_case(s: &str) -> (r: String)
    ensures
        r@ == snake_case_of(s@),
        s@.len() == 0 ==> r@.len() == 0,
{
    heck::SnakeCase::to_snake_case(s)
}

/// The variant that stands for the table itself.
pub open spec fn is_table_variant(variant: Seq<char>) -> bool {
    variant == "Table"@
}

/// The identifier name of a type: the given rename, else the snake-case form of
/// the type's name.
pub fn derived_table_name(rust_name: &str, rename: Option<String>) -> (r: String)
    ensures
        r@ == match rename {
            Some(x) => x@,
            None => snake_case_of(rust_name@),
        },
{
    match rename {
        Some(x) => x,
        None => to_snake_case(rust_name),
    }
}

/// The identifier name of an enum variant, given the name of its type: the
/// given rename, else the table name for the variant `Table`, else the
/// snake-case form of the variant's name.
pub fn derived_variant_name(table_name: &str, variant: &str, rename: Option<String>) -> (r: String)
    ensures
        r@ == match rename {
            Some(x) => x@,
            None => if is_table_variant(variant@) { table_name@ } else { snake_case_of(variant@) },
        },
{
    match rename {
        Some(x) => x,
        None => {
            let v = variant.to_owned();
            let t = "Table".to_owned();
            if v == t {
                table_name.to_owned()
            } else {
                to_snake_case(variant)
            }
        },
    }
}

} // verus!
