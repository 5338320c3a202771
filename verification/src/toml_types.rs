//! Declarations of the `toml` value types that configuration records carry
//! through unchanged.
use vstd::prelude::*;

verus! {

/// A TOML value (`toml::Value`), carried as an opaque payload.
#[verifier::external_type_specification]
#[verifier::external_body]
pub struct ExTomlValue(toml::Value);

/// A TOML map (`toml::map::Map`), carried as an opaque payload.
#[verifier::external_type_specification]
#[verifier::external_body]
#[verifier::reject_recursive_types(K)]
#[verifier::reject_recursive_types(V)]
pub struct ExTomlMap<K, V>(toml::map::Map<K, V>);

} // verus!

verus! {

/// `Clone::clone` of `toml::map::Map` (a hand-written impl that copies the
/// entries and the map's layout flags). Nothing is stated of the copy: the
/// library only carries such maps through.
pub assume_specification<K: Clone, V: Clone>[<toml::map::Map<K, V> as Clone>::clone](
    map: &toml::map::Map<K, V>,
) -> toml::map::Map<K, V>;

/// `Clone::clone` of `toml::Value` (derived). Nothing is stated of the copy:
/// the library only carries such values through.
pub assume_specification[<toml::Value as Clone>::clone](value: &toml::Value) -> toml::Value;

} // verus!

verus! {

/// A copy of a TOML table (`Clone::clone` of `toml::map::Map<String,
/// toml::Value>`): the copy holds the same keys, values and layout flags, so
/// it is the same table.
#[verifier::external_body]
pub(crate) fn clone_table(t: &toml::map::Map<String, toml::Value>) -> (r: toml::map::Map<
    String,
    toml::Value,
>)
    ensures
        r == *t,
{
    t.clone()
}

} // verus!
