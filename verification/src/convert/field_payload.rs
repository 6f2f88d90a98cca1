//! Converting LF2 fields.

use vstd::prelude::*;

use crate::convert::package_payload::DamlPackagePayload;
use crate::convert::type_payload::{convert_field_with_fuel, spec_convert_field, type_fuel};
use crate::element::types::DamlField;
use crate::error::{result_view, DamlLfConvertResult};
use crate::lf2;

verus! {

/// Convert an LF2 `(name, type)` pair, as used by records, variants and
/// struct types, into an element field.
pub fn convert_field<'a>(proto: &lf2::FieldWithType, package: &DamlPackagePayload<'a>) -> (r: DamlLfConvertResult<
    DamlField,
>)
    ensures
        result_view(r) == spec_convert_field(*proto, *package, type_fuel(*package)),
{
    convert_field_with_fuel(proto, package, package.package.interned_types.len())
}

} // verus!
