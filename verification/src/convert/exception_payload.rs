//! Converting LF2 exception definitions.

use vstd::prelude::*;

use crate::convert::interned::{spec_resolve_dotted, PackageInternedResolver};
use crate::convert::expr_payload::{convert_req_expr, spec_req_expr};
use crate::convert::package_payload::DamlPackagePayload;
use crate::element::interface::{DamlException, ExceptionV};
use crate::element::types::{copy_names, extend_names, names_view};
use crate::error::{result_view, ConvertErrorV, DamlLfConvertError, DamlLfConvertResult};
use crate::lf2;
use crate::text::{int_text, spec_int_text};

verus! {

/// The text of the error for an exception whose dotted name is empty.
pub open spec fn spec_empty_exception_name_text(index: int) -> Seq<char> {
    "exception name_interned_dname "@ + spec_int_text(index) + " resolves to an empty dotted-name"@
}

/// The element exception of an LF2 one defined in module `module_segments`:
/// the last segment of its dotted name is its name, earlier segments extend
/// the module path, and its message expression is converted.
pub open spec fn spec_convert_exception<'a>(
    proto: lf2::DefException,
    p: DamlPackagePayload<'a>,
    module_segments: Seq<Seq<char>>,
) -> Result<ExceptionV, ConvertErrorV> {
    match spec_resolve_dotted(p.package.interned_strings@, p.spec_dotted(), proto.name_interned_dname as int) {
        Err(e) => Err(e),
        Ok(segments) => if segments.len() == 0 {
            Err(ConvertErrorV::InternalError(spec_empty_exception_name_text(proto.name_interned_dname as int)))
        } else {
            match spec_req_expr(proto.message, p) {
                Err(e) => Err(e),
                Ok(message) => Ok(
                    ExceptionV {
                        name: segments.last(),
                        package_id: p.package_id@,
                        module_segments: module_segments + segments.drop_last(),
                        message,
                    },
                ),
            }
        },
    }
}

/// Convert an LF2 exception definition: its name, location and message.
pub fn convert_exception<'a>(
    proto: &lf2::DefException,
    package: &DamlPackagePayload<'a>,
    module_segments: &[String],
) -> (r: DamlLfConvertResult<DamlException>)
    ensures
        result_view(r) == spec_convert_exception(*proto, *package, names_view(module_segments@)),
{
    let segments = package.resolve_dotted(proto.name_interned_dname)?;
    if segments.len() == 0 {
        let mut text = String::from_str("exception name_interned_dname ");
        let number = int_text(proto.name_interned_dname as i64);
        text.append(number.as_str());
        text.append(" resolves to an empty dotted-name");
        assert(text@ =~= spec_empty_exception_name_text(proto.name_interned_dname as int));
        return Err(DamlLfConvertError::InternalError(text));
    }
    let last = segments.len() - 1;
    let name = segments[last].clone();
    let full_path = extend_names(copy_names(module_segments), &segments, last);
    assert(segments@.take(last as int) =~= segments@.drop_last());
    assert(names_view(segments@).drop_last() =~= names_view(segments@.drop_last()));
    let message = convert_req_expr(&proto.message, package)?;
    Ok(DamlException::new(name, package.package_id.clone(), full_path, message))
}

} // verus!
