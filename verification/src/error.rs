//! Errors of decoding, converting and building Daml-LF packages.

use vstd::prelude::*;

use crate::text::{int_text, spec_int_text};

verus! {

/// A failure to convert an LF2 package into its element tree.
#[derive(Debug)]
pub enum DamlLfConvertError {
    /// A field the LF2 wire format requires is absent or malformed.
    MissingRequiredField,
    /// An interning index is negative or out of range.
    InternalError(String),
    /// A feature of another LF line is used: the version, the feature and the
    /// line it belongs to.
    UnsupportedFeatureUsed(String, String, String),
    /// A reference names a package that is not in the archive.
    UnknownPackage(String),
    /// A reference names a module that is not in its package.
    UnknownModule(String),
    /// A reference names a data type that is not in its module.
    UnknownData(String),
    /// A choice argument that is not a record.
    UnexpectedChoiceData,
    /// A type of the wrong shape: what was expected and what was found.
    UnexpectedType(String, String),
    /// A builtin function number that names no builtin function.
    UnknownBuiltinFunction(i32),
    /// A builtin constructor number that names no constructor.
    UnknownPrimCon(i32),
    /// A rounding-mode number that names no rounding mode.
    UnknownRoundingMode(i32),
}

/// The model of a conversion error.
pub enum ConvertErrorV {
    MissingRequiredField,
    InternalError(Seq<char>),
    UnsupportedFeatureUsed(Seq<char>, Seq<char>, Seq<char>),
    UnknownPackage(Seq<char>),
    UnknownModule(Seq<char>),
    UnknownData(Seq<char>),
    UnexpectedChoiceData,
    UnexpectedType(Seq<char>, Seq<char>),
    UnknownBuiltinFunction(i32),
    UnknownPrimCon(i32),
    UnknownRoundingMode(i32),
}

impl View for DamlLfConvertError {
    type V = ConvertErrorV;

    open spec fn view(&self) -> ConvertErrorV {
        match self {
            DamlLfConvertError::MissingRequiredField => ConvertErrorV::MissingRequiredField,
            DamlLfConvertError::InternalError(m) => ConvertErrorV::InternalError(m@),
            DamlLfConvertError::UnsupportedFeatureUsed(a, b, c) => ConvertErrorV::UnsupportedFeatureUsed(a@, b@, c@),
            DamlLfConvertError::UnknownPackage(m) => ConvertErrorV::UnknownPackage(m@),
            DamlLfConvertError::UnknownModule(m) => ConvertErrorV::UnknownModule(m@),
            DamlLfConvertError::UnknownData(m) => ConvertErrorV::UnknownData(m@),
            DamlLfConvertError::UnexpectedChoiceData => ConvertErrorV::UnexpectedChoiceData,
            DamlLfConvertError::UnexpectedType(a, b) => ConvertErrorV::UnexpectedType(a@, b@),
            DamlLfConvertError::UnknownBuiltinFunction(c) => ConvertErrorV::UnknownBuiltinFunction(*c),
            DamlLfConvertError::UnknownPrimCon(c) => ConvertErrorV::UnknownPrimCon(*c),
            DamlLfConvertError::UnknownRoundingMode(c) => ConvertErrorV::UnknownRoundingMode(*c),
        }
    }
}

/// A failure of this crate.
#[derive(Debug)]
pub enum DamlLfError {
    /// An archive declares a language version this crate does not load.
    UnknownVersion(String),
    /// A package description that cannot be built.
    PackageBuildError(String),
    /// A package that cannot be converted.
    ConvertError(DamlLfConvertError),
}

/// The model of a crate error.
pub enum DamlLfErrorV {
    UnknownVersion(Seq<char>),
    PackageBuildError(Seq<char>),
    ConvertError(ConvertErrorV),
}

impl View for DamlLfError {
    type V = DamlLfErrorV;

    open spec fn view(&self) -> DamlLfErrorV {
        match self {
            DamlLfError::UnknownVersion(m) => DamlLfErrorV::UnknownVersion(m@),
            DamlLfError::PackageBuildError(m) => DamlLfErrorV::PackageBuildError(m@),
            DamlLfError::ConvertError(e) => DamlLfErrorV::ConvertError(e@),
        }
    }
}

pub type DamlLfConvertResult<T> = Result<T, DamlLfConvertError>;

pub type DamlLfResult<T> = Result<T, DamlLfError>;

/// The model of a conversion result.
pub open spec fn result_view<T: View>(r: DamlLfConvertResult<T>) -> Result<T::V, ConvertErrorV> {
    match r {
        Ok(t) => Ok(t@),
        Err(e) => Err(e@),
    }
}

/// The text of the error for a negative index into the table `what`.
pub open spec fn spec_negative_index_text(what: Seq<char>, index: int) -> Seq<char> {
    seq!['n', 'e', 'g', 'a', 't', 'i', 'v', 'e', ' '] + what + seq![' ', 'i', 'n', 'd', 'e', 'x', ' ']
        + spec_int_text(index)
}

/// The text of the error for an index past the end of the table `what`.
pub open spec fn spec_out_of_range_text(what: Seq<char>, index: int) -> Seq<char> {
    what + seq![' ', 'i', 'n', 'd', 'e', 'x', ' '] + spec_int_text(index) + seq![
        ' ',
        'o',
        'u',
        't',
        ' ',
        'o',
        'f',
        ' ',
        'r',
        'a',
        'n',
        'g',
        'e',
    ]
}

/// The error for a negative index into the table `what`.
pub fn negative_index_error(what: &str, index: i64) -> (e: DamlLfConvertError)
    ensures
        e@ == ConvertErrorV::InternalError(spec_negative_index_text(what@, index as int)),
{
    let mut text = String::from_str("negative ");
    text.append(what);
    text.append(" index ");
    let number = int_text(index);
    text.append(number.as_str());
    proof {
        reveal_strlit("negative ");
        reveal_strlit(" index ");
        assert(text@ =~= spec_negative_index_text(what@, index as int));
    }
    DamlLfConvertError::InternalError(text)
}

/// The error for an index past the end of the table `what`.
pub fn out_of_range_error(what: &str, index: i64) -> (e: DamlLfConvertError)
    ensures
        e@ == ConvertErrorV::InternalError(spec_out_of_range_text(what@, index as int)),
{
    let mut text = String::from_str(what);
    text.append(" index ");
    let number = int_text(index);
    text.append(number.as_str());
    text.append(" out of range");
    proof {
        reveal_strlit(" index ");
        reveal_strlit(" out of range");
        assert(text@ =~= spec_out_of_range_text(what@, index as int));
    }
    DamlLfConvertError::InternalError(text)
}

} // verus!

verus! {

/// The text of the error for a package metadata field whose index is out of
/// range.
pub open spec fn spec_metadata_out_of_range_text(field: Seq<char>, index: int) -> Seq<char> {
    seq!['p', 'a', 'c', 'k', 'a', 'g', 'e', ' ', 'm', 'e', 't', 'a', 'd', 'a', 't', 'a', ' '] + field
        + seq![' '] + spec_int_text(index) + seq![
        ' ',
        'o',
        'u',
        't',
        ' ',
        'o',
        'f',
        ' ',
        'r',
        'a',
        'n',
        'g',
        'e',
    ]
}

/// The error for a package metadata field whose index is out of range.
pub fn metadata_out_of_range_error(field: &str, index: i32) -> (e: DamlLfConvertError)
    ensures
        e@ == ConvertErrorV::InternalError(spec_metadata_out_of_range_text(field@, index as int)),
{
    let mut text = String::from_str("package metadata ");
    text.append(field);
    text.append(" ");
    let number = int_text(index as i64);
    text.append(number.as_str());
    text.append(" out of range");
    proof {
        reveal_strlit("package metadata ");
        reveal_strlit(" ");
        reveal_strlit(" out of range");
        assert(text@ =~= spec_metadata_out_of_range_text(field@, index as int));
    }
    DamlLfConvertError::InternalError(text)
}

} // verus!

verus! {

/// The message of a conversion error.
pub open spec fn spec_convert_error_text(e: ConvertErrorV) -> Seq<char> {
    match e {
        ConvertErrorV::MissingRequiredField => "missing required field"@,
        ConvertErrorV::InternalError(m) => "internal error: "@ + m,
        ConvertErrorV::UnsupportedFeatureUsed(version, feature, line) => "unsupported feature "@ + feature
            + " used in version "@ + version + " (requires "@ + line + ")"@,
        ConvertErrorV::UnknownPackage(m) => "unknown package "@ + m,
        ConvertErrorV::UnknownModule(m) => "unknown module "@ + m,
        ConvertErrorV::UnknownData(m) => "unknown data "@ + m,
        ConvertErrorV::UnexpectedChoiceData => "unexpected choice data"@,
        ConvertErrorV::UnexpectedType(expected, found) => "expected type "@ + expected + " but found "@ + found,
        ConvertErrorV::UnknownBuiltinFunction(c) => "unknown builtin function "@ + spec_int_text(c as int),
        ConvertErrorV::UnknownPrimCon(c) => "unknown builtin constructor "@ + spec_int_text(c as int),
        ConvertErrorV::UnknownRoundingMode(c) => "unknown rounding mode "@ + spec_int_text(c as int),
    }
}

/// The message of a crate error.
pub open spec fn spec_lf_error_text(e: DamlLfErrorV) -> Seq<char> {
    match e {
        DamlLfErrorV::UnknownVersion(v) => "unknown Daml-LF version "@ + v,
        DamlLfErrorV::PackageBuildError(m) => "package build error: "@ + m,
        DamlLfErrorV::ConvertError(c) => "conversion error: "@ + spec_convert_error_text(c),
    }
}

fn text_of(prefix: &str, rest: &String) -> (text: String)
    ensures
        text@ == prefix@ + rest@,
{
    let mut text = String::from_str(prefix);
    text.append(rest.as_str());
    text
}

impl DamlLfConvertError {
    /// The message of this error.
    pub fn to_string(&self) -> (text: String)
        ensures
            text@ == spec_convert_error_text(self@),
    {
        match self {
            DamlLfConvertError::MissingRequiredField => String::from_str("missing required field"),
            DamlLfConvertError::InternalError(m) => text_of("internal error: ", m),
            DamlLfConvertError::UnsupportedFeatureUsed(version, feature, line) => {
                let mut text = text_of("unsupported feature ", feature);
                text.append(" used in version ");
                text.append(version.as_str());
                text.append(" (requires ");
                text.append(line.as_str());
                text.append(")");
                text
            },
            DamlLfConvertError::UnknownPackage(m) => text_of("unknown package ", m),
            DamlLfConvertError::UnknownModule(m) => text_of("unknown module ", m),
            DamlLfConvertError::UnknownData(m) => text_of("unknown data ", m),
            DamlLfConvertError::UnexpectedChoiceData => String::from_str("unexpected choice data"),
            DamlLfConvertError::UnexpectedType(expected, found) => {
                let mut text = text_of("expected type ", expected);
                text.append(" but found ");
                text.append(found.as_str());
                text
            },
            DamlLfConvertError::UnknownBuiltinFunction(c) => text_of("unknown builtin function ", &int_text(*c as i64)),
            DamlLfConvertError::UnknownPrimCon(c) => text_of("unknown builtin constructor ", &int_text(*c as i64)),
            DamlLfConvertError::UnknownRoundingMode(c) => text_of("unknown rounding mode ", &int_text(*c as i64)),
        }
    }
}

impl DamlLfError {
    /// The message of this error.
    pub fn to_string(&self) -> (text: String)
        ensures
            text@ == spec_lf_error_text(self@),
    {
        match self {
            DamlLfError::UnknownVersion(v) => text_of("unknown Daml-LF version ", v),
            DamlLfError::PackageBuildError(m) => text_of("package build error: ", m),
            DamlLfError::ConvertError(c) => text_of("conversion error: ", &c.to_string()),
        }
    }
}

} // verus!
