//! Daml-LF language versions.

use std::cmp::Ordering;

use vstd::prelude::*;
use vstd::std_specs::cmp::PartialOrdSpec;

use crate::error::DamlLfError;

verus! {

/// LF2 minor version.
///
/// LF2 started at minor `2.1` (no `2.0` exists). The variants are in
/// ascending order, and versions are ordered as they were released.
#[derive(Debug, Clone, Copy, Hash, PartialEq, Eq, Structural, Ord)]
pub enum LanguageV2MinorVersion {
    V1,
    Dev,
}

/// Daml-LF language version. `Lv2` is the only major-version line.
#[derive(Debug, Clone, Copy, Hash, PartialEq, Eq, Structural, Ord)]
pub enum LanguageVersion {
    Lv2(LanguageV2MinorVersion),
}

/// The place of a minor version in release order.
pub open spec fn minor_rank(minor: LanguageV2MinorVersion) -> int {
    match minor {
        LanguageV2MinorVersion::V1 => 0,
        LanguageV2MinorVersion::Dev => 1,
    }
}

/// The place of a language version in release order.
pub open spec fn version_rank(version: LanguageVersion) -> int {
    match version {
        LanguageVersion::Lv2(minor) => minor_rank(minor),
    }
}

/// Comparing two places in release order.
pub open spec fn rank_order(a: int, b: int) -> Option<Ordering> {
    if a < b {
        Some(Ordering::Less)
    } else if a > b {
        Some(Ordering::Greater)
    } else {
        Some(Ordering::Equal)
    }
}

fn exec_minor_rank(minor: &LanguageV2MinorVersion) -> (rank: u8)
    ensures
        rank == minor_rank(*minor),
{
    match minor {
        LanguageV2MinorVersion::V1 => 0,
        LanguageV2MinorVersion::Dev => 1,
    }
}

fn exec_rank_order(a: u8, b: u8) -> (r: Option<Ordering>)
    ensures
        a < b ==> r == Some(Ordering::Less),
        a > b ==> r == Some(Ordering::Greater),
        a == b ==> r == Some(Ordering::Equal),
{
    if a < b {
        Some(Ordering::Less)
    } else if a > b {
        Some(Ordering::Greater)
    } else {
        Some(Ordering::Equal)
    }
}

impl PartialOrd for LanguageV2MinorVersion {
    fn partial_cmp(&self, other: &Self) -> (r: Option<Ordering>) {
        exec_rank_order(exec_minor_rank(self), exec_minor_rank(other))
    }
}

impl vstd::std_specs::cmp::PartialOrdSpecImpl for LanguageV2MinorVersion {
    open spec fn obeys_partial_cmp_spec() -> bool {
        true
    }

    open spec fn partial_cmp_spec(&self, other: &Self) -> Option<Ordering> {
        rank_order(minor_rank(*self), minor_rank(*other))
    }
}

impl PartialOrd for LanguageVersion {
    fn partial_cmp(&self, other: &Self) -> (r: Option<Ordering>) {
        match (self, other) {
            (LanguageVersion::Lv2(a), LanguageVersion::Lv2(b)) => exec_rank_order(
                exec_minor_rank(a),
                exec_minor_rank(b),
            ),
        }
    }
}

impl vstd::std_specs::cmp::PartialOrdSpecImpl for LanguageVersion {
    open spec fn obeys_partial_cmp_spec() -> bool {
        true
    }

    open spec fn partial_cmp_spec(&self, other: &Self) -> Option<Ordering> {
        rank_order(version_rank(*self), version_rank(*other))
    }
}

/// Language versions of the one major line are ordered as their minor
/// versions are, and `v2.1` comes before `v2.dev`.
pub proof fn law_versions_follow_release_order(a: LanguageV2MinorVersion, b: LanguageV2MinorVersion)
    ensures
        LanguageVersion::Lv2(a).partial_cmp_spec(&LanguageVersion::Lv2(b)) == a.partial_cmp_spec(&b),
        LanguageV2MinorVersion::V1.partial_cmp_spec(&LanguageV2MinorVersion::Dev) == Some(Ordering::Less),
{
}

/// The text of a minor version as it appears after `v2.`.
pub open spec fn spec_minor_text(minor: LanguageV2MinorVersion) -> Seq<char> {
    match minor {
        LanguageV2MinorVersion::V1 => seq!['1'],
        LanguageV2MinorVersion::Dev => seq!['d', 'e', 'v'],
    }
}

/// The text of a language version, e.g. `v2.1`.
pub open spec fn spec_version_text(version: LanguageVersion) -> Seq<char> {
    match version {
        LanguageVersion::Lv2(minor) => seq!['v', '2', '.'] + spec_minor_text(minor),
    }
}

impl LanguageVersion {
    /// LF 2.1, the first stable LF2 minor version.
    #[allow(non_snake_case)]
    pub fn V2_1() -> (version: LanguageVersion)
        ensures
            version == LanguageVersion::Lv2(LanguageV2MinorVersion::V1),
    {
        LanguageVersion::Lv2(LanguageV2MinorVersion::V1)
    }

    /// LF 2.dev, the staging area for the next LF2 minor version.
    #[allow(non_snake_case)]
    pub fn V2_DEV() -> (version: LanguageVersion)
        ensures
            version == LanguageVersion::Lv2(LanguageV2MinorVersion::Dev),
    {
        LanguageVersion::Lv2(LanguageV2MinorVersion::Dev)
    }

    pub fn new_v2(minor: LanguageV2MinorVersion) -> (version: Self)
        ensures
            version == LanguageVersion::Lv2(minor),
    {
        LanguageVersion::Lv2(minor)
    }

    /// Render this version as text, e.g. `v2.1`.
    pub fn to_string(&self) -> (text: String)
        ensures
            text@ == spec_version_text(*self),
    {
        match self {
            LanguageVersion::Lv2(minor) => {
                let mut text = String::from_str("v2.");
                let minor_text = minor.to_string();
                text.append(minor_text.as_str());
                proof {
                    reveal_strlit("v2.");
                }
                text
            },
        }
    }
}

impl LanguageV2MinorVersion {
    /// Render this minor version as text: `1` or `dev`.
    pub fn to_string(&self) -> (text: String)
        ensures
            text@ == spec_minor_text(*self),
    {
        proof {
            reveal_strlit("1");
            reveal_strlit("dev");
        }
        match self {
            LanguageV2MinorVersion::V1 => String::from_str("1"),
            LanguageV2MinorVersion::Dev => String::from_str("dev"),
        }
    }

    /// Parse a minor version from its text; any other text is an unknown
    /// version.
    pub fn try_from(minor_version: &str) -> (result: Result<Self, DamlLfError>)
        ensures
            minor_version@ == seq!['1'] ==> result == Ok::<Self, DamlLfError>(LanguageV2MinorVersion::V1),
            minor_version@ == seq!['d', 'e', 'v'] ==> result == Ok::<Self, DamlLfError>(
                LanguageV2MinorVersion::Dev,
            ),
            minor_version@ != seq!['1'] && minor_version@ != seq!['d', 'e', 'v'] ==> (match result {
                Err(DamlLfError::UnknownVersion(text)) => text@ == minor_version@,
                _ => false,
            }),
    {
        let len = minor_version.unicode_len();
        if len == 1 && minor_version.get_char(0) == '1' {
            assert(minor_version@ =~= seq!['1']);
            Ok(LanguageV2MinorVersion::V1)
        } else if len == 3 && minor_version.get_char(0) == 'd' && minor_version.get_char(1) == 'e'
            && minor_version.get_char(2) == 'v' {
            assert(minor_version@ =~= seq!['d', 'e', 'v']);
            Ok(LanguageV2MinorVersion::Dev)
        } else {
            Err(DamlLfError::UnknownVersion(String::from_str(minor_version)))
        }
    }
}

} // verus!
