//! A borrowed view of an LF2 package: its metadata, its interning tables and
//! its modules.

use vstd::prelude::*;

use crate::archive::DamlLfArchive;
use crate::convert::interned::{dotted_view, PackageInternedResolver};
use crate::convert::module_payload::{spec_module_flags, DamlModulePayload};
use crate::convert::util::Required;
use crate::error::{
    metadata_out_of_range_error, spec_metadata_out_of_range_text, ConvertErrorV, DamlLfConvertError,
    DamlLfConvertResult,
};
use crate::lf2;
use crate::payload::{lf2_package, DamlLfPackage};
use crate::version::LanguageVersion;

verus! {

/// The name recorded for `package_id` in a package-id to package-name table:
/// the first entry with that id.
pub open spec fn spec_table_lookup(table: Seq<(String, String)>, package_id: Seq<char>) -> Option<Seq<char>>
    decreases table.len(),
{
    if table.len() == 0 {
        None
    } else if table[0].0@ == package_id {
        Some(table[0].1@)
    } else {
        spec_table_lookup(table.subrange(1, table.len() as int), package_id)
    }
}

/// Looking an id up in a table finds the entry with that id, when no other
/// entry has it.
pub proof fn lemma_table_lookup_unique(table: Seq<(String, String)>, package_id: Seq<char>, j: int)
    requires
        0 <= j < table.len(),
        table[j].0@ == package_id,
        forall|m: int| 0 <= m < table.len() && m != j ==> (#[trigger] table[m]).0@ != package_id,
    ensures
        spec_table_lookup(table, package_id) == Some(table[j].1@),
    decreases table.len(),
{
    if j > 0 {
        let rest = table.subrange(1, table.len() as int);
        assert forall|m: int| 0 <= m < rest.len() && m != j - 1 implies (#[trigger] rest[m]).0@ != package_id by {
            assert(rest[m] == table[m + 1]);
        }
        assert(rest[j - 1] == table[j]);
        lemma_table_lookup_unique(rest, package_id, j - 1);
    }
}

/// An LF2 package with its metadata resolved.
///
/// Holds a reference into the archive it was made from, whose lifetime bounds
/// its own.
#[derive(Debug)]
pub struct DamlPackagePayload<'a> {
    pub name: String,
    pub version: Option<String>,
    pub language_version: LanguageVersion,
    pub package_id: String,
    pub package: &'a lf2::Package,
    pub modules: Vec<DamlModulePayload<'a>>,
    /// Package id to package name, for every package of the archive this
    /// one belongs to.
    pub pkg_names: Vec<(String, String)>,
}

/// The index named by a metadata field, when it lies in the string table.
pub open spec fn spec_metadata_index_ok(strings: Seq<String>, index: i32) -> bool {
    0 <= index < strings.len()
}

/// What a package's metadata yields: its name and version, or the failure.
pub open spec fn spec_package_metadata(package: lf2::Package) -> Result<(Seq<char>, Seq<char>), ConvertErrorV> {
    match package.metadata {
        None => Err(ConvertErrorV::MissingRequiredField),
        Some(m) => if !spec_metadata_index_ok(package.interned_strings@, m.name_interned_str) {
            Err(
                ConvertErrorV::InternalError(
                    spec_metadata_out_of_range_text(name_field(), m.name_interned_str as int),
                ),
            )
        } else if !spec_metadata_index_ok(package.interned_strings@, m.version_interned_str) {
            Err(
                ConvertErrorV::InternalError(
                    spec_metadata_out_of_range_text(version_field(), m.version_interned_str as int),
                ),
            )
        } else {
            Ok(
                (
                    package.interned_strings@[m.name_interned_str as int]@,
                    package.interned_strings@[m.version_interned_str as int]@,
                ),
            )
        },
    }
}

/// A payload is that of an archive: its metadata, version, id, package and
/// modules are the archive's.
pub open spec fn payload_of_archive<'a>(p: DamlPackagePayload<'a>, dalf: DamlLfArchive) -> bool {
    &&& spec_package_metadata(lf2_package(dalf.payload)) == Ok::<(Seq<char>, Seq<char>), ConvertErrorV>(
        (p.name@, p.version->Some_0@),
    )
    &&& p.version is Some
    &&& p.language_version == dalf.payload.language_version
    &&& p.package_id@ == dalf.hash@
    &&& *p.package == lf2_package(dalf.payload)
    &&& p.modules_match()
}

/// A payload is that of an archive on its own: the archive's, with a name
/// table that lists itself alone.
pub open spec fn payload_of_dalf<'a>(p: DamlPackagePayload<'a>, dalf: DamlLfArchive) -> bool {
    &&& payload_of_archive(p, dalf)
    &&& p.spec_pkg_names().len() == 1
    &&& p.spec_pkg_names()[0].0@ == dalf.hash@
    &&& p.spec_pkg_names()[0].1@ == p.name@
}

pub open spec fn name_field() -> Seq<char> {
    seq!['n', 'a', 'm', 'e', '_', 'i', 'n', 't', 'e', 'r', 'n', 'e', 'd', '_', 's', 't', 'r']
}

pub open spec fn version_field() -> Seq<char> {
    seq!['v', 'e', 'r', 's', 'i', 'o', 'n', '_', 'i', 'n', 't', 'e', 'r', 'n', 'e', 'd', '_', 's', 't', 'r']
}

impl<'a> DamlPackagePayload<'a> {
    /// The modules of this payload are those of its package, in order.
    pub open spec fn modules_match(&self) -> bool {
        &&& self.modules@.len() == self.package.modules@.len()
        &&& forall|i: int|
            0 <= i < self.modules@.len() ==> {
                &&& (#[trigger] self.modules@[i]).module == self.package.modules@[i]
                &&& self.modules@[i].name_index == self.package.modules@[i].name_interned_dname
                &&& self.modules@[i].flags == spec_module_flags(self.package.modules@[i].flags)
            }
    }

    pub open spec fn spec_pkg_names(&self) -> Seq<(String, String)> {
        self.pkg_names@
    }

    /// The package's table of interned expressions, as on the wire (empty in
    /// LF 2.1).
    pub fn interned_exprs_raw(&self) -> (exprs: &'a [lf2::Expr])
        ensures
            exprs@ == self.package.interned_exprs@,
    {
        self.package.interned_exprs.as_slice()
    }

    /// The LF2 type-interning table, referenced by interned types.
    pub fn interned_types_raw(&self) -> (types: &'a [lf2::Type])
        ensures
            types@ == self.package.interned_types@,
    {
        self.package.interned_types.as_slice()
    }

    /// The LF2 kind-interning table, referenced by interned kinds.
    pub fn interned_kinds_raw(&self) -> (kinds: &'a [lf2::Kind])
        ensures
            kinds@ == self.package.interned_kinds@,
    {
        self.package.interned_kinds.as_slice()
    }

    /// The package name recorded for `package_id`, or `None` when it is not a
    /// package of this archive.
    pub fn cross_pkg_name(&self, package_id: &str) -> (name: Option<&String>)
        ensures
            match name {
                Some(n) => spec_table_lookup(self.spec_pkg_names(), package_id@) == Some(n@),
                None => spec_table_lookup(self.spec_pkg_names(), package_id@) is None,
            },
    {
        let mut i: usize = 0;
        assert(self.pkg_names@.subrange(0, self.pkg_names@.len() as int) =~= self.pkg_names@);
        while i < self.pkg_names.len()
            invariant
                0 <= i <= self.pkg_names.len(),
                spec_table_lookup(self.pkg_names@, package_id@) == spec_table_lookup(
                    self.pkg_names@.subrange(i as int, self.pkg_names@.len() as int),
                    package_id@,
                ),
            decreases self.pkg_names.len() - i,
        {
            let ghost rest = self.pkg_names@.subrange(i as int, self.pkg_names@.len() as int);
            assert(rest.subrange(1, rest.len() as int) =~= self.pkg_names@.subrange(
                i + 1,
                self.pkg_names@.len() as int,
            ));
            if self.pkg_names[i].0.as_str().unicode_len() == package_id.unicode_len() && crate::payload::str_equal(
                self.pkg_names[i].0.as_str(),
                package_id,
            ) {
                return Some(&self.pkg_names[i].1);
            }
            i += 1;
        }
        None
    }

    /// Replace this package's package-id to package-name table.
    pub(crate) fn set_pkg_names(&mut self, names: Vec<(String, String)>)
        ensures
            final(self).spec_pkg_names() == names@,
            final(self).name == old(self).name,
            final(self).version == old(self).version,
            final(self).language_version == old(self).language_version,
            final(self).package_id == old(self).package_id,
            final(self).package == old(self).package,
            final(self).modules == old(self).modules,
    {
        self.pkg_names = names;
    }

    /// Decode the LF2 package of an archive: its metadata names the package
    /// and its version, and its table of package names starts with this
    /// package alone.
    pub fn try_from(dalf: &'a DamlLfArchive) -> (r: DamlLfConvertResult<DamlPackagePayload<'a>>)
        ensures
            match r {
                Ok(p) => payload_of_dalf(p, *dalf),
                Err(e) => spec_package_metadata(lf2_package(dalf.payload)) == Err::<
                    (Seq<char>, Seq<char>),
                    ConvertErrorV,
                >(e@),
            },
    {
        let package = match &dalf.payload.package {
            DamlLfPackage::V2(package) => package,
        };
        let language_version = dalf.payload.language_version;
        let package_id = dalf.hash.clone();
        let metadata = match package.metadata.as_ref().req() {
            Ok(m) => m,
            Err(e) => return Err(e),
        };
        let strings = &package.interned_strings;
        if metadata.name_interned_str < 0 || metadata.name_interned_str as usize >= strings.len() {
            proof {
                reveal_strlit("name_interned_str");
                assert("name_interned_str"@ =~= name_field());
            }
            return Err(metadata_out_of_range_error("name_interned_str", metadata.name_interned_str));
        }
        let name = strings[metadata.name_interned_str as usize].clone();
        if metadata.version_interned_str < 0 || metadata.version_interned_str as usize >= strings.len() {
            proof {
                reveal_strlit("version_interned_str");
                assert("version_interned_str"@ =~= version_field());
            }
            return Err(metadata_out_of_range_error("version_interned_str", metadata.version_interned_str));
        }
        let version = strings[metadata.version_interned_str as usize].clone();
        let mut modules: Vec<DamlModulePayload<'a>> = Vec::new();
        let mut i: usize = 0;
        while i < package.modules.len()
            invariant
                0 <= i <= package.modules.len(),
                modules@.len() == i,
                forall|j: int|
                    0 <= j < i ==> {
                        &&& (#[trigger] modules@[j]).module == package.modules@[j]
                        &&& modules@[j].name_index == package.modules@[j].name_interned_dname
                        &&& modules@[j].flags == spec_module_flags(package.modules@[j].flags)
                    },
            decreases package.modules.len() - i,
        {
            modules.push(DamlModulePayload::new(&package.modules[i]));
            i += 1;
        }
        let mut pkg_names: Vec<(String, String)> = Vec::new();
        pkg_names.push((package_id.clone(), name.clone()));
        Ok(DamlPackagePayload {
            name,
            version: Some(version),
            language_version,
            package_id,
            package,
            modules,
            pkg_names,
        })
    }
}

impl<'a> PackageInternedResolver for DamlPackagePayload<'a> {
    open spec fn spec_package_id(&self) -> Seq<char> {
        self.package_id@
    }

    open spec fn spec_language_version(&self) -> LanguageVersion {
        self.language_version
    }

    open spec fn spec_strings(&self) -> Seq<String> {
        self.package.interned_strings@
    }

    open spec fn spec_dotted(&self) -> Seq<Seq<i32>> {
        dotted_view(self.package.interned_dotted_names@)
    }

    fn package_id(&self) -> (id: &str) {
        self.package_id.as_str()
    }

    fn language_version(&self) -> (version: LanguageVersion) {
        self.language_version
    }

    fn interned_strings(&self) -> (strings: &[String]) {
        self.package.interned_strings.as_slice()
    }

    fn interned_dotted_names(&self) -> (names: &[lf2::InternedDottedName]) {
        self.package.interned_dotted_names.as_slice()
    }
}

} // verus!
