//! Packages and archives of the element tree, and lookups across them.

use vstd::prelude::*;

use crate::element::data::{DamlData, DataV};
use crate::element::interface::{interface_model, DamlInterface, InterfaceV};
use crate::element::keyed::{find_key, lemma_key_position_absent, lemma_key_position_found};
use crate::element::expr::{DamlDefValue, DamlValueName, DefValueV, ValueNameV};
use crate::element::module::{data_key, interface_key, spec_lookup_path, value_key, DamlModule, ModuleV};
use crate::element::types::{names_view, DamlTyCon, DamlTyConName, TyConNameV};
use crate::text::str_eq;
use crate::version::LanguageVersion;

verus! {

/// A package: its name, id, version, LF version and module tree.
#[derive(Debug)]
pub struct DamlPackage {
    pub name: String,
    pub package_id: String,
    pub version: Option<String>,
    pub language_version: LanguageVersion,
    pub root_module: DamlModule,
}

/// The model of a package.
pub struct PackageV {
    pub name: Seq<char>,
    pub package_id: Seq<char>,
    pub version: Option<Seq<char>>,
    pub language_version: LanguageVersion,
    pub root: ModuleV,
}

impl View for DamlPackage {
    type V = PackageV;

    open spec fn view(&self) -> PackageV {
        PackageV {
            name: self.name@,
            package_id: self.package_id@,
            version: match self.version {
                Some(v) => Some(v@),
                None => None,
            },
            language_version: self.language_version,
            root: self.root_module@,
        }
    }
}

impl DamlPackage {
    pub fn new(
        name: String,
        package_id: String,
        version: Option<String>,
        language_version: LanguageVersion,
        root_module: DamlModule,
    ) -> (package: Self)
        ensures
            package.name == name,
            package.package_id == package_id,
            package.version == version,
            package.language_version == language_version,
            package.root_module == root_module,
    {
        DamlPackage { name, package_id, version, language_version, root_module }
    }

    pub fn name(&self) -> (name: &str)
        ensures
            name@ == self.name@,
    {
        self.name.as_str()
    }

    pub fn package_id(&self) -> (id: &str)
        ensures
            id@ == self.package_id@,
    {
        self.package_id.as_str()
    }

    pub fn version(&self) -> (version: Option<&str>)
        ensures
            match version {
                Some(v) => self.version is Some && v@ == self.version->Some_0@,
                None => self.version is None,
            },
    {
        match &self.version {
            Some(v) => Some(v.as_str()),
            None => None,
        }
    }

    pub fn language_version(&self) -> (version: LanguageVersion)
        ensures
            version == self.language_version,
    {
        self.language_version
    }

    pub fn root_module(&self) -> (root: &DamlModule)
        ensures
            *root == self.root_module,
    {
        &self.root_module
    }
}

/// An archive: its name, the id of its main package, and its packages.
#[derive(Debug)]
pub struct DamlArchive {
    pub name: String,
    pub main_package_id: String,
    pub packages: Vec<DamlPackage>,
}

/// The model of an archive.
pub struct ArchiveV {
    pub name: Seq<char>,
    pub main_package_id: Seq<char>,
    pub packages: Seq<PackageV>,
}

pub open spec fn packages_view(ps: Seq<DamlPackage>) -> Seq<PackageV> {
    ps.map_values(|p: DamlPackage| p@)
}

impl View for DamlArchive {
    type V = ArchiveV;

    open spec fn view(&self) -> ArchiveV {
        ArchiveV { name: self.name@, main_package_id: self.main_package_id@, packages: packages_view(self.packages@) }
    }
}

pub open spec fn package_id_key() -> spec_fn(PackageV) -> Seq<char> {
    |p: PackageV| p.package_id
}

pub open spec fn package_name_key() -> spec_fn(PackageV) -> Seq<char> {
    |p: PackageV| p.name
}

/// The package of `a` with id `package_id`.
pub open spec fn spec_find_package(a: ArchiveV, package_id: Seq<char>) -> Option<PackageV> {
    find_key(a.packages, package_id, package_id_key())
}

/// The module at `path` in the package of `a` with id `package_id`.
pub open spec fn spec_module_at(a: ArchiveV, package_id: Seq<char>, path: Seq<Seq<char>>) -> Option<ModuleV> {
    match spec_find_package(a, package_id) {
        Some(p) => spec_lookup_path(p.root, path),
        None => None,
    }
}

/// The data type named `name` in the module at `path` of package `package_id`.
pub open spec fn spec_data(a: ArchiveV, package_id: Seq<char>, path: Seq<Seq<char>>, name: Seq<char>) -> Option<
    DataV,
> {
    match spec_module_at(a, package_id, path) {
        Some(m) => find_key(m.data, name, data_key()),
        None => None,
    }
}

/// The value named `name` in the module at `path` of package `package_id`.
pub open spec fn spec_value(a: ArchiveV, package_id: Seq<char>, path: Seq<Seq<char>>, name: Seq<char>) -> Option<
    DefValueV,
> {
    match spec_module_at(a, package_id, path) {
        Some(m) => find_key(m.values, name, value_key()),
        None => None,
    }
}

/// The value a value name refers to.
pub open spec fn spec_value_by_name(a: ArchiveV, n: ValueNameV) -> Option<DefValueV> {
    spec_value(a, n.package_id, n.module_segments, n.name)
}

/// The interface named `name` in the module at `path` of package `package_id`.
pub open spec fn spec_interface(a: ArchiveV, package_id: Seq<char>, path: Seq<Seq<char>>, name: Seq<char>) -> Option<
    InterfaceV,
> {
    match spec_module_at(a, package_id, path) {
        Some(m) => find_key(m.interfaces, name, interface_key()),
        None => None,
    }
}

/// The data type a type-constructor name refers to.
pub open spec fn spec_data_by_name(a: ArchiveV, n: TyConNameV) -> Option<DataV> {
    spec_data(a, n.ref_package_id(), n.ref_module_segments(), n.ref_data_name())
}

/// The interface a type-constructor name refers to.
pub open spec fn spec_interface_by_name(a: ArchiveV, n: TyConNameV) -> Option<InterfaceV> {
    spec_interface(a, n.ref_package_id(), n.ref_module_segments(), n.ref_data_name())
}

impl DamlArchive {
    pub fn new(name: String, main_package_id: String, packages: Vec<DamlPackage>) -> (archive: Self)
        ensures
            archive.name == name,
            archive.main_package_id == main_package_id,
            archive.packages == packages,
    {
        DamlArchive { name, main_package_id, packages }
    }

    pub fn name(&self) -> (name: &str)
        ensures
            name@ == self.name@,
    {
        self.name.as_str()
    }

    /// The package id of the main package of this archive.
    pub fn main_package_id(&self) -> (id: &str)
        ensures
            id@ == self.main_package_id@,
    {
        self.main_package_id.as_str()
    }

    /// The packages of this archive.
    pub fn packages(&self) -> (packages: &Vec<DamlPackage>)
        ensures
            *packages == self.packages,
    {
        &self.packages
    }

    /// The package with the given id.
    pub fn package_by_id(&self, package_id: &str) -> (package: Option<&DamlPackage>)
        ensures
            match package {
                Some(p) => spec_find_package(self@, package_id@) == Some(p@),
                None => spec_find_package(self@, package_id@) is None,
            },
    {
        let ghost ps = packages_view(self.packages@);
        let mut i: usize = 0;
        while i < self.packages.len()
            invariant
                0 <= i <= self.packages.len(),
                ps == packages_view(self.packages@),
                ps.len() == self.packages@.len(),
                forall|j: int| 0 <= j < i ==> (package_id_key())(ps[j]) != package_id@,
            decreases self.packages.len() - i,
        {
            if str_eq(self.packages[i].package_id.as_str(), package_id) {
                proof {
                    lemma_key_position_found(ps, package_id@, package_id_key(), i as int);
                }
                return Some(&self.packages[i]);
            }
            i += 1;
        }
        proof {
            lemma_key_position_absent(ps, package_id@, package_id_key());
        }
        None
    }

    /// The first package of this archive with the given name.
    pub fn package_by_name(&self, name: &str) -> (package: Option<&DamlPackage>)
        ensures
            match package {
                Some(p) => find_key(self@.packages, name@, package_name_key()) == Some(p@),
                None => find_key(self@.packages, name@, package_name_key()) is None,
            },
    {
        let ghost ps = packages_view(self.packages@);
        let mut i: usize = 0;
        while i < self.packages.len()
            invariant
                0 <= i <= self.packages.len(),
                ps == packages_view(self.packages@),
                ps.len() == self.packages@.len(),
                forall|j: int| 0 <= j < i ==> (package_name_key())(ps[j]) != name@,
            decreases self.packages.len() - i,
        {
            if str_eq(self.packages[i].name.as_str(), name) {
                proof {
                    lemma_key_position_found(ps, name@, package_name_key(), i as int);
                }
                return Some(&self.packages[i]);
            }
            i += 1;
        }
        proof {
            lemma_key_position_absent(ps, name@, package_name_key());
        }
        None
    }

    /// The main package of this archive.
    pub fn main_package(&self) -> (package: Option<&DamlPackage>)
        ensures
            match package {
                Some(p) => spec_find_package(self@, self@.main_package_id) == Some(p@),
                None => spec_find_package(self@, self@.main_package_id) is None,
            },
    {
        self.package_by_id(self.main_package_id.as_str())
    }

    /// The module at `segments` in the package with id `package_id`.
    pub fn module_at(&self, package_id: &str, segments: &Vec<String>) -> (module: Option<&DamlModule>)
        ensures
            match module {
                Some(m) => spec_module_at(self@, package_id@, names_view(segments@)) == Some(m@),
                None => spec_module_at(self@, package_id@, names_view(segments@)) is None,
            },
    {
        match self.package_by_id(package_id) {
            Some(p) => p.root_module.child_module_path(segments),
            None => None,
        }
    }

    /// The data type named `data_name` in the module at `segments` of the
    /// package with id `package_id`.
    pub fn data(&self, package_id: &str, segments: &Vec<String>, data_name: &str) -> (data: Option<&DamlData>)
        ensures
            match data {
                Some(d) => spec_data(self@, package_id@, names_view(segments@), data_name@) == Some(d@),
                None => spec_data(self@, package_id@, names_view(segments@), data_name@) is None,
            },
    {
        match self.module_at(package_id, segments) {
            Some(m) => m.data_type(data_name),
            None => None,
        }
    }

    /// The value named `name` in the module at `segments` of the package
    /// with id `package_id`.
    pub fn value(&self, package_id: &str, segments: &Vec<String>, name: &str) -> (value: Option<&DamlDefValue>)
        ensures
            match value {
                Some(v) => spec_value(self@, package_id@, names_view(segments@), name@) == Some(v@),
                None => spec_value(self@, package_id@, names_view(segments@), name@) is None,
            },
    {
        match self.module_at(package_id, segments) {
            Some(m) => m.value(name),
            None => None,
        }
    }

    /// The value a value name refers to.
    pub fn value_by_name(&self, name: &DamlValueName) -> (value: Option<&DamlDefValue>)
        ensures
            match value {
                Some(v) => spec_value_by_name(self@, name@) == Some(v@),
                None => spec_value_by_name(self@, name@) is None,
            },
    {
        let (package_id, segments, value_name) = name.reference_parts();
        self.value(package_id, segments, value_name)
    }

    /// The data type a type-constructor name refers to.
    pub fn data_by_tycon_name(&self, tycon_name: &DamlTyConName) -> (data: Option<&DamlData>)
        ensures
            match data {
                Some(d) => spec_data_by_name(self@, tycon_name@) == Some(d@),
                None => spec_data_by_name(self@, tycon_name@) is None,
            },
    {
        let (package_id, segments, data_name) = tycon_name.reference_parts();
        self.data(package_id, segments, data_name)
    }

    /// The data type a type constructor refers to.
    pub fn data_by_tycon(&self, tycon: &DamlTyCon) -> (data: Option<&DamlData>)
        ensures
            match data {
                Some(d) => spec_data_by_name(self@, (*tycon.tycon)@) == Some(d@),
                None => spec_data_by_name(self@, (*tycon.tycon)@) is None,
            },
    {
        self.data_by_tycon_name(&tycon.tycon)
    }

    /// The interface named `name` in the module at `segments` of the
    /// package with id `package_id`.
    pub fn interface(&self, package_id: &str, segments: &Vec<String>, name: &str) -> (interface: Option<
        &DamlInterface,
    >)
        ensures
            match interface {
                Some(i) => spec_interface(self@, package_id@, names_view(segments@), name@) == Some(
                    interface_model(*i),
                ),
                None => spec_interface(self@, package_id@, names_view(segments@), name@) is None,
            },
    {
        match self.module_at(package_id, segments) {
            Some(m) => m.interface(name),
            None => None,
        }
    }

    /// The interface a type-constructor name refers to.
    pub fn interface_by_tycon_name(&self, tycon_name: &DamlTyConName) -> (interface: Option<&DamlInterface>)
        ensures
            match interface {
                Some(i) => spec_interface_by_name(self@, tycon_name@) == Some(interface_model(*i)),
                None => spec_interface_by_name(self@, tycon_name@) is None,
            },
    {
        let (package_id, segments, name) = tycon_name.reference_parts();
        self.interface(package_id, segments, name)
    }
}

} // verus!
