//! A Daml-LF archive payload: a language version and an LF2 package.

use vstd::prelude::*;

use crate::convert::interned::{dotted_view, resolve_dotted_in, spec_resolve_dotted};
use crate::lf2;
use crate::text::{join, spec_join};
use crate::version::LanguageVersion;

verus! {

/// The supported Daml-LF package formats. Only LF2 is loaded; the enum leaves
/// room for a later line.
#[derive(Debug)]
pub enum DamlLfPackage {
    V2(lf2::Package),
}

/// A `Daml LF` archive payload (aka "package"): a `language_version` plus
/// the LF2 package.
#[derive(Debug)]
pub struct DamlLfArchivePayload {
    pub language_version: LanguageVersion,
    pub package: DamlLfPackage,
}

/// The LF2 package of a payload.
pub open spec fn lf2_package(payload: DamlLfArchivePayload) -> lf2::Package {
    match payload.package {
        DamlLfPackage::V2(p) => p,
    }
}

/// The dotted name at `index`, with its segments joined by `.`, or `None`
/// when an index on the way is out of bounds.
pub open spec fn spec_decode_dotted_name(package: lf2::Package, index: int) -> Option<Seq<char>> {
    match spec_resolve_dotted(package.interned_strings@, dotted_view(package.interned_dotted_names@), index) {
        Ok(segments) => Some(spec_join(segments, seq!['.'])),
        Err(_) => None,
    }
}

/// The names of the modules of `package` among `modules`, in order,
/// skipping those whose name does not resolve.
pub open spec fn spec_module_names(package: lf2::Package, modules: Seq<lf2::Module>) -> Seq<Seq<char>>
    decreases modules.len(),
{
    if modules.len() == 0 {
        Seq::empty()
    } else {
        let rest = spec_module_names(package, modules.drop_last());
        match spec_decode_dotted_name(package, modules.last().name_interned_dname as int) {
            Some(name) => rest.push(name),
            None => rest,
        }
    }
}

/// Whether some module of `modules` has a dotted name that decodes to `name`.
pub open spec fn spec_has_module(package: lf2::Package, modules: Seq<lf2::Module>, name: Seq<char>) -> bool {
    exists|i: int|
        0 <= i < modules.len() && spec_decode_dotted_name(package, #[trigger] modules[i].name_interned_dname as int)
            == Some(name)
}

proof fn lemma_module_names_contains(package: lf2::Package, modules: Seq<lf2::Module>, name: Seq<char>)
    ensures
        spec_has_module(package, modules, name) <==> spec_module_names(package, modules).contains(name),
    decreases modules.len(),
{
    if modules.len() > 0 {
        let init = modules.drop_last();
        lemma_module_names_contains(package, init, name);
        let rest = spec_module_names(package, init);
        let last = spec_decode_dotted_name(package, modules.last().name_interned_dname as int);
        assert(modules.last() == modules[modules.len() - 1]);
        if spec_has_module(package, modules, name) {
            let i = choose|i: int|
                0 <= i < modules.len() && spec_decode_dotted_name(package, #[trigger] modules[i].name_interned_dname as int)
                    == Some(name);
            if i < modules.len() - 1 {
                assert(init[i] == modules[i]);
                assert(spec_has_module(package, init, name));
                let j = choose|j: int| 0 <= j < rest.len() && rest[j] == name;
                if let Some(n) = last {
                    assert(rest.push(n)[j] == name);
                }
            } else {
                assert(rest.push(name)[rest.len() as int] == name);
            }
        }
        if spec_module_names(package, modules).contains(name) {
            let j = choose|j: int|
                0 <= j < spec_module_names(package, modules).len() && spec_module_names(package, modules)[j] == name;
            match last {
                Some(n) => {
                    if j < rest.len() {
                        assert(rest.push(n)[j] == rest[j]);
                        assert(rest.contains(name));
                        let i = choose|i: int|
                            0 <= i < init.len() && spec_decode_dotted_name(
                                package,
                                #[trigger] init[i].name_interned_dname as int,
                            ) == Some(name);
                        assert(init[i] == modules[i]);
                    } else {
                        assert(n == name);
                    }
                },
                None => {
                    assert(rest.contains(name));
                    let i = choose|i: int|
                        0 <= i < init.len() && spec_decode_dotted_name(
                            package,
                            #[trigger] init[i].name_interned_dname as int,
                        ) == Some(name);
                    assert(init[i] == modules[i]);
                },
            }
        }
    }
}

/// A payload contains a module of a given name exactly when listing the
/// payload's modules gives that name.
pub proof fn law_contains_module_iff_listed(payload: DamlLfArchivePayload, name: Seq<char>)
    ensures
        spec_has_module(lf2_package(payload), lf2_package(payload).modules@, name) <==> spec_module_names(
            lf2_package(payload),
            lf2_package(payload).modules@,
        ).contains(name),
{
    lemma_module_names_contains(lf2_package(payload), lf2_package(payload).modules@, name);
}

impl DamlLfArchivePayload {
    /// Construct from a language version and a package.
    pub fn new(language_version: LanguageVersion, package: DamlLfPackage) -> (payload: Self)
        ensures
            payload.language_version == language_version,
            payload.package == package,
    {
        DamlLfArchivePayload { language_version, package }
    }

    /// Whether the package holds a module named `module` (in dotted form,
    /// e.g. `Foo.Bar.Baz`).
    pub fn contains_module(&self, module: &str) -> (found: bool)
        ensures
            found == spec_has_module(lf2_package(*self), lf2_package(*self).modules@, module@),
    {
        let package = match &self.package {
            DamlLfPackage::V2(package) => package,
        };
        let mut i: usize = 0;
        while i < package.modules.len()
            invariant
                0 <= i <= package.modules.len(),
                *package == lf2_package(*self),
                forall|j: int|
                    0 <= j < i ==> spec_decode_dotted_name(
                        *package,
                        #[trigger] package.modules@[j].name_interned_dname as int,
                    ) != Some(module@),
            decreases package.modules.len() - i,
        {
            match Self::decode_dotted_name(package, package.modules[i].name_interned_dname) {
                Some(name) => {
                    if name.as_str().unicode_len() == module.unicode_len() && str_equal(name.as_str(), module) {
                        return true;
                    }
                },
                None => {},
            }
            i += 1;
        }
        false
    }

    /// Every module name of the package, in dotted form.
    pub fn list_modules(&self) -> (names: Vec<String>)
        ensures
            names@.map_values(|s: String| s@) == spec_module_names(lf2_package(*self), lf2_package(*self).modules@),
    {
        let package = match &self.package {
            DamlLfPackage::V2(package) => package,
        };
        let mut names: Vec<String> = Vec::new();
        let mut i: usize = 0;
        while i < package.modules.len()
            invariant
                0 <= i <= package.modules.len(),
                *package == lf2_package(*self),
                names@.map_values(|s: String| s@) == spec_module_names(*package, package.modules@.take(i as int)),
            decreases package.modules.len() - i,
        {
            assert(package.modules@.take(i + 1).drop_last() =~= package.modules@.take(i as int));
            let ghost before = names@;
            match Self::decode_dotted_name(package, package.modules[i].name_interned_dname) {
                Some(name) => {
                    names.push(name);
                    assert(names@.map_values(|s: String| s@) =~= before.map_values(|s: String| s@).push(
                        names@.last()@,
                    ));
                },
                None => {},
            }
            i += 1;
        }
        assert(package.modules@.take(package.modules.len() as int) =~= package.modules@);
        names
    }

    pub fn language_version(&self) -> (version: &LanguageVersion)
        ensures
            *version == self.language_version,
    {
        &self.language_version
    }

    pub fn package(&self) -> (package: &DamlLfPackage)
        ensures
            *package == self.package,
    {
        &self.package
    }

    /// Resolve a dotted-name index into a `Foo.Bar.Baz` string through the
    /// package's interned-string and dotted-name tables; `None` if an index
    /// is out of bounds.
    fn decode_dotted_name(package: &lf2::Package, index: i32) -> (name: Option<String>)
        ensures
            match name {
                Some(n) => spec_decode_dotted_name(*package, index as int) == Some(n@),
                None => spec_decode_dotted_name(*package, index as int) is None,
            },
    {
        match resolve_dotted_in(package.interned_strings.as_slice(), package.interned_dotted_names.as_slice(), index) {
            Ok(segments) => {
                proof {
                    reveal_strlit(".");
                    assert("."@ =~= seq!['.']);
                }
                Some(join(&segments, "."))
            },
            Err(_) => None,
        }
    }
}

/// Whether two strings of equal length hold the same characters.
pub(crate) fn str_equal(a: &str, b: &str) -> (equal: bool)
    requires
        a@.len() == b@.len(),
    ensures
        equal == (a@ == b@),
{
    let n = a.unicode_len();
    let mut i: usize = 0;
    while i < n
        invariant
            n == a@.len(),
            a@.len() == b@.len(),
            0 <= i <= n,
            forall|j: int| 0 <= j < i ==> a@[j] == b@[j],
        decreases n - i,
    {
        if a.get_char(i) != b.get_char(i) {
            return false;
        }
        i += 1;
    }
    assert(a@ =~= b@);
    true
}

} // verus!
