//! A set of packages as a ledger lists them, and turning them into archives
//! and a DAR.

use vstd::prelude::*;

use crate::archive::{DamlLfArchive, DamlLfHashFunction, DarEncryptionType, DarFile, DarManifest, DarManifestFormat, DarManifestVersion};
use crate::payload::{lf2_package, spec_decode_dotted_name, DamlLfArchivePayload};
use crate::convert::{apply_dalf, dalf_error, package_of_dalf};
use crate::element::package::{DamlPackage, PackageV};
use crate::element::references::{ids_view, package_references, package_references_of};
use crate::error::{spec_lf_error_text, ConvertErrorV, DamlLfError, DamlLfErrorV, DamlLfResult};
use crate::text::str_eq;

verus! {

/// An error working with a set of packages.
#[derive(Debug)]
pub enum DamlError {
    Other(String),
}

pub enum DamlErrorV {
    Other(Seq<char>),
}

impl View for DamlError {
    type V = DamlErrorV;

    open spec fn view(&self) -> DamlErrorV {
        match self {
            DamlError::Other(m) => DamlErrorV::Other(m@),
        }
    }
}

pub type DamlResult<T> = Result<T, DamlError>;

/// How to name an archive made from a package a ledger lists without a name.
#[derive(Clone, Debug)]
pub enum ArchiveAutoNamingStyle {
    /// Name the archive with an empty string.
    Empty,
    /// Name the archive with its hash.
    Hash,
    /// Name each archive with a random (version 4) UUID, made of the random
    /// bytes given here, one entry per archive in order.
    Uuid(Vec<[u8; 16]>),
}

/// A package as a ledger lists it: its id and its decoded payload.
#[derive(Debug)]
pub struct LedgerPackage {
    pub hash: String,
    pub payload: DamlLfArchivePayload,
}

/// A set of packages, to search and to turn into archives or a DAR.
#[derive(Debug)]
pub struct DamlPackages {
    packages: Vec<LedgerPackage>,
}

/// The lower-case hexadecimal digit of `n`, below 16.
pub open spec fn hex_digit(n: u8) -> char {
    if n < 10 {
        (48 + n) as char
    } else {
        (87 + n) as char
    }
}

/// The lower-case hexadecimal text of `bytes`, two digits per byte.
pub open spec fn hex_text(bytes: Seq<u8>) -> Seq<char>
    decreases bytes.len(),
{
    if bytes.len() == 0 {
        Seq::empty()
    } else {
        seq![hex_digit(bytes[0] / 16), hex_digit(bytes[0] % 16)] + hex_text(bytes.drop_first())
    }
}

/// The bytes of the version 4 UUID made of 16 random bytes: the high half of
/// byte 6 set to the version, 4, and the two high bits of byte 8 to the
/// variant, `10`.
pub open spec fn uuid_v4_bytes(bytes: Seq<u8>) -> Seq<u8> {
    bytes.update(6, (bytes[6] & 0x0f) | 0x40).update(8, (bytes[8] & 0x3f) | 0x80)
}

/// The hyphenated text of the version 4 UUID made of 16 random bytes: the
/// bytes in lower-case hexadecimal, grouped 4, 2, 2, 2 and 6 bytes apart.
pub open spec fn uuid_v4_text(bytes: Seq<u8>) -> Seq<char> {
    let u = uuid_v4_bytes(bytes);
    hex_text(u.subrange(0, 4)) + seq!['-'] + hex_text(u.subrange(4, 6)) + seq!['-'] + hex_text(u.subrange(6, 8))
        + seq!['-'] + hex_text(u.subrange(8, 10)) + seq!['-'] + hex_text(u.subrange(10, 16))
}

/// `uuid::Builder::from_random_bytes` on `bytes`, which sets the version
/// and variant bits, turned into a `Uuid` and written with its `Display`,
/// the lower-case hyphenated form: the text `uuid_v4_text` states.
#[verifier::external_body]
fn uuid_text(bytes: [u8; 16]) -> (text: String)
    ensures
        text@ == uuid_v4_text(bytes@),
        text@.len() == 36,
{
    uuid::Builder::from_random_bytes(bytes).into_uuid().to_string()
}

/// Whether a naming style has random bytes for `count` archives.
pub open spec fn style_covers(style: ArchiveAutoNamingStyle, count: nat) -> bool {
    match style {
        ArchiveAutoNamingStyle::Uuid(random) => random@.len() >= count,
        _ => true,
    }
}

/// Whether a payload has a module of the given dotted name.
pub open spec fn has_module(payload: DamlLfArchivePayload, module: Seq<char>) -> bool {
    exists|i: int|
        0 <= i < lf2_package(payload).modules@.len() && spec_decode_dotted_name(
            lf2_package(payload),
            #[trigger] lf2_package(payload).modules@[i].name_interned_dname as int,
        ) == Some(module)
}

/// The name the `i`th archive, hashed `hash`, gets under a naming style.
pub open spec fn style_name(style: ArchiveAutoNamingStyle, i: int, hash: Seq<char>) -> Seq<char> {
    match style {
        ArchiveAutoNamingStyle::Empty => Seq::empty(),
        ArchiveAutoNamingStyle::Hash => hash,
        ArchiveAutoNamingStyle::Uuid(random) => uuid_v4_text(random@[i]@),
    }
}

/// The names of a list of archives.
pub open spec fn archive_names(archives: Seq<DamlLfArchive>) -> Seq<Seq<char>> {
    archives.map_values(|a: DamlLfArchive| a.name@)
}

pub open spec fn main_absent_text(main_id: Seq<char>, set: Seq<char>) -> Seq<char> {
    "main package "@ + main_id + " not present in "@ + set
}

/// `archives` are `packages` turned into archives, in order: each hashed
/// by its package id, holding its payload, and named by `style`.
pub open spec fn archives_of(
    packages: Seq<LedgerPackage>,
    style: ArchiveAutoNamingStyle,
    archives: Seq<DamlLfArchive>,
) -> bool {
    &&& archives.len() == packages.len()
    &&& forall|i: int|
        0 <= i < archives.len() ==> {
            &&& (#[trigger] archives[i]).hash == packages[i].hash
            &&& archives[i].payload == packages[i].payload
            &&& archives[i].hash_function == DamlLfHashFunction::Sha256
            &&& archives[i].name@ == style_name(style, i, packages[i].hash@)
        }
}

/// `dar` is the DAR of `archives` whose main archive is the first one hashed
/// `main_id`: the last archive takes its place, and the others are its
/// dependencies, named so in an implied manifest.
pub open spec fn dar_from(archives: Seq<DamlLfArchive>, main_id: Seq<char>, dar: DarFile) -> bool {
    exists|i: int|
        0 <= i < archives.len() && (#[trigger] archives[i]).hash@ == main_id && (forall|j: int|
            0 <= j < i ==> #[trigger] archives[j].hash@ != main_id) && dar.main == archives[i]
            && dar.dependencies@ == archives.update(i, archives.last()).drop_last() && dar.manifest.dalf_main@
            == archives[i].name@ && ids_view(dar.manifest.dalf_dependencies@) == archive_names(
            dar.dependencies@,
        ) && dar.manifest.created_by@ == "implied"@ && dar.manifest.version == DarManifestVersion::Unknown
            && dar.manifest.format == DarManifestFormat::DamlLf && dar.manifest.encryption
            == DarEncryptionType::NotEncrypted
}

/// The index of the first archive hashed `id`.
fn position_of_hash(archives: &Vec<DamlLfArchive>, id: &str) -> (i: Option<usize>)
    ensures
        match i {
            Some(i) => i < archives@.len() && archives@[i as int].hash@ == id@ && forall|j: int|
                0 <= j < i ==> #[trigger] archives@[j].hash@ != id@,
            None => forall|j: int| 0 <= j < archives@.len() ==> #[trigger] archives@[j].hash@ != id@,
        },
{
    let mut i: usize = 0;
    while i < archives.len()
        invariant
            0 <= i <= archives.len(),
            forall|j: int| 0 <= j < i ==> #[trigger] archives@[j].hash@ != id@,
        decreases archives.len() - i,
    {
        if str_eq(archives[i].hash.as_str(), id) {
            return Some(i);
        }
        i += 1;
    }
    None
}

impl DamlPackages {
    pub closed spec fn spec_packages(&self) -> Seq<LedgerPackage> {
        self.packages@
    }

    pub fn new(packages: Vec<LedgerPackage>) -> (set: Self)
        ensures
            set.spec_packages() == packages@,
    {
        DamlPackages { packages }
    }

    /// The id of the package to make the main one of a DAR: the given one,
    /// when the set holds it, or the first of the set.
    pub fn resolve_main_id(&self, hint: Option<&str>) -> (r: DamlResult<String>)
        ensures
            match hint {
                Some(id) => match r {
                    Ok(main) => main@ == id@ && exists|i: int|
                        0 <= i < self.spec_packages().len() && (#[trigger] self.spec_packages()[i]).hash@ == id@,
                    Err(e) => e@ == DamlErrorV::Other(main_absent_text(id@, "package set"@)) && forall|i: int|
                        0 <= i < self.spec_packages().len() ==> #[trigger] self.spec_packages()[i].hash@ != id@,
                },
                None => match r {
                    Ok(main) => self.spec_packages().len() > 0 && main@ == self.spec_packages()[0].hash@,
                    Err(e) => e@ == DamlErrorV::Other("expected at least one package"@) && self.spec_packages().len()
                        == 0,
                },
            },
    {
        match hint {
            Some(id) => {
                let mut i: usize = 0;
                while i < self.packages.len()
                    invariant
                        0 <= i <= self.packages.len(),
                        hint == Some(id),
                        forall|j: int| 0 <= j < i ==> #[trigger] self.packages@[j].hash@ != id@,
                    decreases self.packages.len() - i,
                {
                    if str_eq(self.packages[i].hash.as_str(), id) {
                        assert(self.spec_packages()[i as int].hash@ == id@);
                        return Ok(String::from_str(id));
                    }
                    i += 1;
                }
                let mut text = String::from_str("main package ");
                text.append(id);
                text.append(" not present in ");
                text.append("package set");
                Err(DamlError::Other(text))
            },
            None => {
                if self.packages.len() == 0 {
                    Err(DamlError::Other(String::from_str("expected at least one package")))
                } else {
                    Ok(self.packages[0].hash.clone())
                }
            },
        }
    }

    /// The id and payload of each package, in order.
    pub fn into_payloads(self) -> (r: DamlResult<Vec<(String, DamlLfArchivePayload)>>)
        ensures
            match r {
                Ok(v) => v@.len() == self.spec_packages().len() && forall|i: int|
                    0 <= i < v@.len() ==> (#[trigger] v@[i]).0 == self.spec_packages()[i].hash && v@[i].1
                        == self.spec_packages()[i].payload,
                Err(_) => false,
            },
    {
        let ghost all = self.packages@;
        let mut items = self.packages;
        let mut out: Vec<(String, DamlLfArchivePayload)> = Vec::new();
        let mut k: usize = 0;
        let count = items.len();
        while items.len() > 0
            invariant
                k + items@.len() == all.len(),
                all.len() == count,
                items@ == all.skip(k as int),
                out@.len() == k,
                forall|i: int| 0 <= i < k ==> (#[trigger] out@[i]).0 == all[i].hash && out@[i].1 == all[i].payload,
            decreases items@.len(),
        {
            let p = items.remove(0);
            assert(p == all[k as int]);
            out.push((p.hash, p.payload));
            k += 1;
            assert(items@ =~= all.skip(k as int));
        }
        Ok(out)
    }

    /// The id of the first package with a module of the given dotted name.
    pub fn find_module(self, module_name: &str) -> (r: DamlResult<String>)
        ensures
            match r {
                Ok(id) => exists|i: int|
                    0 <= i < self.spec_packages().len() && has_module(
                        #[trigger] self.spec_packages()[i].payload,
                        module_name@,
                    ) && id@ == self.spec_packages()[i].hash@ && forall|j: int|
                        0 <= j < i ==> !has_module(#[trigger] self.spec_packages()[j].payload, module_name@),
                Err(e) => e@ == DamlErrorV::Other("package could not be found"@) && forall|j: int|
                    0 <= j < self.spec_packages().len() ==> !has_module(
                        #[trigger] self.spec_packages()[j].payload,
                        module_name@,
                    ),
            },
    {
        let ghost all = self.spec_packages();
        let payloads = match self.into_payloads() {
            Ok(p) => p,
            Err(e) => return Err(e),
        };
        let mut i: usize = 0;
        while i < payloads.len()
            invariant
                0 <= i <= payloads.len(),
                payloads@.len() == all.len(),
                forall|j: int|
                    0 <= j < payloads@.len() ==> (#[trigger] payloads@[j]).0 == all[j].hash && payloads@[j].1
                        == all[j].payload,
                forall|j: int| 0 <= j < i ==> !has_module(#[trigger] all[j].payload, module_name@),
                all == self.spec_packages(),
            decreases payloads.len() - i,
        {
            if payloads[i].1.contains_module(module_name) {
                assert(has_module(all[i as int].payload, module_name@));
                let id = payloads[i].0.clone();
                assert(id@ == all[i as int].hash@);
                assert(self.spec_packages()[i as int].payload == all[i as int].payload);
                assert(forall|j: int| 0 <= j < i ==> !has_module(#[trigger] self.spec_packages()[j].payload, module_name@));
                return Ok(id);
            }
            i += 1;
        }
        Err(DamlError::Other(String::from_str("package could not be found")))
    }

    /// Turn packages into archives, each named by `auto_naming_style` and
    /// hashed by its package id.
    pub fn packages_to_archives(packages: Vec<LedgerPackage>, auto_naming_style: ArchiveAutoNamingStyle) -> (r:
        DamlResult<Vec<DamlLfArchive>>)
        requires
            style_covers(auto_naming_style, packages@.len()),
        ensures
            match r {
                Ok(v) => archives_of(packages@, auto_naming_style, v@),
                Err(_) => false,
            },
    {
        let ghost all = packages@;
        let mut items = packages;
        let mut out: Vec<DamlLfArchive> = Vec::new();
        let mut k: usize = 0;
        let count = items.len();
        while items.len() > 0
            invariant
                k + items@.len() == all.len(),
                all.len() == count,
                items@ == all.skip(k as int),
                out@.len() == k,
                forall|i: int|
                    0 <= i < k ==> {
                        &&& (#[trigger] out@[i]).hash == all[i].hash
                        &&& out@[i].payload == all[i].payload
                        &&& out@[i].hash_function == DamlLfHashFunction::Sha256
                        &&& out@[i].name@ == style_name(auto_naming_style, i, all[i].hash@)
                    },
                style_covers(auto_naming_style, all.len()),
            decreases items@.len(),
        {
            let p = items.remove(0);
            assert(p == all[k as int]);
            let name = match &auto_naming_style {
                ArchiveAutoNamingStyle::Empty => String::new(),
                ArchiveAutoNamingStyle::Hash => p.hash.clone(),
                ArchiveAutoNamingStyle::Uuid(random) => uuid_text(random[k]),
            };
            let hash = p.hash;
            out.push(DamlLfArchive::new(name, p.payload, DamlLfHashFunction::Sha256, hash));
            k += 1;
            assert(items@ =~= all.skip(k as int));
        }
        Ok(out)
    }

    /// Turn every package into an archive named by `auto_naming_style`.
    pub fn into_archives(self, auto_naming_style: ArchiveAutoNamingStyle) -> (r: DamlResult<Vec<DamlLfArchive>>)
        requires
            style_covers(auto_naming_style, self.spec_packages().len()),
        ensures
            match r {
                Ok(v) => archives_of(self.spec_packages(), auto_naming_style, v@),
                Err(_) => false,
            },
    {
        Self::packages_to_archives(self.packages, auto_naming_style)
    }

    /// Make a DAR of archives: the one hashed `main_id` is the main one, the
    /// last archive takes its place, and the others are its dependencies.
    pub fn archives_to_dar(all_packages: Vec<DamlLfArchive>, main_id: &str) -> (r: DamlResult<DarFile>)
        ensures
            all_packages@.len() == 0 ==> (r matches Err(e) && e@ == DamlErrorV::Other(
                "expected at least one archive"@,
            )),
            all_packages@.len() > 0 ==> match r {
                Ok(dar) => dar_from(all_packages@, main_id@, dar),
                Err(e) => e@ == DamlErrorV::Other(main_absent_text(main_id@, "archive set"@)) && forall|j: int|
                    0 <= j < all_packages@.len() ==> #[trigger] all_packages@[j].hash@ != main_id@,
            },
    {
        if all_packages.len() == 0 {
            return Err(DamlError::Other(String::from_str("expected at least one archive")));
        }
        let i = match position_of_hash(&all_packages, main_id) {
            Some(i) => i,
            None => {
                let mut text = String::from_str("main package ");
                text.append(main_id);
                text.append(" not present in ");
                text.append("archive set");
                return Err(DamlError::Other(text));
            },
        };
        let ghost before = all_packages@;
        let mut rest = all_packages;
        let first = rest.swap_remove(i);
        let mut names: Vec<String> = Vec::new();
        let mut k: usize = 0;
        while k < rest.len()
            invariant
                0 <= k <= rest.len(),
                ids_view(names@) == archive_names(rest@.take(k as int)),
            decreases rest.len() - k,
        {
            let ghost prev = names@;
            names.push(rest[k].name.clone());
            assert(ids_view(names@) =~= ids_view(prev).push(rest@[k as int].name@));
            assert(archive_names(rest@.take(k + 1)) =~= archive_names(rest@.take(k as int)).push(rest@[k as int].name@));
            k += 1;
        }
        assert(rest@.take(k as int) =~= rest@);
        proof {
            reveal_strlit("implied");
        }
        let manifest = DarManifest::new_implied(first.name.clone(), names);
        let dar = DarFile::new(manifest, first, rest);
        assert(before[i as int].hash@ == main_id@);
        assert(dar.main == before[i as int]);
        assert(dar.dependencies@ == before.update(i as int, before.last()).drop_last());
        assert(dar.manifest.dalf_main@ == before[i as int].name@);
        assert(ids_view(dar.manifest.dalf_dependencies@) == archive_names(dar.dependencies@));
        assert(dar.manifest.created_by@ == "implied"@);
        assert(forall|j: int| 0 <= j < i ==> #[trigger] before[j].hash@ != main_id@);
        assert(dar_from(before, main_id@, dar));
        Ok(dar)
    }
}

/// The last archive of `archives` hashed `id`, as a table keyed by id keeps.
pub open spec fn last_archive(archives: Seq<DamlLfArchive>, id: Seq<char>) -> Option<DamlLfArchive>
    decreases archives.len(),
{
    if archives.len() == 0 {
        None
    } else if archives.last().hash@ == id {
        Some(archives.last())
    } else {
        last_archive(archives.drop_last(), id)
    }
}

/// `ids` are the packages the package of `dalf` refers to.
pub open spec fn refs_of(dalf: DamlLfArchive, ids: Seq<Seq<char>>) -> bool {
    exists|pv: PackageV| package_of_dalf(dalf, pv) && ids == package_references(pv)
}

/// `refs` holds, for each id in it, the references of the archive with that
/// id.
pub open spec fn refs_table_ok(archives: Seq<DamlLfArchive>, refs: Map<Seq<char>, Seq<Seq<char>>>) -> bool {
    forall|id: Seq<char>|
        #[trigger] refs.dom().contains(id) ==> (last_archive(archives, id) matches Some(a) && refs_of(a, refs[id]))
}

/// `refs` records `b` among the packages `a` refers to.
pub open spec fn refers(refs: Map<Seq<char>, Seq<Seq<char>>>, a: Seq<char>, b: Seq<char>) -> bool {
    refs.dom().contains(a) && refs[a].contains(b)
}

/// The `k`th of `visited` is referred to by an earlier one.
pub open spec fn referred_before(refs: Map<Seq<char>, Seq<Seq<char>>>, visited: Seq<Seq<char>>, k: int) -> bool {
    exists|j: int| 0 <= j < k && #[trigger] refers(refs, visited[j], visited[k])
}

/// `visited` is what a search from `root` reaches, where `refs` holds the
/// references of each of its ids that has an archive: it starts at `root`,
/// holds no id twice, holds every id one of its ids refers to, and each id
/// after the first is referred to by an earlier one.
pub open spec fn search_result(
    archives: Seq<DamlLfArchive>,
    root: Seq<char>,
    refs: Map<Seq<char>, Seq<Seq<char>>>,
    visited: Seq<Seq<char>>,
) -> bool {
    &&& visited.len() > 0 && visited[0] == root
    &&& visited.no_duplicates()
    &&& refs_table_ok(archives, refs)
    &&& forall|id: Seq<char>| #[trigger] refs.dom().contains(id) ==> visited.contains(id)
    &&& forall|k: int|
        0 <= k < visited.len() ==> (last_archive(archives, #[trigger] visited[k]) is Some <==> refs.dom().contains(
            visited[k],
        ))
    &&& forall|a: Seq<char>, b: Seq<char>| #[trigger] refers(refs, a, b) ==> visited.contains(b)
    &&& forall|k: int| 0 < k < visited.len() ==> #[trigger] referred_before(refs, visited, k)
}

/// `id` is joined to `root` by a chain of at most `n` recorded references.
pub open spec fn reaches(refs: Map<Seq<char>, Seq<Seq<char>>>, root: Seq<char>, id: Seq<char>, n: nat) -> bool
    decreases n,
{
    id == root || (n > 0 && exists|a: Seq<char>| #[trigger] refers(refs, a, id) && reaches(refs, root, a, (n - 1) as nat))
}

proof fn lemma_reached_is_visited(
    archives: Seq<DamlLfArchive>,
    root: Seq<char>,
    refs: Map<Seq<char>, Seq<Seq<char>>>,
    visited: Seq<Seq<char>>,
    id: Seq<char>,
    n: nat,
)
    requires
        search_result(archives, root, refs, visited),
        reaches(refs, root, id, n),
    ensures
        visited.contains(id),
{
    if id == root {
        assert(visited[0] == root);
    } else {
        let a = choose|a: Seq<char>| #[trigger] refers(refs, a, id) && reaches(refs, root, a, (n - 1) as nat);
        assert(refers(refs, a, id));
    }
}

proof fn lemma_visited_is_reached(
    archives: Seq<DamlLfArchive>,
    root: Seq<char>,
    refs: Map<Seq<char>, Seq<Seq<char>>>,
    visited: Seq<Seq<char>>,
    k: int,
)
    requires
        search_result(archives, root, refs, visited),
        0 <= k < visited.len(),
    ensures
        reaches(refs, root, visited[k], k as nat),
    decreases k,
{
    if k > 0 {
        assert(referred_before(refs, visited, k));
        let j = choose|j: int| 0 <= j < k && #[trigger] refers(refs, visited[j], visited[k]);
        lemma_visited_is_reached(archives, root, refs, visited, j);
        lemma_reaches_more(refs, root, visited[j], j as nat, (k - 1) as nat);
        assert(refers(refs, visited[j], visited[k]) && reaches(refs, root, visited[j], (k - 1) as nat));
    }
}

proof fn lemma_reaches_more(refs: Map<Seq<char>, Seq<Seq<char>>>, root: Seq<char>, id: Seq<char>, n: nat, m: nat)
    requires
        reaches(refs, root, id, n),
        n <= m,
    ensures
        reaches(refs, root, id, m),
    decreases n,
{
    if id != root {
        let a = choose|a: Seq<char>| #[trigger] refers(refs, a, id) && reaches(refs, root, a, (n - 1) as nat);
        lemma_reaches_more(refs, root, a, (n - 1) as nat, (m - 1) as nat);
        assert(refers(refs, a, id) && reaches(refs, root, a, (m - 1) as nat));
    }
}

/// A search from `root` visits exactly the ids joined to `root` by a chain
/// of references, where `refs` holds the references of each visited package
/// that has an archive: the packages a DAR keeps when it filters its
/// dependencies are exactly those the main package leads to.
pub proof fn law_search_reaches_exactly(
    archives: Seq<DamlLfArchive>,
    root: Seq<char>,
    refs: Map<Seq<char>, Seq<Seq<char>>>,
    visited: Seq<Seq<char>>,
    id: Seq<char>,
)
    requires
        search_result(archives, root, refs, visited),
    ensures
        visited.contains(id) <==> exists|n: nat| reaches(refs, root, id, n),
{
    if visited.contains(id) {
        let k = choose|k: int| 0 <= k < visited.len() && visited[k] == id;
        lemma_visited_is_reached(archives, root, refs, visited, k);
    }
    if exists|n: nat| reaches(refs, root, id, n) {
        let n = choose|n: nat| reaches(refs, root, id, n);
        lemma_reached_is_visited(archives, root, refs, visited, id, n);
    }
}

/// Whether `ids` holds `id`.
fn contains_id(ids: &Vec<String>, id: &str) -> (found: bool)
    ensures
        found == ids_view(ids@).contains(id@),
{
    let mut i: usize = 0;
    while i < ids.len()
        invariant
            0 <= i <= ids.len(),
            forall|j: int| 0 <= j < i ==> ids_view(ids@)[j] != id@,
        decreases ids.len() - i,
    {
        if str_eq(ids[i].as_str(), id) {
            assert(ids_view(ids@)[i as int] == id@);
            return true;
        }
        i += 1;
    }
    false
}

/// The index of the last archive hashed `id`.
fn last_with_hash(archives: &Vec<DamlLfArchive>, id: &str) -> (i: Option<usize>)
    ensures
        match i {
            Some(i) => i < archives@.len() && last_archive(archives@, id@) == Some(archives@[i as int]),
            None => last_archive(archives@, id@) is None,
        },
{
    let mut i: usize = archives.len();
    assert(archives@.take(i as int) =~= archives@);
    while i > 0
        invariant
            0 <= i <= archives@.len(),
            last_archive(archives@, id@) == last_archive(archives@.take(i as int), id@),
        decreases i,
    {
        i -= 1;
        assert(archives@.take(i + 1).drop_last() =~= archives@.take(i as int));
        assert(archives@.take(i + 1).last() == archives@[i as int]);
        if str_eq(archives[i].hash.as_str(), id) {
            return Some(i);
        }
    }
    None
}

/// The packages a package refers to, converting it on its own.
pub fn collect_referenced_package_ids(dalf: &DamlLfArchive) -> (r: DamlLfResult<Vec<String>>)
    ensures
        match r {
            Ok(ids) => refs_of(*dalf, ids_view(ids@)),
            Err(e) => match e@ {
                DamlLfErrorV::ConvertError(ce) => dalf_error(*dalf, ce),
                _ => false,
            },
        },
{
    let f = |package: &DamlPackage| -> (ids: Vec<String>)
        ensures
            ids_view(ids@) == package_references(package@),
        { package_references_of(package) };
    let r = apply_dalf(dalf, f);
    proof {
        if r is Ok {
            let v = r->Ok_0;
            let p = choose|p: DamlPackage| package_of_dalf(*dalf, p@) && call_ensures(f, (&p,), v);
            assert(package_of_dalf(*dalf, p@) && ids_view(v@) == package_references(p@));
        }
    }
    r
}

/// The last archive with an id is one of the archives.
pub proof fn lemma_last_archive_found(archives: Seq<DamlLfArchive>, id: Seq<char>)
    ensures
        last_archive(archives, id) matches Some(a) ==> exists|j: int|
            0 <= j < archives.len() && archives[j] == a && a.hash@ == id,
    decreases archives.len(),
{
    if archives.len() > 0 && archives.last().hash@ != id {
        lemma_last_archive_found(archives.drop_last(), id);
        if last_archive(archives, id) is Some {
            let j = choose|j: int|
                0 <= j < archives.drop_last().len() && archives.drop_last()[j] == last_archive(archives, id)->Some_0
                    && last_archive(archives, id)->Some_0.hash@ == id;
            assert(archives[j] == archives.drop_last()[j]);
        }
    } else if archives.len() > 0 {
        assert(archives[archives.len() - 1] == archives.last());
    }
}

/// A table of references has no more ids than there are archives.
proof fn lemma_refs_bound(archives: Seq<DamlLfArchive>, refs: Map<Seq<char>, Seq<Seq<char>>>)
    requires
        refs.dom().finite(),
        forall|id: Seq<char>| #[trigger] refs.dom().contains(id) ==> last_archive(archives, id) is Some,
    ensures
        refs.dom().len() <= archives.len(),
{
    let hashes = archives.map_values(|a: DamlLfArchive| a.hash@);
    assert forall|id: Seq<char>| #[trigger] refs.dom().contains(id) implies hashes.to_set().contains(id) by {
        lemma_last_archive_found(archives, id);
        let j = choose|j: int| 0 <= j < archives.len() && archives[j] == last_archive(archives, id)->Some_0 && last_archive(archives, id)->Some_0.hash@ == id;
        assert(hashes[j] == id);
    }
    vstd::set_lib::lemma_len_subset(refs.dom(), hashes.to_set());
    hashes.lemma_cardinality_of_set();
}


/// `x` stands in `queue` at `from` or later.
pub open spec fn queued(queue: Seq<Seq<char>>, from: int, x: Seq<char>) -> bool {
    exists|q: int| from <= q < queue.len() && #[trigger] queue[q] == x
}

/// Append to `queue` each of `ids` that `visited` does not hold.
fn push_unvisited(queue: &mut Vec<String>, ids: &Vec<String>, visited: &Vec<String>)
    ensures
        final(queue)@.len() >= old(queue)@.len(),
        forall|q: int| 0 <= q < old(queue)@.len() ==> #[trigger] final(queue)@[q] == old(queue)@[q],
        forall|q: int|
            old(queue)@.len() <= q < final(queue)@.len() ==> ids_view(ids@).contains(
                #[trigger] ids_view(final(queue)@)[q],
            ),
        forall|t: int|
            0 <= t < ids@.len() ==> ids_view(visited@).contains(#[trigger] ids_view(ids@)[t]) || queued(
                ids_view(final(queue)@),
                old(queue)@.len() as int,
                ids_view(ids@)[t],
            ),
{
    let ghost start = queue@;
    let mut t: usize = 0;
    while t < ids.len()
        invariant
            0 <= t <= ids.len(),
            queue@.len() >= start.len(),
            forall|q: int| 0 <= q < start.len() ==> #[trigger] queue@[q] == start[q],
            forall|q: int|
                start.len() <= q < queue@.len() ==> ids_view(ids@).contains(#[trigger] ids_view(queue@)[q]),
            forall|u: int|
                0 <= u < t ==> ids_view(visited@).contains(#[trigger] ids_view(ids@)[u]) || queued(
                    ids_view(queue@),
                    start.len() as int,
                    ids_view(ids@)[u],
                ),
        decreases ids.len() - t,
    {
        if !contains_id(visited, ids[t].as_str()) {
            let ghost before = queue@;
            queue.push(ids[t].clone());
            assert(ids_view(queue@)[queue@.len() - 1] == ids_view(ids@)[t as int]);
            assert forall|u: int| 0 <= u <= t implies ids_view(visited@).contains(#[trigger] ids_view(ids@)[u])
                || queued(ids_view(queue@), start.len() as int, ids_view(ids@)[u]) by {
                if u < t {
                    if !ids_view(visited@).contains(ids_view(ids@)[u]) {
                        let q = choose|q: int|
                            start.len() <= q < before.len() && #[trigger] ids_view(before)[q] == ids_view(ids@)[u];
                        assert(ids_view(queue@)[q] == ids_view(before)[q]);
                    }
                } else {
                    assert(ids_view(queue@)[queue@.len() - 1] == ids_view(ids@)[u]);
                }
            }
            assert forall|q: int| start.len() <= q < queue@.len() implies ids_view(ids@).contains(
                #[trigger] ids_view(queue@)[q],
            ) by {
                if q < before.len() {
                    assert(ids_view(queue@)[q] == ids_view(before)[q]);
                } else {
                    assert(ids_view(ids@)[t as int] == ids_view(queue@)[q]);
                }
            }
        }
        t += 1;
    }
}

/// The queue starts at `root`, and the visited ids do once anything was
/// taken off it.
#[verifier::opaque]
spec fn search_start(root: Seq<char>, visited: Seq<Seq<char>>, queue: Seq<Seq<char>>, head: int) -> bool {
    &&& 0 <= head <= queue.len()
    &&& queue.len() > 0 && queue[0] == root
    &&& head == 0 ==> visited.len() == 0
    &&& head > 0 ==> visited.len() > 0 && visited[0] == root
}

/// The references are those of the visited ids with an archive.
#[verifier::opaque]
spec fn search_table(
    arch: Seq<DamlLfArchive>,
    refs: Map<Seq<char>, Seq<Seq<char>>>,
    visited: Seq<Seq<char>>,
) -> bool {
    &&& refs.dom().finite()
    &&& refs_table_ok(arch, refs)
    &&& forall|id: Seq<char>| #[trigger] refs.dom().contains(id) ==> visited.contains(id)
    &&& forall|k: int|
        0 <= k < visited.len() ==> (last_archive(arch, #[trigger] visited[k]) is Some <==> refs.dom().contains(
            visited[k],
        ))
}

/// Every id a visited one refers to is visited or still queued.
#[verifier::opaque]
spec fn search_closed(
    refs: Map<Seq<char>, Seq<Seq<char>>>,
    visited: Seq<Seq<char>>,
    queue: Seq<Seq<char>>,
    head: int,
) -> bool {
    forall|a: Seq<char>, b: Seq<char>| #[trigger] refers(refs, a, b) ==> visited.contains(b) || queued(queue, head, b)
}

/// Each visited id after the first is referred to by an earlier one.
#[verifier::opaque]
spec fn search_visited_found(refs: Map<Seq<char>, Seq<Seq<char>>>, visited: Seq<Seq<char>>) -> bool {
    forall|k: int| 0 < k < visited.len() ==> #[trigger] referred_before(refs, visited, k)
}

/// `x` is referred to by one of `visited`.
spec fn referred_by(refs: Map<Seq<char>, Seq<Seq<char>>>, visited: Seq<Seq<char>>, x: Seq<char>) -> bool {
    exists|j: int| 0 <= j < visited.len() && #[trigger] refers(refs, visited[j], x)
}

/// Each queued id after the first is referred to by a visited one.
#[verifier::opaque]
spec fn search_queue_found(
    refs: Map<Seq<char>, Seq<Seq<char>>>,
    visited: Seq<Seq<char>>,
    queue: Seq<Seq<char>>,
) -> bool {
    forall|q: int| 0 < q < queue.len() ==> #[trigger] referred_by(refs, visited, queue[q])
}

/// The state of a search from `root`: the ids visited, in order, the queue
/// of ids to visit from `head` on, and the references of the visited ids
/// with an archive.
spec fn search_state(
    arch: Seq<DamlLfArchive>,
    root: Seq<char>,
    refs: Map<Seq<char>, Seq<Seq<char>>>,
    visited: Seq<Seq<char>>,
    queue: Seq<Seq<char>>,
    head: int,
) -> bool {
    &&& search_start(root, visited, queue, head)
    &&& visited.no_duplicates()
    &&& search_table(arch, refs, visited)
    &&& search_closed(refs, visited, queue, head)
    &&& search_visited_found(refs, visited)
    &&& search_queue_found(refs, visited, queue)
}

/// Visiting `queue[head]`, not visited yet: `ids` are its references where
/// it has an archive, and `queue2` is `queue` with those of them not visited
/// appended.
spec fn visit_step(
    arch: Seq<DamlLfArchive>,
    visited: Seq<Seq<char>>,
    queue: Seq<Seq<char>>,
    head: int,
    ids: Seq<Seq<char>>,
    queue2: Seq<Seq<char>>,
) -> bool {
    &&& 0 <= head < queue.len()
    &&& !visited.contains(queue[head])
    &&& (last_archive(arch, queue[head]) matches Some(a) ==> refs_of(a, ids))
    &&& (last_archive(arch, queue[head]) is None ==> ids.len() == 0)
    &&& queue2.len() >= queue.len()
    &&& forall|q: int| 0 <= q < queue.len() ==> #[trigger] queue2[q] == queue[q]
    &&& forall|q: int| queue.len() <= q < queue2.len() ==> ids.contains(#[trigger] queue2[q])
    &&& forall|t: int|
        0 <= t < ids.len() ==> visited.push(queue[head]).contains(#[trigger] ids[t]) || queued(
            queue2,
            queue.len() as int,
            ids[t],
        )
}

/// The references after visiting `x`.
spec fn step_refs(
    arch: Seq<DamlLfArchive>,
    refs: Map<Seq<char>, Seq<Seq<char>>>,
    x: Seq<char>,
    ids: Seq<Seq<char>>,
) -> Map<Seq<char>, Seq<Seq<char>>> {
    if last_archive(arch, x) is Some {
        refs.insert(x, ids)
    } else {
        refs
    }
}

proof fn lemma_search_init(arch: Seq<DamlLfArchive>, root: Seq<char>)
    ensures
        search_state(arch, root, Map::empty(), Seq::empty(), seq![root], 0),
{
    reveal(search_start);
    reveal(search_table);
    reveal(search_closed);
    reveal(search_visited_found);
    reveal(search_queue_found);
}

/// The state bounds the number of ids with references.
proof fn lemma_search_bound(
    arch: Seq<DamlLfArchive>,
    root: Seq<char>,
    refs: Map<Seq<char>, Seq<Seq<char>>>,
    visited: Seq<Seq<char>>,
    queue: Seq<Seq<char>>,
    head: int,
)
    requires
        search_state(arch, root, refs, visited, queue, head),
    ensures
        refs.dom().finite(),
        refs.dom().len() <= arch.len(),
        0 <= head <= queue.len(),
        forall|id: Seq<char>| #[trigger] refs.dom().contains(id) ==> visited.contains(id),
{
    reveal(search_start);
    reveal(search_table);
    assert forall|id: Seq<char>| #[trigger] refs.dom().contains(id) implies last_archive(arch, id) is Some by {}
    lemma_refs_bound(arch, refs);
}

/// Taking an id already visited off the queue.
proof fn lemma_search_skip(
    arch: Seq<DamlLfArchive>,
    root: Seq<char>,
    refs: Map<Seq<char>, Seq<Seq<char>>>,
    visited: Seq<Seq<char>>,
    queue: Seq<Seq<char>>,
    head: int,
)
    requires
        search_state(arch, root, refs, visited, queue, head),
        head < queue.len(),
        visited.contains(queue[head]),
    ensures
        search_state(arch, root, refs, visited, queue, head + 1),
{
    assert(search_start(root, visited, queue, head + 1)) by {
        reveal(search_start);
        assert(visited.len() > 0);
    }
    assert(search_closed(refs, visited, queue, head + 1)) by {
        reveal(search_closed);
        assert forall|a: Seq<char>, b: Seq<char>| #[trigger] refers(refs, a, b) implies visited.contains(b) || queued(
            queue,
            head + 1,
            b,
        ) by {
            if !visited.contains(b) {
                let q = choose|q: int| head <= q < queue.len() && #[trigger] queue[q] == b;
                assert(q != head);
            }
        }
    }
}

/// Appending a new id keeps a list without duplicates.
proof fn lemma_push_no_duplicates(visited: Seq<Seq<char>>, x: Seq<char>)
    requires
        visited.no_duplicates(),
        !visited.contains(x),
    ensures
        visited.push(x).no_duplicates(),
{
    let v2 = visited.push(x);
    assert forall|a: int, b: int| 0 <= a < v2.len() && 0 <= b < v2.len() && a != b implies v2[a] != v2[b] by {
        if a == visited.len() {
            assert(v2[b] == visited[b]);
            assert(visited.contains(visited[b]));
        } else if b == visited.len() {
            assert(v2[a] == visited[a]);
            assert(visited.contains(visited[a]));
        } else {
            assert(v2[a] == visited[a] && v2[b] == visited[b]);
        }
    }
}

/// What `refs` records survives a visit.
proof fn lemma_step_keeps(
    arch: Seq<DamlLfArchive>,
    refs: Map<Seq<char>, Seq<Seq<char>>>,
    x: Seq<char>,
    ids: Seq<Seq<char>>,
)
    requires
        !refs.dom().contains(x),
    ensures
        forall|a: Seq<char>, b: Seq<char>| #[trigger] refers(refs, a, b) ==> refers(step_refs(arch, refs, x, ids), a, b),
        forall|a: Seq<char>, b: Seq<char>|
            #[trigger] refers(step_refs(arch, refs, x, ids), a, b) ==> refers(refs, a, b) || (a == x && ids.contains(b)),
{
}

proof fn lemma_visit_start(
    root: Seq<char>,
    visited: Seq<Seq<char>>,
    queue: Seq<Seq<char>>,
    head: int,
    queue2: Seq<Seq<char>>,
)
    requires
        search_start(root, visited, queue, head),
        head < queue.len(),
        queue2.len() >= queue.len(),
        forall|q: int| 0 <= q < queue.len() ==> #[trigger] queue2[q] == queue[q],
    ensures
        search_start(root, visited.push(queue[head]), queue2, head + 1),
{
    reveal(search_start);
    assert(queue2[0] == queue[0]);
}

proof fn lemma_visit_table(
    arch: Seq<DamlLfArchive>,
    refs: Map<Seq<char>, Seq<Seq<char>>>,
    visited: Seq<Seq<char>>,
    queue: Seq<Seq<char>>,
    head: int,
    ids: Seq<Seq<char>>,
    queue2: Seq<Seq<char>>,
)
    requires
        search_table(arch, refs, visited),
        visit_step(arch, visited, queue, head, ids, queue2),
    ensures
        search_table(arch, step_refs(arch, refs, queue[head], ids), visited.push(queue[head])),
        !refs.dom().contains(queue[head]),
{
    reveal(search_table);
    let x = queue[head];
    let v2 = visited.push(x);
    let r2 = step_refs(arch, refs, x, ids);
    assert forall|id: Seq<char>| #[trigger] r2.dom().contains(id) implies v2.contains(id) by {
        if id != x {
            let k = choose|k: int| 0 <= k < visited.len() && visited[k] == id;
            assert(v2[k] == id);
        } else {
            assert(v2[visited.len() as int] == x);
        }
    }
    assert forall|id: Seq<char>| #[trigger] r2.dom().contains(id) implies (last_archive(arch, id) matches Some(a)
        && refs_of(a, r2[id])) by {
        if id != x {
            assert(refs.dom().contains(id));
        }
    }
    assert forall|k: int| 0 <= k < v2.len() implies (last_archive(arch, #[trigger] v2[k]) is Some
        <==> r2.dom().contains(v2[k])) by {
        if k < visited.len() {
            assert(v2[k] == visited[k]);
            assert(visited.contains(visited[k]));
        }
    }
}

proof fn lemma_visit_closed(
    arch: Seq<DamlLfArchive>,
    refs: Map<Seq<char>, Seq<Seq<char>>>,
    visited: Seq<Seq<char>>,
    queue: Seq<Seq<char>>,
    head: int,
    ids: Seq<Seq<char>>,
    queue2: Seq<Seq<char>>,
)
    requires
        search_closed(refs, visited, queue, head),
        visit_step(arch, visited, queue, head, ids, queue2),
        !refs.dom().contains(queue[head]),
    ensures
        search_closed(step_refs(arch, refs, queue[head], ids), visited.push(queue[head]), queue2, head + 1),
{
    reveal(search_closed);
    let x = queue[head];
    let v2 = visited.push(x);
    let r2 = step_refs(arch, refs, x, ids);
    lemma_step_keeps(arch, refs, x, ids);
    assert forall|a: Seq<char>, b: Seq<char>| #[trigger] refers(r2, a, b) implies v2.contains(b) || queued(
        queue2,
        head + 1,
        b,
    ) by {
        if refers(refs, a, b) {
            if visited.contains(b) {
                let i = choose|i: int| 0 <= i < visited.len() && visited[i] == b;
                assert(v2[i] == b);
            } else {
                let q = choose|q: int| head <= q < queue.len() && #[trigger] queue[q] == b;
                if q == head {
                    assert(v2[visited.len() as int] == b);
                } else {
                    assert(queue2[q] == b);
                }
            }
        } else {
            let t = choose|t: int| 0 <= t < ids.len() && ids[t] == b;
            if !v2.contains(ids[t]) {
                let q = choose|q: int| queue.len() <= q < queue2.len() && #[trigger] queue2[q] == ids[t];
                assert(head + 1 <= q);
            }
        }
    }
}

proof fn lemma_visit_found(
    arch: Seq<DamlLfArchive>,
    root: Seq<char>,
    refs: Map<Seq<char>, Seq<Seq<char>>>,
    visited: Seq<Seq<char>>,
    queue: Seq<Seq<char>>,
    head: int,
    ids: Seq<Seq<char>>,
    queue2: Seq<Seq<char>>,
)
    requires
        search_start(root, visited, queue, head),
        search_visited_found(refs, visited),
        search_queue_found(refs, visited, queue),
        visit_step(arch, visited, queue, head, ids, queue2),
        !refs.dom().contains(queue[head]),
    ensures
        search_visited_found(step_refs(arch, refs, queue[head], ids), visited.push(queue[head])),
        search_queue_found(step_refs(arch, refs, queue[head], ids), visited.push(queue[head]), queue2),
{
    reveal(search_visited_found);
    reveal(search_queue_found);
    reveal(search_start);
    let x = queue[head];
    let v2 = visited.push(x);
    let r2 = step_refs(arch, refs, x, ids);
    let n = visited.len() as int;
    lemma_step_keeps(arch, refs, x, ids);
    assert forall|k: int| 0 < k < v2.len() implies #[trigger] referred_before(r2, v2, k) by {
        if k < n {
            assert(referred_before(refs, visited, k));
            let j = choose|j: int| 0 <= j < k && #[trigger] refers(refs, visited[j], visited[k]);
            assert(v2[j] == visited[j] && v2[k] == visited[k]);
            assert(refers(r2, v2[j], v2[k]));
        } else {
            assert(head > 0);
            assert(referred_by(refs, visited, queue[head]));
            let j = choose|j: int| 0 <= j < n && #[trigger] refers(refs, visited[j], queue[head]);
            assert(v2[j] == visited[j] && v2[k] == x);
            assert(refers(r2, v2[j], v2[k]));
        }
    }
    assert forall|q: int| 0 < q < queue2.len() implies #[trigger] referred_by(r2, v2, queue2[q]) by {
        if q < queue.len() {
            assert(queue2[q] == queue[q]);
            assert(referred_by(refs, visited, queue[q]));
            let j = choose|j: int| 0 <= j < n && #[trigger] refers(refs, visited[j], queue[q]);
            assert(v2[j] == visited[j]);
            assert(refers(r2, v2[j], queue2[q]));
        } else {
            assert(ids.contains(queue2[q]));
            assert(last_archive(arch, x) is Some);
            assert(v2[n] == x);
            assert(refers(r2, v2[n], queue2[q]));
        }
    }
}

/// Visiting an id off the queue that was not visited yet.
proof fn lemma_search_visit(
    arch: Seq<DamlLfArchive>,
    root: Seq<char>,
    refs: Map<Seq<char>, Seq<Seq<char>>>,
    visited: Seq<Seq<char>>,
    queue: Seq<Seq<char>>,
    head: int,
    ids: Seq<Seq<char>>,
    queue2: Seq<Seq<char>>,
)
    requires
        search_state(arch, root, refs, visited, queue, head),
        visit_step(arch, visited, queue, head, ids, queue2),
    ensures
        search_state(
            arch,
            root,
            step_refs(arch, refs, queue[head], ids),
            visited.push(queue[head]),
            queue2,
            head + 1,
        ),
        !refs.dom().contains(queue[head]),
{
    lemma_push_no_duplicates(visited, queue[head]);
    lemma_visit_start(root, visited, queue, head, queue2);
    lemma_visit_table(arch, refs, visited, queue, head, ids, queue2);
    lemma_visit_closed(arch, refs, visited, queue, head, ids, queue2);
    lemma_visit_found(arch, root, refs, visited, queue, head, ids, queue2);
}

/// A search with nothing left to visit has found what it reaches.
proof fn lemma_search_done(
    arch: Seq<DamlLfArchive>,
    root: Seq<char>,
    refs: Map<Seq<char>, Seq<Seq<char>>>,
    visited: Seq<Seq<char>>,
    queue: Seq<Seq<char>>,
    head: int,
)
    requires
        search_state(arch, root, refs, visited, queue, head),
        head == queue.len(),
    ensures
        search_result(arch, root, refs, visited),
{
    reveal(search_start);
    reveal(search_table);
    reveal(search_closed);
    reveal(search_visited_found);
}

impl DamlPackages {
    /// The ids reachable from `root`: a breadth-first search through the
    /// packages each archive refers to, an id standing for the last archive
    /// with that hash. Ids without an archive are kept but not followed.
    #[verifier::spinoff_prover]
    pub fn reachable_from(root: &str, archives: &Vec<DamlLfArchive>) -> (r: DamlResult<Vec<String>>)
        ensures
            match r {
                Ok(visited) => exists|refs: Map<Seq<char>, Seq<Seq<char>>>|
                    #[trigger] search_result(archives@, root@, refs, ids_view(visited@)),
                Err(e) => exists|j: int, ce: ConvertErrorV|
                    0 <= j < archives@.len() && #[trigger] dalf_error(archives@[j], ce) && e@ == DamlErrorV::Other(
                        spec_lf_error_text(DamlLfErrorV::ConvertError(ce)),
                    ),
            },
    {
        let ghost arch = archives@;
        let mut visited: Vec<String> = Vec::new();
        let mut queue: Vec<String> = Vec::new();
        queue.push(String::from_str(root));
        let ghost mut refs: Map<Seq<char>, Seq<Seq<char>>> = Map::empty();
        let mut head: usize = 0;
        proof {
            lemma_search_init(arch, root@);
            assert(ids_view(queue@) =~= seq![root@]);
            assert(ids_view(visited@) =~= Seq::<Seq<char>>::empty());
        }
        while head < queue.len()
            invariant
                arch == archives@,
                search_state(arch, root@, refs, ids_view(visited@), ids_view(queue@), head as int),
            decreases archives@.len() - refs.dom().len(), queue@.len() - head,
        {
            proof {
                lemma_search_bound(arch, root@, refs, ids_view(visited@), ids_view(queue@), head as int);
            }
            let id = queue[head].clone();
            let ghost old_head = head as int;
            let ghost old_visited = ids_view(visited@);
            let ghost old_queue = ids_view(queue@);
            assert(id@ == old_queue[old_head]);
            head += 1;
            if contains_id(&visited, id.as_str()) {
                proof {
                    lemma_search_skip(arch, root@, refs, old_visited, old_queue, old_head);
                }
                continue;
            }
            visited.push(id.clone());
            assert(ids_view(visited@) =~= old_visited.push(id@));
            match last_with_hash(archives, id.as_str()) {
                None => {
                    proof {
                        let ghost none: Seq<Seq<char>> = Seq::empty();
                        lemma_search_visit(arch, root@, refs, old_visited, old_queue, old_head, none, old_queue);
                    }
                },
                Some(j) => {
                    let ids = match collect_referenced_package_ids(&archives[j]) {
                        Ok(v) => v,
                        Err(e) => {
                            let text = e.to_string();
                            proof {
                                let ce = e@->ConvertError_0;
                                assert(dalf_error(archives@[j as int], ce));
                            }
                            return Err(DamlError::Other(text));
                        },
                    };
                    push_unvisited(&mut queue, &ids, &visited);
                    proof {
                        lemma_search_visit(
                            arch,
                            root@,
                            refs,
                            old_visited,
                            old_queue,
                            old_head,
                            ids_view(ids@),
                            ids_view(queue@),
                        );
                        let old_len = refs.dom().len();
                        refs = refs.insert(id@, ids_view(ids@));
                        assert(refs.dom().len() == old_len + 1);
                        lemma_search_bound(arch, root@, refs, ids_view(visited@), ids_view(queue@), head as int);
                    }
                },
            }
        }
        proof {
            lemma_search_bound(arch, root@, refs, ids_view(visited@), ids_view(queue@), head as int);
            lemma_search_done(arch, root@, refs, ids_view(visited@), ids_view(queue@), head as int);
        }
        let ghost found = ids_view(visited@);
        let res: DamlResult<Vec<String>> = Ok(visited);
        assert(search_result(archives@, root@, refs, ids_view(res->Ok_0@))) by {
            assert(ids_view(res->Ok_0@) == found);
        }
        res
    }
}

/// Archives whose hash is one of `reached`.
pub open spec fn reached_pred(reached: Seq<Seq<char>>) -> spec_fn(DamlLfArchive) -> bool {
    |a: DamlLfArchive| reached.contains(a.hash@)
}

/// The archives, in order, whose hash is one of `reached`.
fn keep_reached(archives: Vec<DamlLfArchive>, reached: &Vec<String>) -> (kept: Vec<DamlLfArchive>)
    ensures
        kept@ == archives@.filter(reached_pred(ids_view(reached@))),
{
    let ghost all = archives@;
    let ghost pred = reached_pred(ids_view(reached@));
    let mut items = archives;
    let mut kept: Vec<DamlLfArchive> = Vec::new();
    let mut k: usize = 0;
    let count = items.len();
    assert(all.take(0) =~= Seq::<DamlLfArchive>::empty());
    proof {
        reveal(Seq::filter);
    }
    while items.len() > 0
        invariant
            k + items@.len() == all.len(),
            all.len() == count,
            items@ == all.skip(k as int),
            kept@ == all.take(k as int).filter(pred),
            pred == reached_pred(ids_view(reached@)),
        decreases items@.len(),
    {
        let a = items.remove(0);
        assert(a == all[k as int]);
        assert(all.take(k + 1) =~= all.take(k as int).push(a));
        proof {
            all.take(k as int).lemma_filter_push(a, pred);
        }
        if contains_id(reached, a.hash.as_str()) {
            kept.push(a);
        }
        k += 1;
        assert(items@ =~= all.skip(k as int));
    }
    assert(all.take(k as int) =~= all);
    kept
}

/// The package set's main id under a hint: the hinted id where a package
/// has it, else none; with no hint, the first package's id.
pub open spec fn main_of(packages: Seq<LedgerPackage>, hint: Option<Seq<char>>) -> Option<Seq<char>> {
    match hint {
        Some(id) => if exists|i: int| 0 <= i < packages.len() && (#[trigger] packages[i]).hash@ == id {
            Some(id)
        } else {
            None
        },
        None => if packages.len() > 0 {
            Some(packages[0].hash@)
        } else {
            None
        },
    }
}

/// What refusing a hint reads.
pub open spec fn main_error(hint: Option<Seq<char>>) -> Seq<char> {
    match hint {
        Some(id) => main_absent_text(id, "package set"@),
        None => "expected at least one package"@,
    }
}

pub open spec fn hint_view(hint: Option<&str>) -> Option<Seq<char>> {
    match hint {
        Some(id) => Some(id@),
        None => None,
    }
}

impl DamlPackages {
    /// Make a DAR of the packages: the main one picked by `main_package_id`
    /// (or the first), each named by `auto_naming_style`. With
    /// `filter_deps`, only the packages reachable from the main one through
    /// the packages each refers to are kept.
    pub fn into_dar(self, main_package_id: Option<&str>, filter_deps: bool, auto_naming_style: ArchiveAutoNamingStyle) -> (r:
        DamlResult<DarFile>)
        requires
            style_covers(auto_naming_style, self.spec_packages().len()),
        ensures
            match main_of(self.spec_packages(), hint_view(main_package_id)) {
                None => r matches Err(e) && e@ == DamlErrorV::Other(main_error(hint_view(main_package_id))),
                Some(main) => match r {
                    Ok(dar) => exists|archives: Seq<DamlLfArchive>|
                        #[trigger] archives_of(self.spec_packages(), auto_naming_style, archives) && if filter_deps {
                            exists|refs: Map<Seq<char>, Seq<Seq<char>>>, reached: Seq<Seq<char>>|
                                #[trigger] search_result(archives, main, refs, reached) && dar_from(
                                    archives.filter(reached_pred(reached)),
                                    main,
                                    dar,
                                )
                        } else {
                            dar_from(archives, main, dar)
                        },
                    Err(e) => filter_deps && exists|archives: Seq<DamlLfArchive>, j: int, ce: ConvertErrorV|
                        #[trigger] archives_of(self.spec_packages(), auto_naming_style, archives) && 0 <= j
                            < archives.len() && #[trigger] dalf_error(archives[j], ce) && e@ == DamlErrorV::Other(
                            spec_lf_error_text(DamlLfErrorV::ConvertError(ce)),
                        ),
                },
            },
    {
        let ghost pk = self.spec_packages();
        let ghost hint = hint_view(main_package_id);
        let main_id = match self.resolve_main_id(main_package_id) {
            Ok(m) => m,
            Err(e) => {
                proof {
                    if let Some(id) = main_package_id {
                        assert(!exists|i: int| 0 <= i < pk.len() && (#[trigger] pk[i]).hash@ == id@);
                    }
                }
                return Err(e);
            },
        };
        let ghost witness: int = match main_package_id {
            Some(id) => choose|i: int| 0 <= i < pk.len() && (#[trigger] pk[i]).hash@ == id@,
            None => 0,
        };
        assert(0 <= witness < pk.len() && pk[witness].hash@ == main_id@);
        assert(main_of(pk, hint) == Some(main_id@));
        let archives = match Self::packages_to_archives(self.packages, auto_naming_style) {
            Ok(v) => v,
            Err(e) => return Err(e),
        };
        let ghost arch = archives@;
        assert(arch[witness].hash@ == main_id@);
        assert(archives_of(pk, auto_naming_style, arch));
        let ghost mut refs: Map<Seq<char>, Seq<Seq<char>>> = Map::empty();
        let ghost mut reached_ids: Seq<Seq<char>> = Seq::empty();
        let kept = if filter_deps {
            let reached = match Self::reachable_from(main_id.as_str(), &archives) {
                Ok(v) => v,
                Err(e) => return Err(e),
            };
            proof {
                reached_ids = ids_view(reached@);
                refs = choose|refs: Map<Seq<char>, Seq<Seq<char>>>| #[trigger] search_result(arch, main_id@, refs, reached_ids);
                assert(reached_ids[0] == main_id@);
                assert(reached_ids.contains(main_id@));
                assert(reached_pred(reached_ids)(arch[witness]));
                arch.lemma_filter_contains(reached_pred(reached_ids), witness);
            }
            keep_reached(archives, &reached)
        } else {
            archives
        };
        let ghost kv = kept@;
        assert(kv.contains(arch[witness]));
        let r = Self::archives_to_dar(kept, main_id.as_str());
        proof {
            lemma_dar_made(pk, auto_naming_style, main_id@, filter_deps, arch, refs, reached_ids, r->Ok_0);
            let main = main_of(pk, hint)->Some_0;
            assert(main == main_id@);
            assert(exists|archives: Seq<DamlLfArchive>|
                #[trigger] archives_of(pk, auto_naming_style, archives) && if filter_deps {
                    exists|refs: Map<Seq<char>, Seq<Seq<char>>>, reached: Seq<Seq<char>>|
                        #[trigger] search_result(archives, main, refs, reached) && dar_from(
                            archives.filter(reached_pred(reached)),
                            main,
                            r->Ok_0,
                        )
                } else {
                    dar_from(archives, main, r->Ok_0)
                });
        }
        r
    }
}

proof fn lemma_dar_made(
    packages: Seq<LedgerPackage>,
    style: ArchiveAutoNamingStyle,
    main: Seq<char>,
    filter_deps: bool,
    archives: Seq<DamlLfArchive>,
    refs: Map<Seq<char>, Seq<Seq<char>>>,
    reached: Seq<Seq<char>>,
    dar: DarFile,
)
    requires
        archives_of(packages, style, archives),
        filter_deps ==> search_result(archives, main, refs, reached) && dar_from(
            archives.filter(reached_pred(reached)),
            main,
            dar,
        ),
        !filter_deps ==> dar_from(archives, main, dar),
    ensures
        exists|archives: Seq<DamlLfArchive>|
            #[trigger] archives_of(packages, style, archives) && if filter_deps {
                exists|refs: Map<Seq<char>, Seq<Seq<char>>>, reached: Seq<Seq<char>>|
                    #[trigger] search_result(archives, main, refs, reached) && dar_from(
                        archives.filter(reached_pred(reached)),
                        main,
                        dar,
                    )
            } else {
                dar_from(archives, main, dar)
            },
{
}

/// Every id a search from `root` reaches lies in each set that holds `root`
/// and every id referred to by one of its ids: a search reaches only what
/// the references lead to, and with its own closure, exactly that.
pub proof fn law_search_result_least(
    archives: Seq<DamlLfArchive>,
    root: Seq<char>,
    refs: Map<Seq<char>, Seq<Seq<char>>>,
    visited: Seq<Seq<char>>,
    s: Set<Seq<char>>,
)
    requires
        search_result(archives, root, refs, visited),
        s.contains(root),
        forall|a: Seq<char>, b: Seq<char>| s.contains(a) && #[trigger] refers(refs, a, b) ==> s.contains(b),
    ensures
        forall|k: int| 0 <= k < visited.len() ==> s.contains(#[trigger] visited[k]),
{
    assert forall|k: int| 0 <= k < visited.len() implies s.contains(#[trigger] visited[k]) by {
        lemma_reached_in(archives, root, refs, visited, s, k);
    }
}

proof fn lemma_reached_in(
    archives: Seq<DamlLfArchive>,
    root: Seq<char>,
    refs: Map<Seq<char>, Seq<Seq<char>>>,
    visited: Seq<Seq<char>>,
    s: Set<Seq<char>>,
    k: int,
)
    requires
        search_result(archives, root, refs, visited),
        s.contains(root),
        forall|a: Seq<char>, b: Seq<char>| s.contains(a) && #[trigger] refers(refs, a, b) ==> s.contains(b),
        0 <= k < visited.len(),
    ensures
        s.contains(visited[k]),
    decreases k,
{
    if k > 0 {
        assert(referred_before(refs, visited, k));
        let j = choose|j: int| 0 <= j < k && #[trigger] refers(refs, visited[j], visited[k]);
        lemma_reached_in(archives, root, refs, visited, s, j);
    }
}

} // verus!
