//! The project report: the manifest's package name and version, and
//! every declared dependency's version constraint cross-referenced
//! against the concrete version the lockfile records for it.
//!
//! The two files arrive already parsed into the plain shapes below;
//! generic document parsing is a collaborator's job. Everything this
//! module decides — constraint extraction, lockfile lookup,
//! sentinel defaulting, declaration order — is verified here.

use vstd::prelude::*;
use crate::tokens::str_eq;

verus! {

/// One key of a structured dependency table. Only string values can
/// name a version constraint; a non-string value (a list of
/// features, a boolean) carries no version and is ignored.
pub struct TableEntry {
    pub key: String,
    pub value: Option<String>,
}

/// A dependency declaration as the manifest writes it: either a bare
/// constraint string, or a structured table of keys.
pub enum DepConstraint {
    Plain(String),
    Table(Vec<TableEntry>),
}

/// One dependency as declared in the manifest, in declaration order.
pub struct ManifestDep {
    pub name: String,
    pub constraint: DepConstraint,
}

/// The manifest's readable shape: the package section's name and
/// version, where present, and the declared dependencies in
/// declaration order.
pub struct Manifest {
    pub package_name: Option<String>,
    pub package_version: Option<String>,
    pub dependencies: Vec<ManifestDep>,
}

/// One resolved package record of the lockfile.
pub struct LockPackage {
    pub name: String,
    pub version: String,
}

/// One row of the dependency table: the constraint as declared and
/// the concrete version the lockfile resolved it to.
pub struct DependencyInfo {
    pub name: String,
    pub specified_version: String,
    pub resolved_version: String,
}

/// The whole project report.
pub struct ProjectInfo {
    pub name: String,
    pub version: String,
    pub dependencies: Vec<DependencyInfo>,
}

/// The constraint string of a structured dependency table: the value
/// of its first "version" key, or "Unknown" where that key is absent
/// or holds no string.
pub open spec fn spec_table_version(es: Seq<TableEntry>) -> Seq<char>
    decreases es.len(),
{
    if es.len() == 0 {
        "Unknown"@
    } else if es[0].key@ == "version"@ {
        match es[0].value {
            Some(v) => v@,
            None => "Unknown"@,
        }
    } else {
        spec_table_version(es.drop_first())
    }
}

/// The version constraint a dependency declaration states: a bare
/// string is the constraint itself; a table contributes its
/// "version" key.
pub open spec fn spec_specified(c: DepConstraint) -> Seq<char> {
    match c {
        DepConstraint::Plain(v) => v@,
        DepConstraint::Table(es) => spec_table_version(es@),
    }
}

/// The concrete version the lockfile records for a name, with the
/// last record winning on duplicate names, or "Unknown" where the
/// lockfile has no record of it.
pub open spec fn spec_resolved(lock: Seq<LockPackage>, name: Seq<char>) -> Seq<char>
    decreases lock.len(),
{
    if lock.len() == 0 {
        "Unknown"@
    } else if lock.last().name@ == name {
        lock.last().version@
    } else {
        spec_resolved(lock.drop_last(), name)
    }
}

/// Scans a structured dependency table for its "version" key.
fn table_version(es: &Vec<TableEntry>) -> (r: String)
    ensures
        r@ == spec_table_version(es@),
{
    let n = es.len();
    let mut i: usize = 0;
    proof {
        assert(es@.skip(0) =~= es@);
    }
    while i < n
        invariant
            i <= n,
            n == es@.len(),
            spec_table_version(es@) == spec_table_version(es@.skip(i as int)),
        decreases n - i,
    {
        proof {
            assert(es@.skip(i as int)[0] == es@[i as int]);
            assert(es@.skip(i as int).drop_first() =~= es@.skip(i as int + 1));
        }
        if str_eq(es[i].key.as_str(), "version") {
            match &es[i].value {
                Some(v) => {
                    return v.clone();
                },
                None => {
                    return String::from_str("Unknown");
                },
            }
        }
        i = i + 1;
    }
    String::from_str("Unknown")
}

/// Extracts the version constraint of one dependency declaration.
pub fn specified_version(c: &DepConstraint) -> (r: String)
    ensures
        r@ == spec_specified(*c),
{
    match c {
        DepConstraint::Plain(v) => v.clone(),
        DepConstraint::Table(es) => table_version(es),
    }
}

/// Looks a dependency name up among the lockfile's package records,
/// the last record winning on duplicate names.
pub fn resolved_version(lock: &Vec<LockPackage>, name: &str) -> (r: String)
    ensures
        r@ == spec_resolved(lock@, name@),
{
    let mut j = lock.len();
    proof {
        assert(lock@.take(lock@.len() as int) =~= lock@);
    }
    while j > 0
        invariant
            j <= lock@.len(),
            spec_resolved(lock@, name@) == spec_resolved(lock@.take(j as int), name@),
        decreases j,
    {
        proof {
            assert(lock@.take(j as int).last() == lock@[j - 1]);
            assert(lock@.take(j as int).drop_last() =~= lock@.take(j as int - 1));
        }
        if str_eq(lock[j - 1].name.as_str(), name) {
            return lock[j - 1].version.clone();
        }
        j = j - 1;
    }
    String::from_str("Unknown")
}

/// Cross-references every declared dependency against the lockfile:
/// one row per declaration, in declaration order, each carrying the
/// declared constraint and the resolved version, with sentinels for
/// whatever is absent.
pub fn resolve_dependencies(deps: &Vec<ManifestDep>, lock: &Vec<LockPackage>) -> (r: Vec<
    DependencyInfo,
>)
    ensures
        r@.len() == deps@.len(),
        forall|i: int|
            0 <= i < deps@.len() ==> {
                &&& (#[trigger] r@[i]).name@ == deps@[i].name@
                &&& r@[i].specified_version@ == spec_specified(deps@[i].constraint)
                &&& r@[i].resolved_version@ == spec_resolved(lock@, deps@[i].name@)
            },
{
    let n = deps.len();
    let mut out: Vec<DependencyInfo> = Vec::new();
    let mut i: usize = 0;
    while i < n
        invariant
            i <= n,
            n == deps@.len(),
            out@.len() == i,
            forall|k: int|
                0 <= k < i ==> {
                    &&& (#[trigger] out@[k]).name@ == deps@[k].name@
                    &&& out@[k].specified_version@ == spec_specified(deps@[k].constraint)
                    &&& out@[k].resolved_version@ == spec_resolved(lock@, deps@[k].name@)
                },
        decreases n - i,
    {
        let row = DependencyInfo {
            name: deps[i].name.clone(),
            specified_version: specified_version(&deps[i].constraint),
            resolved_version: resolved_version(lock, deps[i].name.as_str()),
        };
        out.push(row);
        i = i + 1;
    }
    out
}

impl ProjectInfo {
    /// Builds the project report from the two files' parsed shapes.
    /// A missing or unparseable manifest yields the all-sentinel,
    /// empty-dependency report; a missing lockfile resolves every
    /// dependency to "Unknown".
    pub fn from_parts(manifest: &Option<Manifest>, lock: &Option<Vec<LockPackage>>) -> (r:
        ProjectInfo)
        ensures
            manifest is None ==> {
                &&& r.name@ == "Unknown"@
                &&& r.version@ == "Unknown"@
                &&& r.dependencies@.len() == 0
            },
            manifest matches Some(m) ==> {
                &&& m.package_name matches Some(n) ==> r.name@ == n@
                &&& m.package_name is None ==> r.name@ == "Unknown"@
                &&& m.package_version matches Some(v) ==> r.version@ == v@
                &&& m.package_version is None ==> r.version@ == "Unknown"@
                &&& r.dependencies@.len() == m.dependencies@.len()
                &&& forall|i: int|
                    0 <= i < m.dependencies@.len() ==> {
                        &&& (#[trigger] r.dependencies@[i]).name@ == m.dependencies@[i].name@
                        &&& r.dependencies@[i].specified_version@ == spec_specified(
                            m.dependencies@[i].constraint,
                        )
                        &&& r.dependencies@[i].resolved_version@ == spec_resolved(
                            (match lock {
                                Some(l) => l@,
                                None => Seq::<LockPackage>::empty(),
                            }),
                            m.dependencies@[i].name@,
                        )
                    }
            },
    {
        match manifest {
            None => ProjectInfo {
                name: String::from_str("Unknown"),
                version: String::from_str("Unknown"),
                dependencies: Vec::new(),
            },
            Some(m) => {
                let empty_lock: Vec<LockPackage> = Vec::new();
                let lock_ref: &Vec<LockPackage> = match lock {
                    Some(l) => l,
                    None => &empty_lock,
                };
                let name = match &m.package_name {
                    Some(n) => n.clone(),
                    None => String::from_str("Unknown"),
                };
                let version = match &m.package_version {
                    Some(v) => v.clone(),
                    None => String::from_str("Unknown"),
                };
                ProjectInfo {
                    name,
                    version,
                    dependencies: resolve_dependencies(&m.dependencies, lock_ref),
                }
            },
        }
    }
}

} // verus!
