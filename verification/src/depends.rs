//! Deciding whether a package, or a capability that a package provides,
//! satisfies a dependency.
//!
//! Versions are ordered by the comparator that the caller hands in. It is
//! asked to compare the candidate's version (left) with the version that
//! the dependency names (right), and only where the dependency is
//! constrained.

use crate::depend::Depend;
use crate::depmod::DepMod;
use crate::grammar::DependView;
use crate::text::str_eq;
use core::cmp::Ordering;
use vstd::prelude::*;

verus! {

/// Whether a version that compared as `cmp` against the dependency's own
/// meets the dependency's constraint.
pub open spec fn version_satisfies(dep: DependView, cmp: Ordering) -> bool {
    dep.depmod.admits(cmp)
}

/// Whether a package called `name`, whose version compared as `cmp`
/// against the dependency's own, satisfies the dependency.
pub open spec fn dep_satisfied(dep: DependView, name: Seq<char>, cmp: Ordering) -> bool {
    dep.name == name && version_satisfies(dep, cmp)
}

/// Whether the capability `provide`, whose version compared as `cmp`
/// against the dependency's own, satisfies the dependency. A capability
/// provided without a version satisfies no constrained dependency.
pub open spec fn provide_satisfied(dep: DependView, provide: DependView, cmp: Ordering) -> bool {
    &&& dep.name == provide.name
    &&& !(provide.depmod == DepMod::Any && dep.depmod != DepMod::Any)
    &&& version_satisfies(dep, cmp)
}

/// The dependency `dep` with its operator replaced by `m`.
pub open spec fn with_operator(dep: DependView, m: DepMod) -> DependView {
    DependView { depmod: m, ..dep }
}

/// An unconstrained dependency is satisfied by every version, however
/// that version compares.
pub proof fn unconstrained_is_always_satisfied(dep: DependView, cmp: Ordering)
    requires
        dep.depmod == DepMod::Any,
    ensures
        version_satisfies(dep, cmp),
{
}

/// A dependency on exactly one version is satisfied by the versions that
/// compare as equal to it, and by no others.
pub proof fn exact_is_satisfied_iff_equal(dep: DependView, cmp: Ordering)
    requires
        dep.depmod == DepMod::Eq,
    ensures
        version_satisfies(dep, cmp) <==> cmp == Ordering::Equal,
{
}

/// A version that compares as greater than the dependency's own satisfies
/// the dependency under `>=` and under `>`, and fails it under `=`, `<=`
/// and `<`.
pub proof fn greater_satisfies_lower_bounds(dep: DependView, cmp: Ordering)
    requires
        cmp == Ordering::Greater,
    ensures
        version_satisfies(with_operator(dep, DepMod::Ge), cmp),
        version_satisfies(with_operator(dep, DepMod::Gt), cmp),
        !version_satisfies(with_operator(dep, DepMod::Eq), cmp),
        !version_satisfies(with_operator(dep, DepMod::Le), cmp),
        !version_satisfies(with_operator(dep, DepMod::Lt), cmp),
{
}

/// A version that compares as less than the dependency's own satisfies
/// the dependency under `<=` and under `<`, and fails it under `=`, `>=`
/// and `>`.
pub proof fn less_satisfies_upper_bounds(dep: DependView, cmp: Ordering)
    requires
        cmp == Ordering::Less,
    ensures
        version_satisfies(with_operator(dep, DepMod::Le), cmp),
        version_satisfies(with_operator(dep, DepMod::Lt), cmp),
        !version_satisfies(with_operator(dep, DepMod::Eq), cmp),
        !version_satisfies(with_operator(dep, DepMod::Ge), cmp),
        !version_satisfies(with_operator(dep, DepMod::Gt), cmp),
{
}

/// A version that compares as equal to the dependency's own satisfies
/// the dependency under `=`, `>=` and `<=`, and fails it under `>` and
/// `<`.
pub proof fn equal_satisfies_inclusive_bounds(dep: DependView, cmp: Ordering)
    requires
        cmp == Ordering::Equal,
    ensures
        version_satisfies(with_operator(dep, DepMod::Eq), cmp),
        version_satisfies(with_operator(dep, DepMod::Ge), cmp),
        version_satisfies(with_operator(dep, DepMod::Le), cmp),
        !version_satisfies(with_operator(dep, DepMod::Gt), cmp),
        !version_satisfies(with_operator(dep, DepMod::Lt), cmp),
{
}

/// A package of another name satisfies no dependency, whatever its
/// version.
pub proof fn other_name_never_satisfies(dep: DependView, name: Seq<char>, cmp: Ordering)
    requires
        name != dep.name,
    ensures
        !dep_satisfied(dep, name, cmp),
{
}

/// A package of the dependency's name satisfies it exactly where its
/// version meets the constraint.
pub proof fn same_name_satisfies_by_version(dep: DependView, cmp: Ordering)
    ensures
        dep_satisfied(dep, dep.name, cmp) <==> version_satisfies(dep, cmp),
{
}

/// A capability provided without a version satisfies no constrained
/// dependency, while a package of that name does as soon as its version
/// meets the constraint. Where the capability carries a version, or the
/// dependency is unconstrained, capability and package fare alike.
pub proof fn unversioned_provide_fails_constrained(
    dep: DependView,
    provide: DependView,
    cmp: Ordering,
)
    requires
        provide.name == dep.name,
    ensures
        provide.depmod == DepMod::Any && dep.depmod != DepMod::Any ==> !provide_satisfied(
            dep,
            provide,
            cmp,
        ),
        !(provide.depmod == DepMod::Any && dep.depmod != DepMod::Any) ==> (provide_satisfied(
            dep,
            provide,
            cmp,
        ) <==> dep_satisfied(dep, provide.name, cmp)),
{
}

/// The comparator may be asked to compare `version` with `against`.
pub open spec fn comparable<F: Fn(&str, &str) -> Ordering>(
    vercmp: F,
    version: Seq<char>,
    against: Seq<char>,
) -> bool {
    forall|a: &str, b: &str|
        a@ == version && b@ == against ==> #[trigger] call_requires(vercmp, (a, b))
}

/// `cmp` is an answer that the comparator can give when it compares
/// `version` with `against`.
pub open spec fn compares_as<F: Fn(&str, &str) -> Ordering>(
    vercmp: F,
    version: Seq<char>,
    against: Seq<char>,
    cmp: Ordering,
) -> bool {
    exists|a: &str, b: &str|
        a@ == version && b@ == against && #[trigger] call_ensures(vercmp, (a, b), cmp)
}

/// Checks a version against the constraint of a dependency.
///
/// An unconstrained dependency is satisfied by every version, and the
/// comparator is not asked. Otherwise the comparator's answer for
/// `version` against the dependency's version decides, by the
/// dependency's operator.
pub fn satisfies_ver<F: Fn(&str, &str) -> Ordering>(
    dep: &Depend,
    version: &str,
    vercmp: F,
) -> (ok: bool)
    requires
        dep@.depmod != DepMod::Any && dep@.version is Some ==> comparable(
            vercmp,
            version@,
            dep@.version->0,
        ),
    ensures
        dep@.depmod == DepMod::Any ==> ok,
        dep@.depmod != DepMod::Any ==> dep@.version is Some && exists|cmp: Ordering|
            #[trigger] compares_as(vercmp, version@, dep@.version->0, cmp)
                && ok == version_satisfies(dep@, cmp),
{
    let depmod = dep.depmod();
    if depmod == DepMod::Any {
        return true;
    }
    match dep.version() {
        Some(against) => {
            let cmp = vercmp(version, against);
            let ok = depmod.accepts(cmp);
            assert(compares_as(vercmp, version@, dep@.version->0, cmp));
            ok
        },
        // A constrained dependency names its version, so nothing gets here.
        None => false,
    }
}

/// Checks whether the package `name` at `version` satisfies a dependency.
///
/// A package of another name never does. One of the dependency's name
/// does where its version meets the dependency's constraint.
pub fn satisfies_dep<F: Fn(&str, &str) -> Ordering>(
    dep: &Depend,
    name: &str,
    version: &str,
    vercmp: F,
) -> (ok: bool)
    requires
        dep@.name == name@ && dep@.depmod != DepMod::Any && dep@.version is Some ==> comparable(
            vercmp,
            version@,
            dep@.version->0,
        ),
    ensures
        dep@.name != name@ ==> !ok,
        dep@.depmod == DepMod::Any ==> ok == (dep@.name == name@),
        dep@.name == name@ && dep@.depmod != DepMod::Any ==> dep@.version is Some && exists|
            cmp: Ordering,
        |
            #[trigger] compares_as(vercmp, version@, dep@.version->0, cmp)
                && ok == dep_satisfied(dep@, name@, cmp),
{
    if !str_eq(dep.name(), name) {
        return false;
    }
    satisfies_ver(dep, version, vercmp)
}

/// Checks whether a provided capability satisfies a dependency.
///
/// A capability of another name never does, and one provided without a
/// version satisfies no constrained dependency. Otherwise the provided
/// version is checked against the dependency's constraint.
pub fn satisfies_provide<F: Fn(&str, &str) -> Ordering>(
    dep: &Depend,
    provide: &Depend,
    vercmp: F,
) -> (ok: bool)
    requires
        dep@.name == provide@.name && dep@.depmod != DepMod::Any && provide@.depmod
            != DepMod::Any && dep@.version is Some && provide@.version is Some ==> comparable(
            vercmp,
            provide@.version->0,
            dep@.version->0,
        ),
    ensures
        dep@.name != provide@.name ==> !ok,
        provide@.depmod == DepMod::Any && dep@.depmod != DepMod::Any ==> !ok,
        dep@.depmod == DepMod::Any ==> ok == (dep@.name == provide@.name),
        dep@.name == provide@.name && dep@.depmod != DepMod::Any && provide@.depmod
            != DepMod::Any ==> dep@.version is Some && provide@.version is Some && exists|
            cmp: Ordering,
        |
            #[trigger] compares_as(vercmp, provide@.version->0, dep@.version->0, cmp) && ok
                == provide_satisfied(dep@, provide@, cmp),
{
    if !str_eq(dep.name(), provide.name()) {
        return false;
    }
    if provide.depmod() == DepMod::Any && dep.depmod() != DepMod::Any {
        return false;
    }
    match provide.version() {
        Some(version) => satisfies_ver(dep, version, vercmp),
        // Without a version the capability got this far only because the
        // dependency is unconstrained.
        None => true,
    }
}

} // verus!
