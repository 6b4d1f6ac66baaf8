//! The record of a dependency that a set of packages leaves unmet.

use crate::depend::Depend;
use crate::grammar::DependView;
use vstd::prelude::*;

verus! {

/// What a missing-dependency record holds, as plain mathematical values.
pub struct DepMissingView {
    /// The package whose dependency is unmet.
    pub target: Seq<char>,
    /// The unmet dependency.
    pub depend: DependView,
    /// The package whose change leaves the dependency unmet, if one does.
    pub causing_pkg: Option<Seq<char>>,
}

/// An unmet dependency, with the package that has it and the package
/// that is to blame for it. It reports; it decides nothing.
#[derive(Debug)]
pub struct DepMissing {
    target: String,
    depend: Depend,
    causing_pkg: Option<String>,
}

impl View for DepMissing {
    type V = DepMissingView;

    closed spec fn view(&self) -> DepMissingView {
        DepMissingView {
            target: self.target@,
            depend: self.depend@,
            causing_pkg: match self.causing_pkg {
                Some(p) => Some(p@),
                None => None,
            },
        }
    }
}

impl DepMissing {
    /// Records that `target` lacks `depend`, and which package causes
    /// that, where one does.
    pub fn new(target: String, depend: Depend, causing_pkg: Option<String>) -> (m: DepMissing)
        ensures
            m@ == (DepMissingView {
                target: target@,
                depend: depend@,
                causing_pkg: match causing_pkg {
                    Some(p) => Some(p@),
                    None => None,
                },
            }),
    {
        DepMissing { target, depend, causing_pkg }
    }

    /// The package whose dependency is unmet.
    pub fn target(&self) -> (r: &str)
        ensures
            r@ == self@.target,
    {
        self.target.as_str()
    }

    /// The unmet dependency.
    pub fn depend(&self) -> (r: &Depend)
        ensures
            r@ == self@.depend,
    {
        &self.depend
    }

    /// The package that causes the dependency to be unmet, if one does.
    pub fn causing_pkg(&self) -> (r: Option<&str>)
        ensures
            match r {
                Some(p) => self@.causing_pkg == Some(p@),
                None => self@.causing_pkg is None,
            },
    {
        match &self.causing_pkg {
            Some(p) => Some(p.as_str()),
            None => None,
        }
    }
}

} // verus!
