//! The comparison operator of a dependency constraint.

use core::cmp::Ordering;
use vstd::prelude::*;

verus! {

/// The relation that a dependency requires between a candidate's version
/// and the version the dependency names.
#[derive(Debug, Eq, PartialEq, Structural, Copy, Clone, Ord, PartialOrd, Hash)]
pub enum DepMod {
    /// No constraint: every version will do.
    Any,
    /// The candidate's version equals the named one.
    Eq,
    /// The candidate's version is the named one or a newer one.
    Ge,
    /// The candidate's version is the named one or an older one.
    Le,
    /// The candidate's version is newer than the named one.
    Gt,
    /// The candidate's version is older than the named one.
    Lt,
}

impl DepMod {
    /// Whether the operator holds when comparing the candidate's version
    /// with the dependency's version gave `cmp`.
    pub open spec fn admits(self, cmp: Ordering) -> bool {
        match self {
            DepMod::Any => true,
            DepMod::Eq => cmp == Ordering::Equal,
            DepMod::Ge => cmp == Ordering::Greater || cmp == Ordering::Equal,
            DepMod::Le => cmp == Ordering::Less || cmp == Ordering::Equal,
            DepMod::Gt => cmp == Ordering::Greater,
            DepMod::Lt => cmp == Ordering::Less,
        }
    }

    /// Applies the operator to the outcome of comparing the candidate's
    /// version (left) with the dependency's version (right).
    pub fn accepts(self, cmp: Ordering) -> (ok: bool)
        ensures
            ok == self.admits(cmp),
    {
        match self {
            DepMod::Any => true,
            DepMod::Eq => matches!(cmp, Ordering::Equal),
            DepMod::Ge => matches!(cmp, Ordering::Greater | Ordering::Equal),
            DepMod::Le => matches!(cmp, Ordering::Less | Ordering::Equal),
            DepMod::Gt => matches!(cmp, Ordering::Greater),
            DepMod::Lt => matches!(cmp, Ordering::Less),
        }
    }

    /// The characters that the operator is written with.
    pub open spec fn text(self) -> Seq<char> {
        match self {
            DepMod::Any => seq![],
            DepMod::Eq => seq!['='],
            DepMod::Ge => seq!['>', '='],
            DepMod::Le => seq!['<', '='],
            DepMod::Gt => seq!['>'],
            DepMod::Lt => seq!['<'],
        }
    }

    /// The operator as it is written in a dependency; empty for `Any`.
    pub fn symbol(self) -> (r: &'static str)
        ensures
            r@ == self.text(),
    {
        proof {
            reveal_strlit("");
            reveal_strlit("=");
            reveal_strlit(">=");
            reveal_strlit("<=");
            reveal_strlit(">");
            reveal_strlit("<");
        }
        let r = match self {
            DepMod::Any => "",
            DepMod::Eq => "=",
            DepMod::Ge => ">=",
            DepMod::Le => "<=",
            DepMod::Gt => ">",
            DepMod::Lt => "<",
        };
        assert(r@ =~= self.text());
        r
    }

    /// The number by which the native package library encodes the operator.
    pub open spec fn code_of(self) -> u32 {
        match self {
            DepMod::Any => 1u32,
            DepMod::Eq => 2u32,
            DepMod::Ge => 3u32,
            DepMod::Le => 4u32,
            DepMod::Gt => 5u32,
            DepMod::Lt => 6u32,
        }
    }

    /// Decodes the native library's operator code. An unknown code is
    /// refused rather than reinterpreted.
    pub fn from_code(code: u32) -> (r: Option<DepMod>)
        ensures
            match r {
                Some(m) => m.code_of() == code,
                None => forall|m: DepMod| m.code_of() != code,
            },
    {
        match code {
            1u32 => Some(DepMod::Any),
            2u32 => Some(DepMod::Eq),
            3u32 => Some(DepMod::Ge),
            4u32 => Some(DepMod::Le),
            5u32 => Some(DepMod::Gt),
            6u32 => Some(DepMod::Lt),
            _ => None,
        }
    }

    /// The native library's code for the operator.
    pub fn code(self) -> (c: u32)
        ensures
            c == self.code_of(),
    {
        match self {
            DepMod::Any => 1u32,
            DepMod::Eq => 2u32,
            DepMod::Ge => 3u32,
            DepMod::Le => 4u32,
            DepMod::Gt => 5u32,
            DepMod::Lt => 6u32,
        }
    }
}

/// An operator together with the version it applies to. Unlike a bare
/// [`DepMod`], a constrained operator cannot occur here without a version.
#[derive(Debug, Eq, PartialEq, Copy, Clone, Hash)]
pub enum DepModVer<'a> {
    Any,
    Eq(&'a str),
    Ge(&'a str),
    Le(&'a str),
    Gt(&'a str),
    Lt(&'a str),
}

impl<'a> DepModVer<'a> {
    /// The operator, without its version.
    pub open spec fn operator(self) -> DepMod {
        match self {
            DepModVer::Any => DepMod::Any,
            DepModVer::Eq(_) => DepMod::Eq,
            DepModVer::Ge(_) => DepMod::Ge,
            DepModVer::Le(_) => DepMod::Le,
            DepModVer::Gt(_) => DepMod::Gt,
            DepModVer::Lt(_) => DepMod::Lt,
        }
    }

    /// The version that the operator applies to; none for `Any`.
    pub open spec fn version(self) -> Option<Seq<char>> {
        match self {
            DepModVer::Any => None,
            DepModVer::Eq(v) => Some(v@),
            DepModVer::Ge(v) => Some(v@),
            DepModVer::Le(v) => Some(v@),
            DepModVer::Gt(v) => Some(v@),
            DepModVer::Lt(v) => Some(v@),
        }
    }

    /// Forgets the version and keeps the operator.
    pub fn depmod(self) -> (m: DepMod)
        ensures
            m == self.operator(),
    {
        DepMod::from(self)
    }
}

impl<'a> From<DepModVer<'a>> for DepMod {
    fn from(d: DepModVer<'a>) -> (m: DepMod) {
        match d {
            DepModVer::Any => DepMod::Any,
            DepModVer::Eq(_) => DepMod::Eq,
            DepModVer::Ge(_) => DepMod::Ge,
            DepModVer::Le(_) => DepMod::Le,
            DepModVer::Gt(_) => DepMod::Gt,
            DepModVer::Lt(_) => DepMod::Lt,
        }
    }
}

impl<'a> vstd::std_specs::convert::FromSpecImpl<DepModVer<'a>> for DepMod {
    open spec fn obeys_from_spec() -> bool {
        true
    }

    open spec fn from_spec(d: DepModVer<'a>) -> DepMod {
        d.operator()
    }
}

} // verus!
