//! A dependency on a package, or on a capability that packages provide.

use crate::depmod::{DepMod, DepModVer};
use crate::grammar::{
    desc_delim, first_char, first_char_is_first, has_operator, is_operator_char, parse_depend,
    parse_error, render, render_of_parsed_is_the_text, DependError, DependView,
};
use crate::hash::{sdbm, sdbm_hash};
use crate::text::{opt_str_eq, str_eq};
use vstd::pervasive::unreached;
use vstd::prelude::*;
use vstd::std_specs::cmp::PartialEqSpecImpl;
use vstd::string::StringExecFns;
use vstd::string::StrSliceExecFns;

verus! {

/// A parsed dependency: a name, an operator, the version the operator
/// applies to, and a description. A provided capability has the same
/// shape. A value never changes once made.
#[derive(Debug, Hash)]
pub struct Depend {
    name: String,
    depmod: DepMod,
    version: Option<String>,
    desc: Option<String>,
}

impl View for Depend {
    type V = DependView;

    closed spec fn view(&self) -> DependView {
        DependView {
            name: self.name@,
            depmod: self.depmod,
            version: match self.version {
                Some(v) => Some(v@),
                None => None,
            },
            desc: match self.desc {
                Some(t) => Some(t@),
                None => None,
            },
        }
    }
}

fn find_char(s: &str, c: char, from: usize, to: usize) -> (at: usize)
    requires
        from <= to <= s@.len(),
    ensures
        at == first_char(s@, c, from as int, to as int),
        from <= at <= to,
{
    let mut i: usize = from;
    while i < to
        invariant
            from <= i <= to <= s@.len(),
            first_char(s@, c, from as int, to as int) == first_char(s@, c, i as int, to as int),
        decreases to - i,
    {
        if s.get_char(i) == c {
            return i;
        }
        i += 1;
    }
    to
}

fn find_desc_delim(s: &str, len: usize) -> (at: usize)
    requires
        len == s@.len(),
    ensures
        at == desc_delim(s@, 0),
        at == len || at + 2 <= len,
{
    let mut i: usize = 0;
    while len - i >= 2
        invariant
            len == s@.len(),
            i <= len,
            desc_delim(s@, 0) == desc_delim(s@, i as int),
        decreases len - i,
    {
        if s.get_char(i) == ':' && s.get_char(i + 1) == ' ' {
            return i;
        }
        i += 1;
    }
    proof {
        // What is left is too short to hold the mark.
        if i < len {
            assert(desc_delim(s@, i + 1) == len);
        }
    }
    len
}

/// Whether `<`, `>` or `=` stands in `s` between `from` and `to`.
fn holds_operator(s: &str, from: usize, to: usize) -> (found: bool)
    requires
        from <= to <= s@.len(),
    ensures
        found == has_operator(s@.subrange(from as int, to as int)),
{
    let lt = find_char(s, '<', from, to);
    let gt = find_char(s, '>', from, to);
    let eq = find_char(s, '=', from, to);
    proof {
        let part = s@.subrange(from as int, to as int);
        first_char_is_first(s@, '<', from as int, to as int);
        first_char_is_first(s@, '>', from as int, to as int);
        first_char_is_first(s@, '=', from as int, to as int);
        if lt < to {
            assert(is_operator_char(part[lt - from]));
        } else if gt < to {
            assert(is_operator_char(part[gt - from]));
        } else if eq < to {
            assert(is_operator_char(part[eq - from]));
        } else {
            assert forall|j: int| 0 <= j < part.len() implies !is_operator_char(
                #[trigger] part[j],
            ) by {
                assert(part[j] == s@[from + j]);
            }
        }
    }
    lt < to || gt < to || eq < to
}

impl Depend {
    #[verifier::type_invariant]
    spec fn named_and_versioned(self) -> bool {
        &&& self.name@.len() > 0
        &&& self.depmod != DepMod::Any ==> self.version is Some
    }

    /// Reads a dependency from its textual form, such as `foo`,
    /// `foo>=1.2` or `foo=1.2: needed for bar`.
    ///
    /// A text without a name is refused, and so is one with a second
    /// operator character in its name or its version. Every other text
    /// is read, and written out again it is the same text.
    ///
    /// The text is walked character by character from its start for each
    /// look-up, so the time grows with the square of its length.
    pub fn new(s: &str) -> (r: Result<Depend, DependError>)
        ensures
            match r {
                Ok(d) => parse_error(s@) is None && d@ == parse_depend(s@) && d@.wf() && render(
                    d@,
                ) == s@,
                Err(e) => parse_error(s@) == Some(e),
            },
    {
        proof {
            render_of_parsed_is_the_text(s@);
        }
        let len = s.unicode_len();
        let end = find_desc_delim(s, len);
        let lt = find_char(s, '<', 0, end);
        let at = if lt < end {
            lt
        } else {
            let gt = find_char(s, '>', 0, end);
            if gt < end {
                gt
            } else {
                find_char(s, '=', 0, end)
            }
        };
        if at == 0 {
            return Err(DependError::EmptyName);
        }
        if holds_operator(s, 0, at) {
            return Err(DependError::StrayOperator);
        }
        let name = s.substring_char(0, at).to_owned();
        let desc = if end < len {
            Some(s.substring_char(end + 2, len).to_owned())
        } else {
            None
        };
        if at >= end {
            return Ok(Depend { name, depmod: DepMod::Any, version: None, desc });
        }
        let first = s.get_char(at);
        let closed = at + 1 < end && s.get_char(at + 1) == '=';
        let depmod = if first == '<' {
            if closed {
                DepMod::Le
            } else {
                DepMod::Lt
            }
        } else if first == '>' {
            if closed {
                DepMod::Ge
            } else {
                DepMod::Gt
            }
        } else {
            DepMod::Eq
        };
        let start = match depmod {
            DepMod::Le | DepMod::Ge => at + 2,
            _ => at + 1,
        };
        if holds_operator(s, start, end) {
            return Err(DependError::StrayOperator);
        }
        let version = Some(s.substring_char(start, end).to_owned());
        Ok(Depend { name, depmod, version, desc })
    }

    /// Puts a dependency together from its parts. An empty name is
    /// refused, and so is a constrained operator without a version;
    /// nothing else is.
    pub fn from_parts(
        name: String,
        depmod: DepMod,
        version: Option<String>,
        desc: Option<String>,
    ) -> (r: Option<Depend>)
        ensures
            r is Some <==> name@.len() > 0 && (depmod == DepMod::Any || version is Some),
            r matches Some(d) ==> d@ == (DependView {
                name: name@,
                depmod,
                version: match version {
                    Some(v) => Some(v@),
                    None => None,
                },
                desc: match desc {
                    Some(t) => Some(t@),
                    None => None,
                },
            }) && d@.wf(),
    {
        if name.as_str().is_empty() || (depmod != DepMod::Any && version.is_none()) {
            None
        } else {
            Some(Depend { name, depmod, version, desc })
        }
    }

    /// The name depended upon. It is never empty.
    pub fn name(&self) -> (r: &str)
        ensures
            r@ == self@.name,
            r@.len() > 0,
    {
        proof {
            use_type_invariant(self);
        }
        self.name.as_str()
    }

    /// The hash of the name by which the native package library finds it
    /// fast: over the bytes of the name as it is written in UTF-8, each
    /// taken as a signed number, wrapping at 64 bits.
    pub fn name_hash(&self) -> (h: u64)
        ensures
            h == sdbm(vstd::utf8::encode_utf8(self@.name)),
    {
        sdbm_hash(self.name.as_str().as_bytes())
    }

    /// The operator.
    pub fn depmod(&self) -> (m: DepMod)
        ensures
            m == self@.depmod,
    {
        self.depmod
    }

    /// The version that the operator applies to. A constrained
    /// dependency always has one.
    pub fn version(&self) -> (r: Option<&str>)
        ensures
            self@.wf(),
            match r {
                Some(v) => self@.version == Some(v@),
                None => self@.version is None,
            },
    {
        proof {
            use_type_invariant(self);
        }
        match &self.version {
            Some(v) => Some(v.as_str()),
            None => None,
        }
    }

    /// The version of a constrained dependency.
    fn version_unchecked(&self) -> (v: &str)
        requires
            self@.depmod != DepMod::Any,
        ensures
            self@.version == Some(v@),
    {
        proof {
            use_type_invariant(self);
        }
        match &self.version {
            Some(v) => v.as_str(),
            None => unreached(),
        }
    }

    /// The operator together with the version it applies to. Whatever
    /// version an unconstrained dependency carries is left out.
    pub fn depmodver(&self) -> (r: DepModVer<'_>)
        ensures
            r.operator() == self@.depmod,
            r.version() == if self@.depmod == DepMod::Any {
                None
            } else {
                self@.version
            },
            self@.wf(),
    {
        proof {
            use_type_invariant(self);
        }
        match self.depmod {
            DepMod::Any => DepModVer::Any,
            DepMod::Eq => DepModVer::Eq(self.version_unchecked()),
            DepMod::Ge => DepModVer::Ge(self.version_unchecked()),
            DepMod::Le => DepModVer::Le(self.version_unchecked()),
            DepMod::Gt => DepModVer::Gt(self.version_unchecked()),
            DepMod::Lt => DepModVer::Lt(self.version_unchecked()),
        }
    }

    /// The textual form: the name, then the operator and the version of
    /// a constrained dependency, then `": "` and the description where
    /// there is one.
    pub fn to_string(&self) -> (r: String)
        ensures
            r@ == render(self@),
    {
        let mut out = String::from_str(self.name.as_str());
        if self.depmod != DepMod::Any {
            out.append(self.depmod.symbol());
            out.append(self.version_unchecked());
        }
        match &self.desc {
            Some(t) => {
                proof {
                    reveal_strlit(": ");
                }
                out.append(": ");
                out.append(t.as_str());
                assert(out@ =~= render(self@));
            },
            None => {
                assert(out@ =~= render(self@));
            },
        }
        out
    }

    /// The description, where one was given.
    pub fn desc(&self) -> (r: Option<&str>)
        ensures
            match r {
                Some(t) => self@.desc == Some(t@),
                None => self@.desc is None,
            },
    {
        match &self.desc {
            Some(t) => Some(t.as_str()),
            None => None,
        }
    }
}

impl Clone for Depend {
    fn clone(&self) -> (r: Depend)
        ensures
            r@ == self@,
    {
        proof {
            use_type_invariant(self);
        }
        Depend {
            name: self.name.clone(),
            depmod: self.depmod,
            version: match &self.version {
                Some(v) => Some(v.clone()),
                None => None,
            },
            desc: match &self.desc {
                Some(t) => Some(t.clone()),
                None => None,
            },
        }
    }
}

impl PartialEq for Depend {
    /// Two dependencies are equal where name, operator, version and
    /// description are the same, character for character.
    fn eq(&self, other: &Depend) -> (r: bool) {
        str_eq(self.name(), other.name()) && self.depmod() == other.depmod() && opt_str_eq(
            self.version(),
            other.version(),
        ) && opt_str_eq(self.desc(), other.desc())
    }
}

impl PartialEqSpecImpl for Depend {
    open spec fn obeys_eq_spec() -> bool {
        true
    }

    open spec fn eq_spec(&self, other: &Depend) -> bool {
        self@ == other@
    }
}

impl Eq for Depend {

}

} // verus!
