//! The textual form of a dependency: `name`, optionally followed by an
//! operator and a version, optionally followed by `": "` and a description.

use crate::depmod::DepMod;
use vstd::prelude::*;

verus! {

/// What a dependency holds, as plain mathematical values.
pub struct DependView {
    /// The name of the package, or of the capability, depended upon.
    pub name: Seq<char>,
    /// The relation required of a candidate's version.
    pub depmod: DepMod,
    /// The version that the relation is taken against.
    pub version: Option<Seq<char>>,
    /// Free text saying what the dependency is for.
    pub desc: Option<Seq<char>>,
}

impl DependView {
    /// A dependency has a name, and a constrained one names the version
    /// it is constrained by.
    pub open spec fn wf(self) -> bool {
        &&& self.name.len() > 0
        &&& self.depmod != DepMod::Any ==> self.version is Some
    }
}

/// Why a text is no dependency.
#[derive(Debug, PartialEq, Eq, Structural, Clone, Copy, Hash)]
pub enum DependError {
    /// No name stands before the operator, or the text before the
    /// description is empty.
    EmptyName,
    /// Besides the one operator, another `<`, `>` or `=` stands in the
    /// name or in the version, as in `foo==1`, `foo=>1` or `foo<=>1`.
    StrayOperator,
}

/// The least index in `from..to` at which `s` holds `c`; `to` if there is
/// none.
pub open spec fn first_char(s: Seq<char>, c: char, from: int, to: int) -> int
    decreases to - from,
{
    if from >= to {
        to
    } else if s[from] == c {
        from
    } else {
        first_char(s, c, from + 1, to)
    }
}

/// Whether `": "` starts at index `j` of `s`.
pub open spec fn delim_at(s: Seq<char>, j: int) -> bool {
    j + 1 < s.len() && s[j] == ':' && s[j + 1] == ' '
}

/// Whether `c` is one of the characters that operators are written with.
pub open spec fn is_operator_char(c: char) -> bool {
    c == '<' || c == '>' || c == '='
}

/// The least index at or after `from` at which `": "` starts in `s`;
/// `s.len()` if it starts nowhere. A colon that no space follows, as in
/// an epoch, does not count.
pub open spec fn desc_delim(s: Seq<char>, from: int) -> int
    decreases s.len() - from,
{
    if from >= s.len() {
        s.len() as int
    } else if delim_at(s, from) {
        from
    } else {
        desc_delim(s, from + 1)
    }
}

/// The description: what follows the first `": "`, if there is one.
pub open spec fn desc_part(s: Seq<char>) -> Option<Seq<char>> {
    let d = desc_delim(s, 0);
    if d < s.len() {
        Some(s.subrange(d + 2, s.len() as int))
    } else {
        None
    }
}

/// Where the operator starts in `s`, looking at the first `end`
/// characters only: at the first `<` if there is one, else at the first
/// `>`, else at the first `=`, else at `end`.
pub open spec fn operator_start(s: Seq<char>, end: int) -> int {
    let lt = first_char(s, '<', 0, end);
    let gt = first_char(s, '>', 0, end);
    if lt < end {
        lt
    } else if gt < end {
        gt
    } else {
        first_char(s, '=', 0, end)
    }
}

/// The operator that starts at `at`, where `end` bounds the constraint:
/// `<` and `>` take a directly following `=` with them.
pub open spec fn operator_at(s: Seq<char>, at: int, end: int) -> DepMod {
    if at >= end {
        DepMod::Any
    } else {
        let closed = at + 1 < end && s[at + 1] == '=';
        if s[at] == '<' {
            if closed {
                DepMod::Le
            } else {
                DepMod::Lt
            }
        } else if s[at] == '>' {
            if closed {
                DepMod::Ge
            } else {
                DepMod::Gt
            }
        } else {
            DepMod::Eq
        }
    }
}

/// The number of characters that the operator `m` is written with.
pub open spec fn operator_len(m: DepMod) -> int {
    match m {
        DepMod::Any => 0,
        DepMod::Eq | DepMod::Lt | DepMod::Gt => 1,
        DepMod::Le | DepMod::Ge => 2,
    }
}

/// How the text `s` falls into the parts of a dependency: the name runs
/// up to the operator, the version from the operator up to the
/// description. A text without an operator spells a name and nothing
/// else. Whether the parts make a dependency is for `parse_error` to say.
pub open spec fn parse_depend(s: Seq<char>) -> DependView {
    let end = desc_delim(s, 0);
    let at = operator_start(s, end);
    let m = operator_at(s, at, end);
    DependView {
        name: s.subrange(0, at),
        depmod: m,
        version: if m == DepMod::Any {
            None
        } else {
            Some(s.subrange(at + operator_len(m), end))
        },
        desc: desc_part(s),
    }
}

/// What is wrong with the text `s`, if anything is. A text is refused
/// where its name is empty, and else where a second operator character
/// stands in its name or in its version; every other text is a
/// dependency, and `parse_depend` gives its parts. An empty version after
/// an operator is let through.
pub open spec fn parse_error(s: Seq<char>) -> Option<DependError> {
    let d = parse_depend(s);
    if d.name.len() == 0 {
        Some(DependError::EmptyName)
    } else if has_operator(d.name) || (d.version matches Some(v) && has_operator(v)) {
        Some(DependError::StrayOperator)
    } else {
        None
    }
}

/// The text that a dependency is written as: the name, the operator and
/// version of a constrained dependency, and the description after `": "`.
pub open spec fn render(d: DependView) -> Seq<char> {
    let constraint = if d.depmod != DepMod::Any && d.version is Some {
        d.depmod.text() + d.version->0
    } else {
        seq![]
    };
    let note = match d.desc {
        Some(t) => seq![':', ' '] + t,
        None => seq![],
    };
    d.name + constraint + note
}

/// `first_char` finds the first occurrence: it lies within `from..=to`,
/// `c` stands nowhere before it, and `c` stands at it unless it is `to`.
pub proof fn first_char_is_first(s: Seq<char>, c: char, from: int, to: int)
    requires
        0 <= from <= to <= s.len(),
    ensures
        from <= first_char(s, c, from, to) <= to,
        forall|j: int| from <= j < first_char(s, c, from, to) ==> s[j] != c,
        first_char(s, c, from, to) < to ==> s[first_char(s, c, from, to)] == c,
    decreases to - from,
{
    if from < to && s[from] != c {
        first_char_is_first(s, c, from + 1, to);
    }
}

/// `desc_delim` finds the first `": "`: it starts nowhere before, and it
/// starts there unless what was found is `s.len()`.
pub proof fn desc_delim_is_first(s: Seq<char>, from: int)
    requires
        0 <= from <= s.len(),
    ensures
        from <= desc_delim(s, from) <= s.len(),
        forall|j: int| from <= j < desc_delim(s, from) ==> !delim_at(s, j),
        desc_delim(s, from) < s.len() ==> delim_at(s, desc_delim(s, from)),
    decreases s.len() - from,
{
    if from < s.len() && !delim_at(s, from) {
        desc_delim_is_first(s, from + 1);
    }
}

/// A text that is not refused gives a well-formed dependency, with no
/// operator character in its name or in its version.
pub proof fn accepted_is_well_formed(s: Seq<char>)
    requires
        parse_error(s) is None,
    ensures
        parse_depend(s).wf(),
        !has_operator(parse_depend(s).name),
        parse_depend(s).version matches Some(v) ==> !has_operator(v),
{
}

/// A text whose name part is empty is refused, whatever follows.
pub proof fn empty_name_is_refused(s: Seq<char>)
    requires
        parse_depend(s).name.len() == 0,
    ensures
        parse_error(s) == Some(DependError::EmptyName),
{
}

/// A text denotes an unconstrained dependency exactly where none of `<`,
/// `>` and `=` stands before its description.
pub proof fn unconstrained_iff_no_operator(s: Seq<char>)
    ensures
        parse_depend(s).depmod == DepMod::Any <==> forall|j: int|
            0 <= j < desc_delim(s, 0) ==> !is_operator_char(#[trigger] s[j]),
{
    let end = desc_delim(s, 0);
    desc_delim_is_first(s, 0);
    first_char_is_first(s, '<', 0, end);
    first_char_is_first(s, '>', 0, end);
    first_char_is_first(s, '=', 0, end);
}

/// Writing a dependency that was read from a text gives that text back.
pub proof fn render_of_parsed_is_the_text(s: Seq<char>)
    ensures
        render(parse_depend(s)) == s,
{
    let end = desc_delim(s, 0);
    desc_delim_is_first(s, 0);
    first_char_is_first(s, '<', 0, end);
    first_char_is_first(s, '>', 0, end);
    first_char_is_first(s, '=', 0, end);
    assert(render(parse_depend(s)) =~= s);
}

/// Whether `": "` occurs in `t`.
pub open spec fn has_delim(t: Seq<char>) -> bool {
    exists|j: int| 0 <= j && delim_at(t, j)
}

/// Whether one of `<`, `>` and `=` occurs in `t`.
pub open spec fn has_operator(t: Seq<char>) -> bool {
    exists|j: int| 0 <= j < t.len() && is_operator_char(#[trigger] t[j])
}

/// A dependency whose text can be read back without loss: it has a
/// name, it carries a version exactly where it is constrained, and
/// neither its name nor its version holds an operator or the mark that
/// starts the description.
pub open spec fn is_plain(d: DependView) -> bool {
    &&& d.name.len() > 0
    &&& d.depmod == DepMod::Any <==> d.version is None
    &&& !has_operator(d.name)
    &&& !has_delim(d.name)
    &&& d.version matches Some(v) ==> !has_operator(v) && !has_delim(v)
}

/// The index at which `c` first occurs between `from` and `to` is what
/// `first_char` finds.
pub proof fn first_char_found(s: Seq<char>, c: char, from: int, to: int, at: int)
    requires
        0 <= from <= at <= to <= s.len(),
        forall|j: int| from <= j < at ==> s[j] != c,
        at < to ==> s[at] == c,
    ensures
        first_char(s, c, from, to) == at,
    decreases to - from,
{
    if from < at {
        first_char_found(s, c, from + 1, to, at);
    }
}

/// The index at which `": "` first starts at or after `from` is what
/// `desc_delim` finds; where it starts nowhere, that is `s.len()`.
pub proof fn desc_delim_found(s: Seq<char>, from: int, at: int)
    requires
        0 <= from <= at <= s.len(),
        forall|j: int| from <= j < at ==> !delim_at(s, j),
        at < s.len() ==> delim_at(s, at),
    ensures
        desc_delim(s, from) == at,
    decreases s.len() - from,
{
    if from < at {
        desc_delim_found(s, from + 1, at);
    }
}

/// The text of a plain dependency is not refused, and reading it gives
/// that dependency back.
pub proof fn parse_of_rendered_is_the_dependency(d: DependView)
    requires
        is_plain(d),
    ensures
        parse_error(render(d)) is None,
        parse_depend(render(d)) == d,
{
    let s = render(d);
    let op = d.depmod.text();
    let v = match d.version {
        Some(v) => v,
        None => seq![],
    };
    let n = d.name.len() as int;
    let end = n + op.len() + v.len();
    assert(d.depmod == DepMod::Any ==> op.len() == 0 && v.len() == 0);
    assert(forall|j: int| 0 <= j < n ==> s[j] == d.name[j]);
    assert(forall|j: int| n <= j < n + op.len() ==> s[j] == op[j - n]);
    assert(forall|j: int| n + op.len() <= j < end ==> s[j] == v[j - n - op.len()]);
    assert(forall|j: int| 0 <= j < v.len() ==> v[j] == s[j + n + op.len()]);
    assert forall|j: int| 0 <= j < end implies !delim_at(s, j) by {
        if j + 1 < n {
            assert(d.name[j + 1] == s[j + 1]);
            assert(!delim_at(d.name, j));
        } else if j >= n + op.len() && j + 1 < end {
            assert(v[j + 1 - n - op.len()] == s[j + 1]);
            assert(!delim_at(v, j - n - op.len()));
        }
    }
    if d.desc is Some {
        assert(delim_at(s, end));
    }
    desc_delim_found(s, 0, end);
    assert(desc_part(s) =~= d.desc);
    assert forall|j: int| 0 <= j < n implies !is_operator_char(s[j]) by {
        assert(d.name[j] == s[j]);
    }
    assert forall|j: int| n + op.len() <= j < end implies !is_operator_char(s[j]) by {
        assert(v[j - n - op.len()] == s[j]);
    }
    match d.depmod {
        DepMod::Any => {
            first_char_found(s, '<', 0, end, end);
            first_char_found(s, '>', 0, end, end);
            first_char_found(s, '=', 0, end, end);
        },
        DepMod::Lt | DepMod::Le => {
            first_char_found(s, '<', 0, end, n);
        },
        DepMod::Gt | DepMod::Ge => {
            first_char_found(s, '<', 0, end, end);
            first_char_found(s, '>', 0, end, n);
        },
        DepMod::Eq => {
            first_char_found(s, '<', 0, end, end);
            first_char_found(s, '>', 0, end, end);
            first_char_found(s, '=', 0, end, n);
        },
    }
    let p = parse_depend(s);
    assert(operator_start(s, end) == n);
    assert(p.depmod == d.depmod);
    assert(p.name =~= d.name);
    assert(p.version =~= d.version);
}

} // verus!
