use alpm_utils::{satisfies_dep, satisfies_provide, satisfies_ver, DepMod, Depend};
use std::cmp::Ordering;

/// Splits a version into runs of digits and runs of letters.
fn segments(v: &str) -> Vec<(bool, String)> {
    let mut out: Vec<(bool, String)> = Vec::new();
    for c in v.chars() {
        if !c.is_ascii_alphanumeric() {
            out.push((false, String::new()));
            continue;
        }
        let numeric = c.is_ascii_digit();
        match out.last_mut() {
            Some((n, s)) if *n == numeric && !s.is_empty() => s.push(c),
            Some((_, s)) if s.is_empty() => {
                out.pop();
                out.push((numeric, c.to_string()));
            }
            _ => out.push((numeric, c.to_string())),
        }
    }
    out.retain(|(_, s)| !s.is_empty());
    out
}

/// A comparator for dotted versions: numbers by value, letters by text,
/// and the version with segments left over is the newer one.
fn vercmp(a: &str, b: &str) -> Ordering {
    let (x, y) = (segments(a), segments(b));
    for (p, q) in x.iter().zip(y.iter()) {
        let o = match (p.0, q.0) {
            (true, true) => {
                let m = p.1.trim_start_matches('0');
                let n = q.1.trim_start_matches('0');
                m.len().cmp(&n.len()).then(m.cmp(n))
            }
            (true, false) => Ordering::Greater,
            (false, true) => Ordering::Less,
            (false, false) => p.1.cmp(&q.1),
        };
        if o != Ordering::Equal {
            return o;
        }
    }
    x.len().cmp(&y.len())
}

fn never(_: &str, _: &str) -> Ordering {
    panic!("the comparator was asked")
}

#[test]
fn test_satisfies_ver() {
    assert!(satisfies_ver(&Depend::new("foo>0").unwrap(), "9.0.0", vercmp));
    assert!(satisfies_ver(&Depend::new("foo<10").unwrap(), "9.0.0", vercmp));
    assert!(satisfies_ver(&Depend::new("foo<=10").unwrap(), "9.0.0", vercmp));
    assert!(satisfies_ver(&Depend::new("foo>=9").unwrap(), "9.0.0", vercmp));
    assert!(satisfies_ver(&Depend::new("foo=9.0.0").unwrap(), "9.0.0", vercmp));

    assert!(!satisfies_ver(&Depend::new("foo>=10").unwrap(), "9.0.0", vercmp));
    assert!(!satisfies_ver(&Depend::new("foo<=8").unwrap(), "9.0.0", vercmp));
    assert!(!satisfies_ver(&Depend::new("foo=8").unwrap(), "9.0.0", vercmp));

    assert!(satisfies_ver(&Depend::new("foo").unwrap(), "1", vercmp));
    assert!(satisfies_ver(&Depend::new("foo").unwrap(), "1.0.0", vercmp));
}

#[test]
fn satisfies_ver_hands_candidate_left_and_constraint_right() {
    let seen = std::cell::RefCell::new(Vec::new());
    let ok = satisfies_ver(&Depend::new("foo>=2.5").unwrap(), "3.1", |a: &str, b: &str| {
        seen.borrow_mut().push((a.to_string(), b.to_string()));
        Ordering::Greater
    });
    assert!(ok);
    assert_eq!(*seen.borrow(), vec![("3.1".to_string(), "2.5".to_string())]);
}

#[test]
fn satisfies_ver_follows_the_comparator_answer() {
    let table = [
        ("foo=1", [false, true, false]),
        ("foo>=1", [false, true, true]),
        ("foo<=1", [true, true, false]),
        ("foo>1", [false, false, true]),
        ("foo<1", [true, false, false]),
        ("foo", [true, true, true]),
    ];
    let answers = [Ordering::Less, Ordering::Equal, Ordering::Greater];
    for (text, expected) in table.iter() {
        let dep = Depend::new(text).unwrap();
        for (answer, want) in answers.iter().zip(expected.iter()) {
            let got = satisfies_ver(&dep, "x", |_: &str, _: &str| *answer);
            assert_eq!(got, *want, "{} under {:?}", text, answer);
        }
    }
}

#[test]
fn unconstrained_is_satisfied_without_comparing() {
    assert!(satisfies_ver(&Depend::new("foo").unwrap(), "", never));
    assert!(satisfies_ver(&Depend::new("foo").unwrap(), "not a version", never));
    assert!(satisfies_dep(&Depend::new("foo").unwrap(), "foo", "", never));
    assert!(satisfies_provide(&Depend::new("foo").unwrap(), &Depend::new("foo").unwrap(), never));
    assert!(satisfies_provide(&Depend::new("foo").unwrap(), &Depend::new("foo=3").unwrap(), never));
}

#[test]
fn satisfies_dep_checks_name_then_version() {
    let dep = Depend::new("foo>=9").unwrap();
    assert!(satisfies_dep(&dep, "foo", "9.0.0", vercmp));
    assert!(!satisfies_dep(&dep, "bar", "9.0.0", vercmp));
    assert!(!satisfies_dep(&dep, "foo", "8.9", vercmp));
    assert!(!satisfies_dep(&dep, "Foo", "9.0.0", vercmp));
    assert!(!satisfies_dep(&dep, "fo", "9.0.0", vercmp));
    assert!(!satisfies_dep(&dep, "fooo", "9.0.0", vercmp));
}

#[test]
fn name_mismatch_is_settled_without_comparing() {
    assert!(!satisfies_dep(&Depend::new("foo>=9").unwrap(), "bar", "9.0.0", never));
    assert!(!satisfies_dep(&Depend::new("foo").unwrap(), "bar", "1", never));
    assert!(!satisfies_provide(&Depend::new("foo>=9").unwrap(), &Depend::new("bar=9").unwrap(), never));
}

#[test]
fn unversioned_provide_fails_versioned_dependency() {
    let dep = Depend::new("foo>=9").unwrap();
    assert!(!satisfies_provide(&dep, &Depend::new("foo").unwrap(), never));
    assert!(satisfies_dep(&dep, "foo", "9.0.0", vercmp));
}

#[test]
fn versioned_provide_is_checked_by_its_version() {
    let dep = Depend::new("foo>=9").unwrap();
    assert!(satisfies_provide(&dep, &Depend::new("foo=9.1").unwrap(), vercmp));
    assert!(satisfies_provide(&dep, &Depend::new("foo>=9.1").unwrap(), vercmp));
    assert!(satisfies_provide(&dep, &Depend::new("foo=9").unwrap(), vercmp));
    assert!(!satisfies_provide(&dep, &Depend::new("foo=8").unwrap(), vercmp));
    assert!(!satisfies_provide(&dep, &Depend::new("bar=9.1").unwrap(), vercmp));
    let seen = std::cell::RefCell::new(Vec::new());
    let ok = satisfies_provide(&dep, &Depend::new("foo=4").unwrap(), |a: &str, b: &str| {
        seen.borrow_mut().push((a.to_string(), b.to_string()));
        Ordering::Less
    });
    assert!(!ok);
    assert_eq!(*seen.borrow(), vec![("4".to_string(), "9".to_string())]);
}

#[test]
fn operators_accept_by_ordering() {
    let all = [DepMod::Any, DepMod::Eq, DepMod::Ge, DepMod::Le, DepMod::Gt, DepMod::Lt];
    let expected = [
        [true, true, true],
        [false, true, false],
        [false, true, true],
        [true, true, false],
        [false, false, true],
        [true, false, false],
    ];
    for (m, row) in all.iter().zip(expected.iter()) {
        assert_eq!(m.accepts(Ordering::Less), row[0]);
        assert_eq!(m.accepts(Ordering::Equal), row[1]);
        assert_eq!(m.accepts(Ordering::Greater), row[2]);
    }
}

#[test]
fn greater_meets_lower_bounds_equal_meets_inclusive_ones() {
    let greater = |_: &str, _: &str| Ordering::Greater;
    let equal = |_: &str, _: &str| Ordering::Equal;
    assert!(satisfies_ver(&Depend::new("foo>=5").unwrap(), "v", greater));
    assert!(satisfies_ver(&Depend::new("foo>5").unwrap(), "v", greater));
    assert!(satisfies_ver(&Depend::new("foo>=5").unwrap(), "v", equal));
    assert!(satisfies_ver(&Depend::new("foo<=5").unwrap(), "v", equal));
    assert!(!satisfies_ver(&Depend::new("foo>5").unwrap(), "v", equal));
    assert!(!satisfies_ver(&Depend::new("foo<5").unwrap(), "v", equal));
    assert!(satisfies_ver(&Depend::new("foo=5").unwrap(), "v", equal));
    assert!(!satisfies_ver(&Depend::new("foo=5").unwrap(), "v", greater));
}

#[test]
fn unconstrained_provide_with_a_version_is_not_compared() {
    let provide = Depend::from_parts("foo".to_string(), DepMod::Any, Some("9".to_string()), None).unwrap();
    assert!(!satisfies_provide(&Depend::new("foo>=1").unwrap(), &provide, never));
    assert!(satisfies_provide(&Depend::new("foo").unwrap(), &provide, never));
}
