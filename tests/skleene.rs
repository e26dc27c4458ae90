use trilean::SKleene;
use trilean::SKleene::{False, True, Unknown};

const ALL: [SKleene; 3] = [False, True, Unknown];

#[test]
fn test_not() {
    assert_eq!(!True, False);
    assert_eq!(!False, True);
    assert_eq!(!Unknown, Unknown);
}

#[test]
fn test_and() {
    let f = |a: SKleene, b, e| {
        assert_eq!(a.and(b), e);
        assert_eq!(b.and(a), e);
        assert_eq!(a & b, e);
    };
    f(True, True, True);
    f(True, False, False);
    f(True, Unknown, Unknown);
    f(False, False, False);
    f(False, Unknown, False);
    f(Unknown, Unknown, Unknown);
}

#[test]
fn test_or() {
    let f = |a: SKleene, b, e| {
        assert_eq!(a.or(b), e);
        assert_eq!(b.or(a), e);
        assert_eq!(a | b, e);
    };
    f(True, True, True);
    f(True, False, True);
    f(True, Unknown, True);
    f(False, False, False);
    f(False, Unknown, Unknown);
    f(Unknown, Unknown, Unknown);
}

#[test]
fn test_from_bool() {
    assert_eq!(SKleene::from_bool(true), True);
    assert_eq!(SKleene::from_bool(false), False);
}

#[test]
fn negate_matches_not_operator() {
    assert_eq!(False.negate(), True);
    assert_eq!(True.negate(), False);
    assert_eq!(Unknown.negate(), Unknown);
    for v in ALL {
        assert_eq!(v.negate(), !v);
    }
}

#[test]
fn double_negation_gives_back_value() {
    for v in ALL {
        assert_eq!(v.negate().negate(), v);
        assert_eq!(!!v, v);
    }
}

#[test]
fn and_or_commute_on_all_pairs() {
    for a in ALL {
        for b in ALL {
            assert_eq!(a.and(b), b.and(a));
            assert_eq!(a.or(b), b.or(a));
        }
    }
}

#[test]
fn false_and_true_absorb() {
    for x in ALL {
        assert_eq!(False.and(x), False);
        assert_eq!(True.or(x), True);
    }
}

#[test]
fn and_or_idempotent() {
    for x in ALL {
        assert_eq!(x.and(x), x);
        assert_eq!(x.or(x), x);
    }
}

#[test]
fn de_morgan_on_all_pairs() {
    for a in ALL {
        for b in ALL {
            assert_eq!(a.and(b).negate(), a.negate().or(b.negate()));
            assert_eq!(a.or(b).negate(), a.negate().and(b.negate()));
        }
    }
}

#[test]
fn from_bool_never_unknown() {
    assert_ne!(SKleene::from_bool(true), Unknown);
    assert_ne!(SKleene::from_bool(false), Unknown);
}

#[test]
fn and_table_scenarios() {
    assert_eq!(True.and(Unknown), Unknown);
    assert_eq!(Unknown.and(True), Unknown);
    assert_eq!(False.and(Unknown), False);
    assert_eq!(Unknown.and(False), False);
    assert_eq!(False.and(True), False);
}

#[test]
fn or_table_scenarios() {
    assert_eq!(False.or(Unknown), Unknown);
    assert_eq!(True.or(Unknown), True);
    assert_eq!(Unknown.or(True), True);
    assert_eq!(False.or(True), True);
}

#[test]
fn display_text_labels() {
    assert_eq!(Unknown.to_display_text(), "unknown");
    assert_eq!(True.to_display_text(), "true");
    assert_eq!(False.to_display_text(), "false");
}
