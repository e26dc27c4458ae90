//! `SKleene`: the truth values of strong Kleene three-valued logic, with
//! negation, conjunction and disjunction given by their truth tables.

use vstd::prelude::*;

verus! {

/// A truth value of strong Kleene logic: definitely false, definitely true,
/// or unknown.
#[derive(Clone, Copy, PartialEq, Eq, Structural, Debug)]
pub enum SKleene {
    False,
    True,
    Unknown,
}

/// Conjunction: `False` if either side is `False`, `True` if both sides are
/// `True`, and `Unknown` otherwise.
pub open spec fn and_spec(a: SKleene, b: SKleene) -> SKleene {
    if a == SKleene::False || b == SKleene::False {
        SKleene::False
    } else if a == SKleene::True && b == SKleene::True {
        SKleene::True
    } else {
        SKleene::Unknown
    }
}

/// Disjunction: `True` if either side is `True`, `False` if both sides are
/// `False`, and `Unknown` otherwise.
pub open spec fn or_spec(a: SKleene, b: SKleene) -> SKleene {
    if a == SKleene::True || b == SKleene::True {
        SKleene::True
    } else if a == SKleene::False && b == SKleene::False {
        SKleene::False
    } else {
        SKleene::Unknown
    }
}

/// Negation: swaps `False` and `True`, keeps `Unknown`.
pub open spec fn negate_spec(v: SKleene) -> SKleene {
    match v {
        SKleene::False => SKleene::True,
        SKleene::True => SKleene::False,
        SKleene::Unknown => SKleene::Unknown,
    }
}

/// The two-valued boolean `b` as a truth value.
pub open spec fn from_bool_spec(b: bool) -> SKleene {
    if b {
        SKleene::True
    } else {
        SKleene::False
    }
}

/// The lowercase label of a truth value.
pub open spec fn display_text_spec(v: SKleene) -> Seq<char> {
    match v {
        SKleene::False => "false"@,
        SKleene::True => "true"@,
        SKleene::Unknown => "unknown"@,
    }
}

impl SKleene {
    /// Conjunction of `self` and `rhs`.
    pub fn and(self, rhs: SKleene) -> (r: SKleene)
        ensures
            r == and_spec(self, rhs),
    {
        match (self, rhs) {
            (SKleene::False, _) | (_, SKleene::False) => SKleene::False,
            (SKleene::True, SKleene::True) => SKleene::True,
            _ => SKleene::Unknown,
        }
    }

    /// Disjunction of `self` and `rhs`.
    pub fn or(self, rhs: SKleene) -> (r: SKleene)
        ensures
            r == or_spec(self, rhs),
    {
        match (self, rhs) {
            (SKleene::True, _) | (_, SKleene::True) => SKleene::True,
            (SKleene::False, SKleene::False) => SKleene::False,
            _ => SKleene::Unknown,
        }
    }

    /// Converts a two-valued boolean: `true` to `True`, `false` to `False`.
    pub fn from_bool(b: bool) -> (r: SKleene)
        ensures
            r == from_bool_spec(b),
            r != SKleene::Unknown,
    {
        if b {
            SKleene::True
        } else {
            SKleene::False
        }
    }

    /// Negation of `self`.
    pub fn negate(self) -> (r: SKleene)
        ensures
            r == negate_spec(self),
    {
        match self {
            SKleene::False => SKleene::True,
            SKleene::True => SKleene::False,
            SKleene::Unknown => SKleene::Unknown,
        }
    }

    /// The lowercase label of `self`: `"false"`, `"true"` or `"unknown"`.
    pub fn to_display_text(self) -> (r: &'static str)
        ensures
            r@ == display_text_spec(self),
    {
        match self {
            SKleene::False => "false",
            SKleene::True => "true",
            SKleene::Unknown => "unknown",
        }
    }
}

impl core::ops::Not for SKleene {
    type Output = SKleene;

    fn not(self) -> (r: SKleene)
        ensures
            r == negate_spec(self),
    {
        self.negate()
    }
}

impl vstd::std_specs::ops::NotSpecImpl for SKleene {
    open spec fn obeys_not_spec() -> bool {
        true
    }

    open spec fn not_req(self) -> bool {
        true
    }

    open spec fn not_spec(self) -> SKleene {
        negate_spec(self)
    }
}

impl core::ops::BitAnd for SKleene {
    type Output = SKleene;

    fn bitand(self, rhs: SKleene) -> (r: SKleene)
        ensures
            r == and_spec(self, rhs),
    {
        self.and(rhs)
    }
}

impl vstd::std_specs::ops::BitAndSpecImpl for SKleene {
    open spec fn obeys_bitand_spec() -> bool {
        true
    }

    open spec fn bitand_req(self, rhs: SKleene) -> bool {
        true
    }

    open spec fn bitand_spec(self, rhs: SKleene) -> SKleene {
        and_spec(self, rhs)
    }
}

impl core::ops::BitOr for SKleene {
    type Output = SKleene;

    fn bitor(self, rhs: SKleene) -> (r: SKleene)
        ensures
            r == or_spec(self, rhs),
    {
        self.or(rhs)
    }
}

impl vstd::std_specs::ops::BitOrSpecImpl for SKleene {
    open spec fn obeys_bitor_spec() -> bool {
        true
    }

    open spec fn bitor_req(self, rhs: SKleene) -> bool {
        true
    }

    open spec fn bitor_spec(self, rhs: SKleene) -> SKleene {
        or_spec(self, rhs)
    }
}

} // verus!
