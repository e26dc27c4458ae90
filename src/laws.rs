//! Algebraic laws of strong Kleene logic, stated over the truth tables that
//! the operations of `SKleene` are proved to compute.

use vstd::prelude::*;
use crate::skleene::{SKleene, and_spec, or_spec, negate_spec, from_bool_spec};

verus! {

/// Negation is total: it maps every truth value to one of the three values.
pub proof fn lemma_negate_total(v: SKleene)
    ensures
        negate_spec(v) == SKleene::False || negate_spec(v) == SKleene::True
            || negate_spec(v) == SKleene::Unknown,
{
}

/// Negating twice gives back the value negated, `Unknown` included.
pub proof fn lemma_double_negation(v: SKleene)
    ensures
        negate_spec(negate_spec(v)) == v,
{
}

/// Conjunction and disjunction do not depend on the order of their operands.
pub proof fn lemma_commutative(a: SKleene, b: SKleene)
    ensures
        and_spec(a, b) == and_spec(b, a),
        or_spec(a, b) == or_spec(b, a),
{
}

/// `False` absorbs every value under conjunction, and `True` under
/// disjunction, even an `Unknown` one.
pub proof fn lemma_absorbing(x: SKleene)
    ensures
        and_spec(SKleene::False, x) == SKleene::False,
        or_spec(SKleene::True, x) == SKleene::True,
{
}

/// Combining a value with itself gives back that value.
pub proof fn lemma_idempotent(x: SKleene)
    ensures
        and_spec(x, x) == x,
        or_spec(x, x) == x,
{
}

/// De Morgan's laws: negation turns a conjunction into the disjunction of
/// the negations, and a disjunction into the conjunction of the negations.
pub proof fn lemma_de_morgan(a: SKleene, b: SKleene)
    ensures
        negate_spec(and_spec(a, b)) == or_spec(negate_spec(a), negate_spec(b)),
        negate_spec(or_spec(a, b)) == and_spec(negate_spec(a), negate_spec(b)),
{
}

/// Conversion from a boolean keeps definite values and never gives `Unknown`.
pub proof fn lemma_from_bool_definite(b: bool)
    ensures
        from_bool_spec(true) == SKleene::True,
        from_bool_spec(false) == SKleene::False,
        from_bool_spec(b) != SKleene::Unknown,
{
}

} // verus!
