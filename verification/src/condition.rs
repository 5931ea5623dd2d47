//! Composable boolean conditions over element properties.
//!
//! A condition is a conjunction of property predicates: it accepts an
//! element exactly when every listed property carries its expected boolean
//! value. The empty condition is the always-true condition.

use vstd::prelude::*;

verus! {

/// The element properties this system filters on.
#[derive(Clone, Copy, PartialEq, Eq, Structural, Debug)]
pub enum PropertyId {
    TextPattern2Available,
    ValuePatternAvailable,
    ValueIsReadOnly,
}

/// A leaf predicate: one property paired with the boolean value it must
/// carry.
#[derive(Clone, Copy, PartialEq, Eq, Structural, Debug)]
pub struct PropertyPredicate {
    pub property: PropertyId,
    pub expected: bool,
}

/// Whether one predicate holds of a property valuation.
pub open spec fn pred_holds(props: Map<PropertyId, bool>, p: PropertyPredicate) -> bool {
    props.contains_key(p.property) && props[p.property] == p.expected
}

/// Whether every predicate in the sequence holds of the valuation: the
/// conjunctive meaning of a condition.
pub open spec fn all_hold(props: Map<PropertyId, bool>, preds: Seq<PropertyPredicate>) -> bool {
    forall|i: int| 0 <= i < preds.len() ==> pred_holds(props, #[trigger] preds[i])
}

/// A conjunctive condition over element properties, built once per run and
/// reused across polls.
pub struct Condition {
    pub predicates: Vec<PropertyPredicate>,
}

impl View for Condition {
    type V = Seq<PropertyPredicate>;

    open spec fn view(&self) -> Seq<PropertyPredicate> {
        self.predicates@
    }
}

impl Condition {
    /// The meaning of this condition: it accepts a valuation exactly when
    /// all its predicates hold there.
    pub open spec fn satisfied_by(&self, props: Map<PropertyId, bool>) -> bool {
        all_hold(props, self@)
    }

    /// The always-true condition, with no predicates.
    pub fn always_true() -> (c: Condition)
        ensures
            c@ == Seq::<PropertyPredicate>::empty(),
    {
        Condition { predicates: Vec::new() }
    }

    /// Conjoins one more leaf predicate onto this condition.
    pub fn and_predicate(&mut self, p: PropertyPredicate)
        ensures
            final(self)@ == old(self)@.push(p),
    {
        self.predicates.push(p);
    }

    /// The predicates of this condition, in the order they were conjoined.
    pub fn predicates(&self) -> (ps: &Vec<PropertyPredicate>)
        ensures
            ps@ == self@,
    {
        &self.predicates
    }
}

/// A condition's meaning is exactly "every predicate it contains holds":
/// the indexed conjunction over the sequence coincides with the quantified
/// statement over membership, so meaning ignores order and multiplicity.
pub proof fn lemma_all_hold_iff_contains(props: Map<PropertyId, bool>, s: Seq<PropertyPredicate>)
    ensures
        all_hold(props, s) <==> (forall|p: PropertyPredicate|
            s.contains(p) ==> pred_holds(props, p)),
{
    if all_hold(props, s) {
        assert forall|p: PropertyPredicate| s.contains(p) implies pred_holds(props, p) by {
            let i = choose|i: int| 0 <= i < s.len() && s[i] == p;
            assert(pred_holds(props, s[i]));
        }
    }
    if forall|p: PropertyPredicate| s.contains(p) ==> pred_holds(props, p) {
        assert forall|i: int| 0 <= i < s.len() implies pred_holds(props, #[trigger] s[i]) by {
            assert(s.contains(s[i]));
        }
    }
}

/// Conjoining two predicate sequences means exactly the conjunction of
/// their meanings.
pub proof fn lemma_all_hold_concat(
    props: Map<PropertyId, bool>,
    a: Seq<PropertyPredicate>,
    b: Seq<PropertyPredicate>,
)
    ensures
        all_hold(props, a + b) <==> all_hold(props, a) && all_hold(props, b),
{
    if all_hold(props, a + b) {
        assert forall|i: int| 0 <= i < a.len() implies pred_holds(props, #[trigger] a[i]) by {
            assert(pred_holds(props, (a + b)[i]));
        }
        assert forall|i: int| 0 <= i < b.len() implies pred_holds(props, #[trigger] b[i]) by {
            assert(pred_holds(props, (a + b)[a.len() + i]));
        }
    }
    if all_hold(props, a) && all_hold(props, b) {
        assert forall|i: int| 0 <= i < (a + b).len() implies pred_holds(
            props,
            #[trigger] (a + b)[i],
        ) by {
            if i < a.len() {
                assert((a + b)[i] == a[i]);
            } else {
                assert((a + b)[i] == b[i - a.len()]);
            }
        }
    }
}

/// The condition built from no predicates is the always-true condition: it
/// accepts every property valuation.
pub proof fn lemma_empty_condition_always_true(c: Condition)
    requires
        c@ == Seq::<PropertyPredicate>::empty(),
    ensures
        forall|props: Map<PropertyId, bool>| c.satisfied_by(props),
{
}

/// Conjoining a condition with the empty predicate sequence leaves its
/// meaning unchanged.
pub proof fn lemma_conjoin_empty(props: Map<PropertyId, bool>, s: Seq<PropertyPredicate>)
    ensures
        all_hold(props, s + Seq::<PropertyPredicate>::empty()) <==> all_hold(props, s),
{
    assert(s + Seq::<PropertyPredicate>::empty() =~= s);
}

/// Conjunction of predicate sequences is associative in meaning.
pub proof fn lemma_conjoin_associative(
    props: Map<PropertyId, bool>,
    a: Seq<PropertyPredicate>,
    b: Seq<PropertyPredicate>,
    c: Seq<PropertyPredicate>,
)
    ensures
        all_hold(props, (a + b) + c) <==> all_hold(props, a + (b + c)),
{
    assert((a + b) + c =~= a + (b + c));
}

/// Two conditions holding the same predicates, in whatever order and with
/// whatever repetition, accept exactly the same valuations: the semantic
/// conjunction is commutative and idempotent.
pub proof fn lemma_condition_order_irrelevant(c1: Condition, c2: Condition)
    requires
        forall|p: PropertyPredicate| c1@.contains(p) <==> c2@.contains(p),
    ensures
        forall|props: Map<PropertyId, bool>|
            c1.satisfied_by(props) <==> c2.satisfied_by(props),
{
    assert forall|props: Map<PropertyId, bool>|
        c1.satisfied_by(props) <==> c2.satisfied_by(props) by {
        lemma_all_hold_iff_contains(props, c1@);
        lemma_all_hold_iff_contains(props, c2@);
    }
}

/// Builds the conjunction of the given predicates, starting from the
/// always-true condition and conjoining each in order.
pub fn build(predicates: &Vec<PropertyPredicate>) -> (c: Condition)
    ensures
        c@ == predicates@,
{
    let mut c = Condition::always_true();
    let mut i: usize = 0;
    while i < predicates.len()
        invariant
            i <= predicates.len(),
            c@ == predicates@.subrange(0, i as int),
        decreases predicates.len() - i,
    {
        c.and_predicate(predicates[i]);
        i = i + 1;
        proof {
            assert(c@ =~= predicates@.subrange(0, i as int));
        }
    }
    proof {
        assert(c@ =~= predicates@);
    }
    c
}

/// The predicates of the "text-capable" preset: the rich-text pattern is
/// available.
pub open spec fn text_capable_preds() -> Seq<PropertyPredicate> {
    seq![
        PropertyPredicate { property: PropertyId::TextPattern2Available, expected: true },
    ]
}

/// The predicates of the "editable-text-capable" preset: the rich-text
/// pattern is available and the value is not read-only.
pub open spec fn editable_text_capable_preds() -> Seq<PropertyPredicate> {
    seq![
        PropertyPredicate { property: PropertyId::TextPattern2Available, expected: true },
        PropertyPredicate { property: PropertyId::ValueIsReadOnly, expected: false },
    ]
}

/// The "text-capable" preset condition.
pub fn text_capable() -> (c: Condition)
    ensures
        c@ == text_capable_preds(),
{
    let mut ps: Vec<PropertyPredicate> = Vec::new();
    ps.push(PropertyPredicate { property: PropertyId::TextPattern2Available, expected: true });
    let c = build(&ps);
    proof {
        assert(c@ =~= text_capable_preds());
    }
    c
}

/// The "editable-text-capable" preset condition.
pub fn editable_text_capable() -> (c: Condition)
    ensures
        c@ == editable_text_capable_preds(),
{
    let mut ps: Vec<PropertyPredicate> = Vec::new();
    ps.push(PropertyPredicate { property: PropertyId::TextPattern2Available, expected: true });
    ps.push(PropertyPredicate { property: PropertyId::ValueIsReadOnly, expected: false });
    let c = build(&ps);
    proof {
        assert(c@ =~= editable_text_capable_preds());
    }
    c
}

} // verus!
