//! Rules (an action and its constraints) and the editor for one rule.
use vstd::prelude::*;
use crate::constraint::{AtomicConstraint, AtomicConstraintEditor, Constraint, ConstraintChange};
use crate::variant::{ValueVariant, VariantMode};

verus! {

/// An action paired with an ordered list of constraints. A rule is identified
/// by its position in the list that owns it.
#[derive(Debug, PartialEq)]
pub struct Rule {
    pub action: ValueVariant,
    pub constraints: Vec<Constraint>,
}

/// The mathematical value of a rule.
pub struct RuleView {
    pub action: ValueVariant,
    pub constraints: Seq<Constraint>,
}

impl View for Rule {
    type V = RuleView;

    open spec fn view(&self) -> RuleView {
        RuleView { action: self.action, constraints: self.constraints@ }
    }
}

/// Whether `r` is the rule that "add rule" appends: an empty literal action and
/// no constraints.
pub open spec fn is_blank_rule(r: RuleView) -> bool {
    &&& r.action.mode_of() == VariantMode::Literal
    &&& r.action.text_of().len() == 0
    &&& r.constraints.len() == 0
}

fn clone_constraints(v: &Vec<Constraint>) -> (r: Vec<Constraint>)
    ensures
        r@ == v@,
{
    let r = v.clone();
    assert(r@ =~= v@);
    r
}

impl Clone for Rule {
    fn clone(&self) -> (r: Self)
        ensures
            r@ == self@,
    {
        Rule { action: self.action.clone(), constraints: clone_constraints(&self.constraints) }
    }
}

impl Rule {
    /// The blank rule.
    pub fn blank() -> (r: Rule)
        ensures
            is_blank_rule(r@),
    {
        Rule { action: ValueVariant::empty_literal(), constraints: Vec::new() }
    }
}

/// The event a rule editor emits: its position and the whole updated rule.
#[derive(Debug, PartialEq)]
pub struct RuleChange {
    pub index: usize,
    pub rule: Rule,
}

/// Editor state for one rule at a position in its list. Every mutation
/// recomputes the whole rule and emits it with the editor's position.
#[derive(Debug)]
pub struct RuleEditor {
    pub index: usize,
    pub rule: Rule,
}

impl RuleEditor {
    /// Opens an editor on `rule` at position `index`.
    pub fn new(index: usize, rule: &Rule) -> (r: RuleEditor)
        ensures
            r.index == index,
            r.rule@ == rule@,
    {
        RuleEditor { index, rule: rule.clone() }
    }

    fn emit(&self) -> (r: RuleChange)
        ensures
            r.index == self.index,
            r.rule@ == self.rule@,
    {
        RuleChange { index: self.index, rule: self.rule.clone() }
    }

    /// Replaces the action and emits the updated rule.
    pub fn change_action(&mut self, action: ValueVariant) -> (r: RuleChange)
        ensures
            final(self).index == old(self).index,
            final(self).rule@ == (RuleView { action, constraints: old(self).rule@.constraints }),
            r.index == final(self).index,
            r.rule@ == final(self).rule@,
    {
        self.rule.action = action;
        self.emit()
    }

    /// Appends a blank atomic constraint and emits the updated rule.
    pub fn add_constraint(&mut self) -> (r: RuleChange)
        ensures
            final(self).index == old(self).index,
            final(self).rule@.action == old(self).rule@.action,
            final(self).rule@.constraints.len() == old(self).rule@.constraints.len() + 1,
            final(self).rule@.constraints.drop_last() == old(self).rule@.constraints,
            final(self).rule@.constraints.last() matches Constraint::Atomic(a) && a.is_blank(),
            r.index == final(self).index,
            r.rule@ == final(self).rule@,
    {
        self.rule.constraints.push(Constraint::Atomic(AtomicConstraint::blank()));
        assert(self.rule.constraints@.drop_last() =~= old(self).rule.constraints@);
        self.emit()
    }

    /// Replaces the constraint at the position the change names and emits the
    /// updated rule.
    pub fn update_constraint(&mut self, change: ConstraintChange) -> (r: RuleChange)
        requires
            change.index < old(self).rule.constraints.len(),
        ensures
            final(self).index == old(self).index,
            final(self).rule@ == (RuleView {
                action: old(self).rule@.action,
                constraints: old(self).rule@.constraints.update(
                    change.index as int,
                    Constraint::Atomic(change.constraint),
                ),
            }),
            r.index == final(self).index,
            r.rule@ == final(self).rule@,
    {
        let i = change.index;
        self.rule.constraints.set(i, Constraint::Atomic(change.constraint));
        self.emit()
    }

    /// Removes the constraint at `position`; later constraints move down by
    /// one. Emits the updated rule.
    pub fn delete_constraint(&mut self, position: usize) -> (r: RuleChange)
        requires
            position < old(self).rule.constraints.len(),
        ensures
            final(self).index == old(self).index,
            final(self).rule@ == (RuleView {
                action: old(self).rule@.action,
                constraints: old(self).rule@.constraints.remove(position as int),
            }),
            r.index == final(self).index,
            r.rule@ == final(self).rule@,
    {
        self.rule.constraints.remove(position);
        self.emit()
    }

    /// The position that a delete request from this editor names.
    pub fn delete(&self) -> (r: usize)
        ensures
            r == self.index,
    {
        self.index
    }

    /// One editor slot per constraint, in order: an editor at the constraint's
    /// current position for an atomic constraint, and nothing for a
    /// multiplicity constraint, which keeps its place but is not edited.
    pub fn constraint_editors(&self) -> (r: Vec<Option<AtomicConstraintEditor>>)
        ensures
            r@.len() == self.rule@.constraints.len(),
            forall|i: int|
                0 <= i < r@.len() ==> match #[trigger] self.rule@.constraints[i] {
                    Constraint::Atomic(a) => r@[i] matches Some(e) && e.index == i && e.current()
                        == a,
                    Constraint::Multiplicity(_) => r@[i] is None,
                },
    {
        let mut out: Vec<Option<AtomicConstraintEditor>> = Vec::new();
        let n = self.rule.constraints.len();
        let mut i: usize = 0;
        while i < n
            invariant
                n == self.rule@.constraints.len(),
                i <= n,
                out@.len() == i,
                forall|k: int|
                    0 <= k < i ==> match #[trigger] self.rule@.constraints[k] {
                        Constraint::Atomic(a) => out@[k] matches Some(e) && e.index == k
                            && e.current() == a,
                        Constraint::Multiplicity(_) => out@[k] is None,
                    },
            decreases n - i,
        {
            let slot = match &self.rule.constraints[i] {
                Constraint::Atomic(a) => Some(AtomicConstraintEditor::new(i, a)),
                Constraint::Multiplicity(_) => None,
            };
            out.push(slot);
            i = i + 1;
        }
        out
    }
}

} // verus!
