//! The editor for an ordered list of rules (permissions, prohibitions or
//! obligations of a policy).
use vstd::prelude::*;
use crate::rule::{is_blank_rule, Rule, RuleChange, RuleEditor, RuleView};

verus! {

/// One mutation of a rule list.
#[derive(Debug, PartialEq)]
pub enum RuleListOp {
    /// Append a blank rule.
    Add,
    /// Replace the rule at the change's position with the changed rule.
    Update(RuleChange),
    /// Remove the rule at a position; later rules move down by one.
    Delete(usize),
}

/// Whether `op` may be applied to a list of `len` rules: updates and deletes
/// must name a current position.
pub open spec fn op_in_range(len: nat, op: RuleListOp) -> bool {
    match op {
        RuleListOp::Add => true,
        RuleListOp::Update(c) => c.index < len,
        RuleListOp::Delete(i) => i < len,
    }
}

/// Whether applying `op` to `before` may leave `after`.
pub open spec fn list_step(before: Seq<RuleView>, op: RuleListOp, after: Seq<RuleView>) -> bool {
    match op {
        RuleListOp::Add => after.len() == before.len() + 1 && after.drop_last() == before
            && is_blank_rule(after.last()),
        RuleListOp::Update(c) => after == before.update(c.index as int, c.rule@),
        RuleListOp::Delete(i) => after == before.remove(i as int),
    }
}

/// Rules added minus rules deleted by `ops`.
pub open spec fn net_growth(ops: Seq<RuleListOp>) -> int
    decreases ops.len(),
{
    if ops.len() == 0 {
        0
    } else {
        net_growth(ops.drop_last()) + match ops.last() {
            RuleListOp::Add => 1int,
            RuleListOp::Update(_) => 0int,
            RuleListOp::Delete(_) => -1int,
        }
    }
}

/// Whether `editors` are the editors rendered for `rules`: one per rule, in
/// order, each at the rule's current position.
pub open spec fn renders(rules: Seq<RuleView>, editors: Seq<RuleEditor>) -> bool {
    &&& editors.len() == rules.len()
    &&& forall|j: int| 0 <= j < editors.len() ==> (#[trigger] editors[j]).index == j
        && editors[j].rule@ == rules[j]
}

/// Editor state for an ordered list of rules.
#[derive(Debug)]
pub struct RuleListEditor {
    pub rules: Vec<Rule>,
}

impl View for RuleListEditor {
    type V = Seq<RuleView>;

    open spec fn view(&self) -> Seq<RuleView> {
        self.rules@.map_values(|r: Rule| r@)
    }
}

impl RuleListEditor {
    /// Starts on the given rules.
    pub fn new(rules: Vec<Rule>) -> (r: RuleListEditor)
        ensures
            r.rules@ == rules@,
    {
        RuleListEditor { rules }
    }

    pub fn len(&self) -> (r: usize)
        ensures
            r == self@.len(),
    {
        self.rules.len()
    }

    /// Appends a blank rule.
    pub fn add_rule(&mut self)
        ensures
            list_step(old(self)@, RuleListOp::Add, final(self)@),
    {
        self.rules.push(Rule::blank());
        assert(self@.drop_last() =~= old(self)@);
    }

    /// Replaces the rule at the position the change names.
    pub fn apply_change(&mut self, change: RuleChange)
        requires
            change.index < old(self)@.len(),
        ensures
            final(self)@ == old(self)@.update(change.index as int, change.rule@),
    {
        let i = change.index;
        self.rules.set(i, change.rule);
        assert(self@ =~= old(self)@.update(i as int, self.rules@[i as int]@));
    }

    /// Removes the rule at `position`; later rules move down by one.
    pub fn delete_rule(&mut self, position: usize)
        requires
            position < old(self)@.len(),
        ensures
            final(self)@ == old(self)@.remove(position as int),
    {
        self.rules.remove(position);
        assert(self@ =~= old(self)@.remove(position as int));
    }

    /// Applies one mutation.
    pub fn apply(&mut self, op: RuleListOp)
        requires
            op_in_range(old(self)@.len(), op),
        ensures
            list_step(old(self)@, op, final(self)@),
    {
        match op {
            RuleListOp::Add => self.add_rule(),
            RuleListOp::Update(c) => self.apply_change(c),
            RuleListOp::Delete(i) => self.delete_rule(i),
        }
    }

    /// The editors for the current list: one per rule, at its current
    /// position.
    pub fn rule_editors(&self) -> (r: Vec<RuleEditor>)
        ensures
            renders(self@, r@),
    {
        let mut out: Vec<RuleEditor> = Vec::new();
        let n = self.rules.len();
        let mut i: usize = 0;
        while i < n
            invariant
                n == self@.len(),
                i <= n,
                out@.len() == i,
                forall|j: int| 0 <= j < i ==> (#[trigger] out@[j]).index == j && out@[j].rule@
                    == self@[j],
            decreases n - i,
        {
            out.push(RuleEditor::new(i, &self.rules[i]));
            i = i + 1;
        }
        out
    }
}

/// Along any run of in-range adds, updates and deletes, each applied to the
/// list the previous one left: every list of the run has as many rules as the
/// first, plus the adds and minus the deletes so far, and the editors rendered
/// for it are numbered 0 to its length minus one, in order, with no gap.
pub proof fn lemma_rule_list_run(
    states: Seq<Seq<RuleView>>,
    ops: Seq<RuleListOp>,
    editors: Seq<Seq<RuleEditor>>,
)
    requires
        states.len() == ops.len() + 1,
        editors.len() == states.len(),
        forall|k: int|
            0 <= k < ops.len() ==> op_in_range(states[k].len(), #[trigger] ops[k]) && list_step(
                states[k],
                ops[k],
                states[k + 1],
            ),
        forall|k: int| 0 <= k < states.len() ==> renders(#[trigger] states[k], editors[k]),
    ensures
        forall|k: int|
            0 <= k < states.len() ==> (#[trigger] states[k]).len() == states[0].len()
                + net_growth(ops.take(k)),
        forall|k: int, j: int|
            0 <= k < states.len() && 0 <= j < states[k].len() ==> (#[trigger] editors[k][j]).index
                == j,
        forall|k: int|
            0 <= k < states.len() ==> (#[trigger] editors[k]).len() == states[k].len(),
    decreases ops.len(),
{
    if ops.len() > 0 {
        let m = ops.len() - 1;
        lemma_rule_list_run(states.drop_last(), ops.drop_last(), editors.drop_last());
        assert forall|k: int| 0 <= k < states.len() implies (#[trigger] states[k]).len()
            == states[0].len() + net_growth(ops.take(k)) by {
            if k < states.len() - 1 {
                assert(states.drop_last()[k] == states[k]);
                assert(ops.drop_last().take(k) == ops.take(k));
            } else {
                assert(states.drop_last()[m] == states[m]);
                assert(ops.drop_last().take(m) == ops.take(m));
                assert(ops.take(k).drop_last() == ops.take(m));
                assert(ops.take(k).last() == ops[m]);
                assert(op_in_range(states[m].len(), ops[m]));
                assert(list_step(states[m], ops[m], states[m + 1]));
            }
        }
    }
    assert forall|k: int, j: int|
        0 <= k < states.len() && 0 <= j < states[k].len() implies (#[trigger] editors[k][j]).index
        == j by {
        assert(renders(states[k], editors[k]));
    }
    assert forall|k: int| 0 <= k < states.len() implies (#[trigger] editors[k]).len()
        == states[k].len() by {
        assert(renders(states[k], editors[k]));
    }
}

} // verus!
