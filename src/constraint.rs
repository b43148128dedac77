//! Constraints and the editor for one atomic constraint.
use vstd::prelude::*;
use crate::json::{json_null, json_parse, json_text, parse_json, render_json};
use crate::variant::{ValueVariant, VariantMode};

verus! {

/// A single comparison: left operand, operator and a JSON right operand.
#[derive(Debug, PartialEq)]
pub struct AtomicConstraint {
    pub left_operand: ValueVariant,
    pub operator: ValueVariant,
    pub right_operand: serde_json::Value,
}

impl Clone for AtomicConstraint {
    fn clone(&self) -> (r: Self)
        ensures
            r == *self,
    {
        AtomicConstraint {
            left_operand: self.left_operand.clone(),
            operator: self.operator.clone(),
            right_operand: self.right_operand.clone(),
        }
    }
}

impl AtomicConstraint {
    /// Whether this is the constraint that "add constraint" appends: empty
    /// literal operands and operator, and a `null` right operand.
    pub open spec fn is_blank(&self) -> bool {
        &&& self.left_operand.mode_of() == VariantMode::Literal
        &&& self.left_operand.text_of().len() == 0
        &&& self.operator.mode_of() == VariantMode::Literal
        &&& self.operator.text_of().len() == 0
        &&& json_parse("null"@) == Some(self.right_operand)
    }

    /// The blank constraint.
    pub fn blank() -> (r: AtomicConstraint)
        ensures
            r.is_blank(),
    {
        AtomicConstraint {
            left_operand: ValueVariant::empty_literal(),
            operator: ValueVariant::empty_literal(),
            right_operand: json_null(),
        }
    }
}

/// A constraint of a rule. Only atomic constraints are edited; a multiplicity
/// constraint (and / or / exactly-one of nested constraints) is carried
/// through unchanged as its JSON document.
#[derive(Debug, PartialEq)]
pub enum Constraint {
    Atomic(AtomicConstraint),
    Multiplicity(serde_json::Value),
}

impl Clone for Constraint {
    fn clone(&self) -> (r: Self)
        ensures
            r == *self,
    {
        match self {
            Constraint::Atomic(a) => Constraint::Atomic(a.clone()),
            Constraint::Multiplicity(v) => Constraint::Multiplicity(v.clone()),
        }
    }
}

/// The event an atomic constraint editor emits: its position in the rule and
/// the whole updated constraint.
#[derive(Debug, PartialEq)]
pub struct ConstraintChange {
    pub index: usize,
    pub constraint: AtomicConstraint,
}

/// Editor state for one atomic constraint at a position in its rule. The right
/// operand is kept twice: as the last valid parsed value and as the raw text
/// of the input, with a flag telling whether that text parsed.
#[derive(Debug)]
pub struct AtomicConstraintEditor {
    pub index: usize,
    pub left_operand: ValueVariant,
    pub operator: ValueVariant,
    pub right_operand: serde_json::Value,
    pub right_text: String,
    pub right_valid: bool,
}

impl AtomicConstraintEditor {
    /// The constraint the editor currently holds.
    pub open spec fn current(&self) -> AtomicConstraint {
        AtomicConstraint {
            left_operand: self.left_operand,
            operator: self.operator,
            right_operand: self.right_operand,
        }
    }

    /// The event carrying the editor's current constraint.
    pub open spec fn change_spec(&self) -> ConstraintChange {
        ConstraintChange { index: self.index, constraint: self.current() }
    }

    /// Opens an editor on `constraint` at position `index`; the input shows
    /// the rendered JSON of the right operand.
    pub fn new(index: usize, constraint: &AtomicConstraint) -> (r: AtomicConstraintEditor)
        ensures
            r.index == index,
            r.current() == *constraint,
            r.right_text@ == json_text(constraint.right_operand),
            r.right_valid == json_parse(json_text(constraint.right_operand)) is Some,
    {
        let text = render_json(&constraint.right_operand);
        let valid = parse_json(text.as_str()).is_some();
        AtomicConstraintEditor {
            index,
            left_operand: constraint.left_operand.clone(),
            operator: constraint.operator.clone(),
            right_operand: constraint.right_operand.clone(),
            right_text: text,
            right_valid: valid,
        }
    }

    fn emit(&self) -> (r: ConstraintChange)
        ensures
            r == self.change_spec(),
    {
        ConstraintChange {
            index: self.index,
            constraint: AtomicConstraint {
                left_operand: self.left_operand.clone(),
                operator: self.operator.clone(),
                right_operand: self.right_operand.clone(),
            },
        }
    }

    /// Replaces the left operand and emits the updated constraint.
    pub fn change_left_operand(&mut self, value: ValueVariant) -> (r: ConstraintChange)
        ensures
            *final(self) == (AtomicConstraintEditor { left_operand: value, ..*old(self) }),
            r == final(self).change_spec(),
    {
        self.left_operand = value;
        self.emit()
    }

    /// Replaces the operator and emits the updated constraint.
    pub fn change_operator(&mut self, value: ValueVariant) -> (r: ConstraintChange)
        ensures
            *final(self) == (AtomicConstraintEditor { operator: value, ..*old(self) }),
            r == final(self).change_spec(),
    {
        self.operator = value;
        self.emit()
    }

    /// Takes typed right-operand text together with what parsing it gave. The
    /// text is always kept. A parsed value becomes the right operand and the
    /// updated constraint is emitted; without one the last valid value stays,
    /// the input is marked invalid and nothing is emitted.
    pub fn apply_right_operand(&mut self, text: String, parsed: Option<serde_json::Value>) -> (r:
        Option<ConstraintChange>)
        ensures
            final(self).index == old(self).index,
            final(self).left_operand == old(self).left_operand,
            final(self).operator == old(self).operator,
            final(self).right_text == text,
            final(self).right_valid == parsed is Some,
            match parsed {
                Some(v) => final(self).right_operand == v && r == Some(final(self).change_spec()),
                None => final(self).right_operand == old(self).right_operand && r is None,
            },
    {
        self.right_text = text;
        match parsed {
            Some(v) => {
                self.right_operand = v;
                self.right_valid = true;
                Some(self.emit())
            },
            None => {
                self.right_valid = false;
                None
            },
        }
    }

    /// Takes typed right-operand text and parses it as JSON: valid text
    /// updates the right operand and emits the constraint; invalid text is
    /// kept in the input, marked invalid, and emits nothing.
    pub fn change_right_operand(&mut self, text: String) -> (r: Option<ConstraintChange>)
        ensures
            final(self).index == old(self).index,
            final(self).left_operand == old(self).left_operand,
            final(self).operator == old(self).operator,
            final(self).right_text == text,
            final(self).right_valid == json_parse(text@) is Some,
            match json_parse(text@) {
                Some(v) => final(self).right_operand == v && r == Some(final(self).change_spec()),
                None => final(self).right_operand == old(self).right_operand && r is None,
            },
    {
        let parsed = parse_json(text.as_str());
        self.apply_right_operand(text, parsed)
    }

    /// The position that a delete request from this editor names.
    pub fn delete(&self) -> (r: usize)
        ensures
            r == self.index,
    {
        self.index
    }
}

} // verus!
