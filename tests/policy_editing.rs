use edc_web_ui::constraint::{AtomicConstraint, AtomicConstraintEditor, Constraint};
use edc_web_ui::rule::{Rule, RuleEditor};
use edc_web_ui::rule_list::{RuleListEditor, RuleListOp};
use edc_web_ui::variant::{apply_edits, FieldEdit, ValueVariant, ValueVariantField, VariantMode};
use serde_json::Value;

fn lit(s: &str) -> ValueVariant {
    ValueVariant::Literal(s.to_string())
}

fn rule_named(action: &str) -> Rule {
    Rule { action: lit(action), constraints: vec![] }
}

fn atomic(left: &str, op: &str, right: Value) -> AtomicConstraint {
    AtomicConstraint { left_operand: lit(left), operator: lit(op), right_operand: right }
}

#[test]
fn field_toggle_keeps_text() {
    let mut field = ValueVariantField::new(&lit("abc"));
    assert_eq!(field.select_mode(VariantMode::Reference), ValueVariant::Reference("abc".to_string()));
    assert_eq!(field.select_mode(VariantMode::Literal), lit("abc"));
    assert_eq!(field.select_mode(VariantMode::Reference), ValueVariant::Reference("abc".to_string()));
    assert_eq!(field.input("xyz".to_string()), ValueVariant::Reference("xyz".to_string()));
}

#[test]
fn field_sequence_emits_last_mode_and_text() {
    let mut field = ValueVariantField::new(&lit(""));
    let edits = vec![
        FieldEdit::Input("a".to_string()),
        FieldEdit::SelectMode(VariantMode::Reference),
        FieldEdit::Input("ab".to_string()),
        FieldEdit::SelectMode(VariantMode::Literal),
        FieldEdit::SelectMode(VariantMode::Reference),
    ];
    let last = apply_edits(&mut field, edits);
    assert_eq!(last, Some(ValueVariant::Reference("ab".to_string())));
    assert_eq!(field.value(), ValueVariant::Reference("ab".to_string()));
}

#[test]
fn field_empty_sequence_emits_nothing() {
    let mut field = ValueVariantField::new(&ValueVariant::Reference("id-1".to_string()));
    assert_eq!(apply_edits(&mut field, vec![]), None);
    assert_eq!(field.value(), ValueVariant::Reference("id-1".to_string()));
}

#[test]
fn variant_from_parts() {
    let v = ValueVariant::from_parts(VariantMode::Reference, "odrl:use".to_string());
    assert_eq!(v, ValueVariant::Reference("odrl:use".to_string()));
    assert_eq!(v.mode(), VariantMode::Reference);
    assert_eq!(v.text(), "odrl:use");
    assert!(!v.is_literal());
}

#[test]
fn editor_renders_right_operand_text() {
    let editor = AtomicConstraintEditor::new(0, &atomic("count", "lt", Value::from("x")));
    assert_eq!(editor.right_text, "\"x\"");
    assert!(editor.right_valid);
    let editor = AtomicConstraintEditor::new(2, &atomic("count", "lt", Value::from(5)));
    assert_eq!(editor.right_text, "5");
    assert_eq!(editor.index, 2);
    assert_eq!(editor.delete(), 2);
}

#[test]
fn right_operand_valid_json_is_emitted() {
    let mut editor = AtomicConstraintEditor::new(1, &atomic("a", "eq", Value::Null));
    let change = editor.change_right_operand("[1, true]".to_string()).unwrap();
    let expected = Value::Array(vec![Value::from(1), Value::Bool(true)]);
    assert_eq!(change.index, 1);
    assert_eq!(change.constraint.right_operand, expected);
    assert_eq!(editor.right_operand, expected);
    assert!(editor.right_valid);
    assert_eq!(editor.right_text, "[1, true]");
}

#[test]
fn right_operand_invalid_json_is_absorbed() {
    let mut editor = AtomicConstraintEditor::new(0, &atomic("a", "eq", Value::from(3)));
    assert_eq!(editor.change_right_operand("{bad".to_string()), None);
    assert_eq!(editor.right_operand, Value::from(3));
    assert!(!editor.right_valid);
    assert_eq!(editor.right_text, "{bad");
    let change = editor.change_right_operand("\"ok\"".to_string()).unwrap();
    assert_eq!(change.constraint.right_operand, Value::from("ok"));
    assert!(editor.right_valid);
}

#[test]
fn left_operand_and_operator_changes_emit_whole_constraint() {
    let mut editor = AtomicConstraintEditor::new(0, &atomic("a", "eq", Value::from(1)));
    let c = editor.change_left_operand(ValueVariant::Reference("odrl:count".to_string()));
    assert_eq!(c.constraint.left_operand, ValueVariant::Reference("odrl:count".to_string()));
    assert_eq!(c.constraint.operator, lit("eq"));
    let c = editor.change_operator(lit("lt"));
    assert_eq!(c.constraint.left_operand, ValueVariant::Reference("odrl:count".to_string()));
    assert_eq!(c.constraint.operator, lit("lt"));
    assert_eq!(c.constraint.right_operand, Value::from(1));
}

#[test]
fn rule_scenario_count_lt_five() {
    let mut rule = RuleEditor::new(0, &Rule::blank());
    let ch = rule.change_action(lit("transfer"));
    assert_eq!(ch.rule.action, lit("transfer"));
    let ch = rule.add_constraint();
    assert_eq!(ch.rule.constraints.len(), 1);
    assert_eq!(
        ch.rule.constraints[0],
        Constraint::Atomic(atomic("", "", Value::Null))
    );

    let mut editors = rule.constraint_editors();
    let mut c = editors.remove(0).unwrap();
    rule.update_constraint(c.change_left_operand(lit("count")));
    rule.update_constraint(c.change_operator(lit("lt")));
    let ch = rule.update_constraint(c.change_right_operand("5".to_string()).unwrap());
    assert_eq!(ch.index, 0);
    assert_eq!(ch.rule.action, lit("transfer"));
    assert_eq!(ch.rule.constraints, vec![Constraint::Atomic(atomic("count", "lt", Value::from(5)))]);

    assert_eq!(c.change_right_operand("{bad".to_string()), None);
    assert!(!c.right_valid);
    assert_eq!(c.right_operand, Value::from(5));
    assert_eq!(rule.rule.constraints, vec![Constraint::Atomic(atomic("count", "lt", Value::from(5)))]);
}

#[test]
fn rule_delete_constraint_shifts_positions() {
    let rule = Rule {
        action: lit("use"),
        constraints: vec![
            Constraint::Atomic(atomic("a", "eq", Value::from(1))),
            Constraint::Multiplicity(Value::from("and")),
            Constraint::Atomic(atomic("c", "eq", Value::from(3))),
        ],
    };
    let mut editor = RuleEditor::new(4, &rule);
    let slots = editor.constraint_editors();
    assert!(slots[0].is_some());
    assert!(slots[1].is_none());
    assert_eq!(slots[2].as_ref().unwrap().index, 2);
    let ch = editor.delete_constraint(0);
    assert_eq!(ch.index, 4);
    assert_eq!(ch.rule.constraints.len(), 2);
    assert_eq!(ch.rule.constraints[0], Constraint::Multiplicity(Value::from("and")));
    let slots = editor.constraint_editors();
    let c = slots[1].as_ref().unwrap();
    assert_eq!(c.index, 1);
    assert_eq!(c.left_operand, lit("c"));
    assert_eq!(editor.delete(), 4);
}

#[test]
fn rule_list_add_update_delete_keeps_indices_contiguous() {
    let mut list = RuleListEditor::new(vec![]);
    list.apply(RuleListOp::Add);
    list.apply(RuleListOp::Add);
    list.apply(RuleListOp::Add);
    let indices: Vec<usize> = list.rule_editors().iter().map(|e| e.index).collect();
    assert_eq!(indices, vec![0, 1, 2]);
    assert_eq!(list.rules[2], Rule::blank());
    let mut second = list.rule_editors().remove(1);
    list.apply(RuleListOp::Update(second.change_action(lit("read"))));
    assert_eq!(list.rules[1].action, lit("read"));
    list.apply(RuleListOp::Delete(0));
    let editors = list.rule_editors();
    let indices: Vec<usize> = editors.iter().map(|e| e.index).collect();
    assert_eq!(indices, vec![0, 1]);
    assert_eq!(editors[0].rule.action, lit("read"));
    list.apply(RuleListOp::Delete(1));
    list.apply(RuleListOp::Delete(0));
    assert_eq!(list.len(), 0);
    assert!(list.rule_editors().is_empty());
}

#[test]
fn delete_middle_rule_renumbers() {
    let mut list = RuleListEditor::new(vec![rule_named("A"), rule_named("B"), rule_named("C")]);
    list.delete_rule(1);
    assert_eq!(list.rules, vec![rule_named("A"), rule_named("C")]);
    let mut editors = list.rule_editors();
    assert_eq!(editors[0].index, 0);
    assert_eq!(editors[1].index, 1);
    let change = editors[1].change_action(lit("C2"));
    assert_eq!(change.index, 1);
    list.apply_change(change);
    assert_eq!(list.rules, vec![rule_named("A"), rule_named("C2")]);
}
