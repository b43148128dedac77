//! Editable policy documents and windowed pagination for a data-space
//! connector console.
//!
//! The policy model is edited incrementally: leaf editors (a literal-or-reference
//! field, an atomic constraint) emit change events, and each composite editor
//! (a rule, a list of rules, the policy draft) merges the change into its own copy
//! of its state. Pagination is a pure transition function over offset and limit.
pub mod constraint;
pub mod json;
pub mod pagination;
pub mod policy;
pub mod rule;
pub mod rule_list;
pub mod variant;

pub use variant::{FieldEdit, ValueVariant, ValueVariantField, VariantMode};
pub use constraint::{AtomicConstraint, AtomicConstraintEditor, Constraint, ConstraintChange};
pub use rule::{Rule, RuleChange, RuleEditor};
pub use rule_list::{RuleListEditor, RuleListOp};
pub use policy::{NewPolicyDocument, PolicyDocument, PolicyDraftAssembler, PolicyKind};
pub use pagination::{next_offset, FetchKey, Navigation, PaginationWindow};
