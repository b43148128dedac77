//! The policy draft: identifier, kind, parties, target and three rule lists,
//! assembled into a submittable policy document.
use vstd::prelude::*;
use crate::rule::{Rule, RuleView};
use crate::rule_list::RuleListEditor;
use crate::variant::ValueVariant;

verus! {

/// The kind of policy being created.
#[derive(Clone, Copy, Debug, PartialEq, Eq, Structural)]
pub enum PolicyKind {
    Agreement,
    Offer,
    /// An ODRL `Set`: a policy that is neither an offer nor an agreement.
    SetOfRules,
}

impl PolicyKind {
    /// The name shown for the kind in a selector.
    pub fn label(&self) -> (r: &'static str)
        ensures
            *self == PolicyKind::Agreement ==> r@ == "Agreement"@,
            *self == PolicyKind::Offer ==> r@ == "Offer"@,
            *self == PolicyKind::SetOfRules ==> r@ == "Set"@,
    {
        match self {
            PolicyKind::Agreement => "Agreement",
            PolicyKind::Offer => "Offer",
            PolicyKind::SetOfRules => "Set",
        }
    }
}

/// The policy part of an assembled document.
#[derive(Debug, PartialEq)]
pub struct PolicyDocument {
    pub kind: PolicyKind,
    pub assignee: Option<String>,
    pub assigner: Option<String>,
    pub target: Option<ValueVariant>,
    pub permissions: Vec<Rule>,
    pub prohibitions: Vec<Rule>,
    pub obligations: Vec<Rule>,
}

/// A policy document ready for the creation call, with its identifier.
#[derive(Debug, PartialEq)]
pub struct NewPolicyDocument {
    pub id: String,
    pub policy: PolicyDocument,
}

/// The mathematical value of an assembled document.
pub struct PolicyDocumentView {
    pub id: Seq<char>,
    pub kind: PolicyKind,
    pub assignee: Option<Seq<char>>,
    pub assigner: Option<Seq<char>>,
    pub target: Option<ValueVariant>,
    pub permissions: Seq<RuleView>,
    pub prohibitions: Seq<RuleView>,
    pub obligations: Seq<RuleView>,
}

pub open spec fn text_opt_view(t: Option<String>) -> Option<Seq<char>> {
    match t {
        Some(s) => Some(s@),
        None => None,
    }
}

pub open spec fn rules_view(rules: Seq<Rule>) -> Seq<RuleView> {
    rules.map_values(|r: Rule| r@)
}

impl View for NewPolicyDocument {
    type V = PolicyDocumentView;

    open spec fn view(&self) -> PolicyDocumentView {
        PolicyDocumentView {
            id: self.id@,
            kind: self.policy.kind,
            assignee: text_opt_view(self.policy.assignee),
            assigner: text_opt_view(self.policy.assigner),
            target: self.policy.target,
            permissions: rules_view(self.policy.permissions@),
            prohibitions: rules_view(self.policy.prohibitions@),
            obligations: rules_view(self.policy.obligations@),
        }
    }
}

/// A party's text as it appears in the document: left out when empty.
pub open spec fn present_text(t: Seq<char>) -> Option<Seq<char>> {
    if t.len() == 0 {
        None
    } else {
        Some(t)
    }
}

fn optional_text(t: &String) -> (r: Option<String>)
    ensures
        text_opt_view(r) == present_text(t@),
{
    if t.as_str().is_empty() {
        None
    } else {
        Some(t.clone())
    }
}

fn clone_rules(v: &Vec<Rule>) -> (r: Vec<Rule>)
    ensures
        rules_view(r@) == rules_view(v@),
{
    let mut out: Vec<Rule> = Vec::new();
    let n = v.len();
    let mut i: usize = 0;
    while i < n
        invariant
            n == v@.len(),
            i <= n,
            out@.len() == i,
            forall|j: int| 0 <= j < i ==> (#[trigger] out@[j])@ == v@[j]@,
        decreases n - i,
    {
        out.push(v[i].clone());
        i = i + 1;
    }
    assert(rules_view(out@) =~= rules_view(v@));
    out
}

/// The policy creation form: the draft's fields, and whether a submission is
/// in flight or the last one failed.
#[derive(Debug)]
pub struct PolicyDraftAssembler {
    pub identifier: String,
    pub kind: PolicyKind,
    pub assignee: String,
    pub assigner: String,
    pub target: ValueVariant,
    pub permissions: RuleListEditor,
    pub prohibitions: RuleListEditor,
    pub obligations: RuleListEditor,
    pub submitting: bool,
    pub error: Option<String>,
}

/// Whether two forms hold the same draft, whatever their submission state.
pub open spec fn same_draft(a: PolicyDraftAssembler, b: PolicyDraftAssembler) -> bool {
    &&& a.identifier@ == b.identifier@
    &&& a.kind == b.kind
    &&& a.assignee@ == b.assignee@
    &&& a.assigner@ == b.assigner@
    &&& a.target == b.target
    &&& a.permissions@ == b.permissions@
    &&& a.prohibitions@ == b.prohibitions@
    &&& a.obligations@ == b.obligations@
}

impl PolicyDraftAssembler {
    /// The document that submitting the draft sends: empty assignee, assigner
    /// and target are left out, and each rule list is carried over in order.
    pub open spec fn assembled(&self) -> PolicyDocumentView {
        PolicyDocumentView {
            id: self.identifier@,
            kind: self.kind,
            assignee: present_text(self.assignee@),
            assigner: present_text(self.assigner@),
            target: if self.target.text_of().len() == 0 {
                None
            } else {
                Some(self.target)
            },
            permissions: self.permissions@,
            prohibitions: self.prohibitions@,
            obligations: self.obligations@,
        }
    }

    /// An empty form: no identifier, kind `Set`, no parties, an empty literal
    /// target and no rules.
    pub fn new() -> (r: PolicyDraftAssembler)
        ensures
            r.identifier@.len() == 0,
            r.kind == PolicyKind::SetOfRules,
            r.assignee@.len() == 0,
            r.assigner@.len() == 0,
            r.target.text_of().len() == 0,
            r.permissions@.len() == 0,
            r.prohibitions@.len() == 0,
            r.obligations@.len() == 0,
            !r.submitting,
            r.error is None,
    {
        let r = PolicyDraftAssembler {
            identifier: String::new(),
            kind: PolicyKind::SetOfRules,
            assignee: String::new(),
            assigner: String::new(),
            target: ValueVariant::empty_literal(),
            permissions: RuleListEditor::new(Vec::new()),
            prohibitions: RuleListEditor::new(Vec::new()),
            obligations: RuleListEditor::new(Vec::new()),
            submitting: false,
            error: None,
        };
        assert(r.permissions@ =~= Seq::empty());
        assert(r.prohibitions@ =~= Seq::empty());
        assert(r.obligations@ =~= Seq::empty());
        r
    }

    /// Builds the document for the current draft, leaving the form as it is.
    pub fn assemble(&self) -> (r: NewPolicyDocument)
        ensures
            r@ == self.assembled(),
    {
        let target = if self.target.text().as_str().is_empty() {
            None
        } else {
            Some(self.target.clone())
        };
        NewPolicyDocument {
            id: self.identifier.clone(),
            policy: PolicyDocument {
                kind: self.kind,
                assignee: optional_text(&self.assignee),
                assigner: optional_text(&self.assigner),
                target,
                permissions: clone_rules(&self.permissions.rules),
                prohibitions: clone_rules(&self.prohibitions.rules),
                obligations: clone_rules(&self.obligations.rules),
            },
        }
    }

    /// Starts a submission: marks the form as submitting, clears the last
    /// error and returns the document to send. The draft is kept.
    pub fn submit(&mut self) -> (r: NewPolicyDocument)
        ensures
            same_draft(*old(self), *final(self)),
            final(self).submitting,
            final(self).error is None,
            r@ == old(self).assembled(),
    {
        let doc = self.assemble();
        self.submitting = true;
        self.error = None;
        doc
    }

    /// Ends a submission with the outcome of the creation call: the form
    /// returns to its non-submitting state with the draft kept, and a failure
    /// is kept as the form's error so that it can be shown and retried.
    pub fn finish_submit(&mut self, outcome: Result<String, String>)
        ensures
            same_draft(*old(self), *final(self)),
            !final(self).submitting,
            match outcome {
                Ok(_) => final(self).error is None,
                Err(e) => final(self).error == Some(e),
            },
    {
        self.submitting = false;
        match outcome {
            Ok(_) => {
                self.error = None;
            },
            Err(e) => {
                self.error = Some(e);
            },
        }
    }
}

/// Submitting is idempotent: two forms that hold the same draft, such as one
/// form before and after a submission round, assemble structurally identical
/// documents.
pub proof fn lemma_assemble_same_draft(
    a: PolicyDraftAssembler,
    b: PolicyDraftAssembler,
    first: NewPolicyDocument,
    second: NewPolicyDocument,
)
    requires
        same_draft(a, b),
        first@ == a.assembled(),
        second@ == b.assembled(),
    ensures
        first@ == second@,
{
}

} // verus!
