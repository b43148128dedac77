use vstd::prelude::*;

verus! {

/// Which representation a variant field currently uses.
#[derive(Clone, Copy, Debug, PartialEq, Eq, Structural)]
pub enum VariantMode {
    Literal,
    Reference,
}

/// A scalar that is either a literal value or a reference to an identifier.
#[derive(Debug, PartialEq, Eq)]
pub enum ValueVariant {
    Literal(String),
    Reference(String),
}

impl ValueVariant {
    pub open spec fn mode_of(&self) -> VariantMode {
        match self {
            ValueVariant::Literal(_) => VariantMode::Literal,
            ValueVariant::Reference(_) => VariantMode::Reference,
        }
    }

    pub open spec fn text_of(&self) -> Seq<char> {
        match self {
            ValueVariant::Literal(t) => t@,
            ValueVariant::Reference(t) => t@,
        }
    }

    /// Builds the variant selected by `mode` around `text`.
    pub fn from_parts(mode: VariantMode, text: String) -> (r: ValueVariant)
        ensures
            r.mode_of() == mode,
            r.text_of() == text@,
            mode == VariantMode::Literal ==> r == ValueVariant::Literal(text),
            mode == VariantMode::Reference ==> r == ValueVariant::Reference(text),
    {
        match mode {
            VariantMode::Literal => ValueVariant::Literal(text),
            VariantMode::Reference => ValueVariant::Reference(text),
        }
    }

    /// A literal with empty text: the value of a freshly added field.
    pub fn empty_literal() -> (r: ValueVariant)
        ensures
            r.mode_of() == VariantMode::Literal,
            r.text_of().len() == 0,
    {
        ValueVariant::Literal(String::new())
    }

    pub fn mode(&self) -> (r: VariantMode)
        ensures
            r == self.mode_of(),
    {
        match self {
            ValueVariant::Literal(_) => VariantMode::Literal,
            ValueVariant::Reference(_) => VariantMode::Reference,
        }
    }

    pub fn text(&self) -> (r: &String)
        ensures
            r@ == self.text_of(),
    {
        match self {
            ValueVariant::Literal(t) => t,
            ValueVariant::Reference(t) => t,
        }
    }

    pub fn is_literal(&self) -> (r: bool)
        ensures
            r == (self.mode_of() == VariantMode::Literal),
    {
        matches!(self, ValueVariant::Literal(_))
    }
}

impl Clone for ValueVariant {
    fn clone(&self) -> (r: Self)
        ensures
            r == *self,
    {
        match self {
            ValueVariant::Literal(t) => ValueVariant::Literal(t.clone()),
            ValueVariant::Reference(t) => ValueVariant::Reference(t.clone()),
        }
    }
}

/// One user interaction with a variant field.
#[derive(Debug, PartialEq, Eq)]
pub enum FieldEdit {
    /// The mode selector was switched.
    SelectMode(VariantMode),
    /// The text input changed.
    Input(String),
}

/// Leaf editor for a literal-or-reference value: a mode selector and a text
/// input. Every interaction emits the full `(mode, text)` pair as a variant.
#[derive(Debug)]
pub struct ValueVariantField {
    pub mode: VariantMode,
    pub text: String,
}

impl ValueVariantField {
    /// The value the field currently shows.
    pub open spec fn value_spec(&self) -> (ValueVariant) {
        match self.mode {
            VariantMode::Literal => ValueVariant::Literal(self.text),
            VariantMode::Reference => ValueVariant::Reference(self.text),
        }
    }

    /// The field after one interaction.
    pub open spec fn step(self, edit: FieldEdit) -> ValueVariantField {
        match edit {
            FieldEdit::SelectMode(m) => ValueVariantField { mode: m, text: self.text },
            FieldEdit::Input(t) => ValueVariantField { mode: self.mode, text: t },
        }
    }

    /// The field after a sequence of interactions, applied in order.
    pub open spec fn run(self, edits: Seq<FieldEdit>) -> ValueVariantField
        decreases edits.len(),
    {
        if edits.len() == 0 {
            self
        } else {
            self.run(edits.drop_last()).step(edits.last())
        }
    }

    /// Starts the field on a given value.
    pub fn new(value: &ValueVariant) -> (r: ValueVariantField)
        ensures
            r.value_spec() == *value,
    {
        match value {
            ValueVariant::Literal(t) => ValueVariantField { mode: VariantMode::Literal, text: t.clone() },
            ValueVariant::Reference(t) => ValueVariantField {
                mode: VariantMode::Reference,
                text: t.clone(),
            },
        }
    }

    /// The current value of the field.
    pub fn value(&self) -> (r: ValueVariant)
        ensures
            r == self.value_spec(),
    {
        ValueVariant::from_parts(self.mode, self.text.clone())
    }

    /// Switches the mode; the text is kept, and the new pair is emitted.
    pub fn select_mode(&mut self, mode: VariantMode) -> (r: ValueVariant)
        ensures
            final(self).mode == mode,
            final(self).text == old(self).text,
            r == final(self).value_spec(),
    {
        self.mode = mode;
        self.value()
    }

    /// Replaces the text; the mode is kept, and the new pair is emitted.
    pub fn input(&mut self, text: String) -> (r: ValueVariant)
        ensures
            final(self).mode == old(self).mode,
            final(self).text == text,
            r == final(self).value_spec(),
    {
        self.text = text;
        self.value()
    }

    /// Applies one interaction and returns the pair it emits.
    pub fn apply(&mut self, edit: FieldEdit) -> (r: ValueVariant)
        ensures
            *final(self) == old(self).step(edit),
            r == final(self).value_spec(),
    {
        match edit {
            FieldEdit::SelectMode(m) => self.select_mode(m),
            FieldEdit::Input(t) => self.input(t),
        }
    }
}

/// The last mode selected among `edits`, or `start` when none selects one.
pub open spec fn last_selected_mode(start: VariantMode, edits: Seq<FieldEdit>) -> VariantMode
    decreases edits.len(),
{
    if edits.len() == 0 {
        start
    } else {
        match edits.last() {
            FieldEdit::SelectMode(m) => m,
            FieldEdit::Input(_) => last_selected_mode(start, edits.drop_last()),
        }
    }
}

/// The last text typed among `edits`, or `start` when none is typed.
pub open spec fn last_input_text(start: String, edits: Seq<FieldEdit>) -> String
    decreases edits.len(),
{
    if edits.len() == 0 {
        start
    } else {
        match edits.last() {
            FieldEdit::Input(t) => t,
            FieldEdit::SelectMode(_) => last_input_text(start, edits.drop_last()),
        }
    }
}

/// After any sequence of toggles and text edits, the value the field emits
/// pairs the last selected mode with the last typed text: toggling never
/// loses the text.
pub proof fn lemma_field_keeps_last_edits(field: ValueVariantField, edits: Seq<FieldEdit>)
    ensures
        field.run(edits).mode == last_selected_mode(field.mode, edits),
        field.run(edits).text == last_input_text(field.text, edits),
        field.run(edits).value_spec().mode_of() == last_selected_mode(field.mode, edits),
        field.run(edits).value_spec().text_of() == last_input_text(field.text, edits)@,
    decreases edits.len(),
{
    if edits.len() > 0 {
        lemma_field_keeps_last_edits(field, edits.drop_last());
    }
}

/// Applies a sequence of interactions in order and returns the pair emitted
/// by the last one, or `None` when there was none.
pub fn apply_edits(field: &mut ValueVariantField, edits: Vec<FieldEdit>) -> (r: Option<ValueVariant>)
    ensures
        *final(field) == old(field).run(edits@),
        edits@.len() == 0 ==> r is None,
        edits@.len() > 0 ==> r == Some(final(field).value_spec()),
{
    let ghost start = *field;
    let ghost all = edits@;
    let mut last: Option<ValueVariant> = None;
    let mut i: usize = 0;
    let n = edits.len();
    let mut rest = edits;
    while i < n
        invariant
            n == all.len(),
            i <= n,
            rest@ == all.subrange(i as int, n as int),
            *field == start.run(all.take(i as int)),
            i == 0 ==> last is None,
            i > 0 ==> last == Some(field.value_spec()),
        decreases n - i,
    {
        let e = rest.remove(0);
        proof {
            assert(all.take(i as int + 1).drop_last() == all.take(i as int));
            assert(all.take(i as int + 1).last() == all[i as int]);
        }
        last = Some(field.apply(e));
        i = i + 1;
    }
    proof {
        assert(all.take(n as int) == all);
    }
    last
}

} // verus!
