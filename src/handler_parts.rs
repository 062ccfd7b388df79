use vstd::prelude::*;
use crate::naming::{binding_name, binding_name_spec, lemma_binding_names_distinct, pascal_case_of, variant_name};
use crate::signature::{clone_strings, HandlerDefinition};

verus! {

/// One variant of a generated union: its tag and its positional field types.
#[derive(Clone, Debug, PartialEq, Eq)]
pub struct EnumVariant {
    pub name: String,
    pub fields: Vec<String>,
}

/// One arm of the dispatch function: it matches the request variant
/// `variant`, binds its positional fields to `bindings`, calls `handler` with
/// the bindings in the same order (awaiting the call where `awaits`), and
/// wraps the handler's outcome in the response variant of the same tag.
#[derive(Clone, Debug, PartialEq, Eq)]
pub struct MatchArm {
    pub variant: String,
    pub bindings: Vec<String>,
    pub handler: String,
    pub awaits: bool,
}

/// What one handler contributes to a compiled handler set.
#[derive(Clone, Debug, PartialEq, Eq)]
pub struct HandlerParts {
    pub request_enum_variant: EnumVariant,
    pub response_enum_variant: EnumVariant,
    pub call_match_arm: MatchArm,
    pub is_async: bool,
}

/// The names bound to `n` positional fields: `v0`, ..., `v{n-1}`.
pub open spec fn bindings_spec(n: nat) -> Seq<Seq<char>> {
    Seq::new(n, |i: int| binding_name_spec(i as nat))
}

/// No name occurs twice.
pub open spec fn all_distinct(s: Seq<Seq<char>>) -> bool {
    forall|i: int, j: int| 0 <= i < s.len() && 0 <= j < s.len() && i != j ==> s[i] != s[j]
}

impl EnumVariant {
    pub open spec fn spec_is(&self, name: Seq<char>, fields: Seq<Seq<char>>) -> bool {
        self.name@ == name && self.fields.deep_view() == fields
    }
}

impl MatchArm {
    /// Matching `variant(x0, ..., x{n-1})` and calling the handler passes
    /// `xi` as the `i`-th argument: the arm binds exactly `n` distinct names
    /// and hands them to the call in binding order.
    pub open spec fn passes_fields_in_order(&self, n: nat) -> bool {
        &&& self.bindings.deep_view().len() == n
        &&& all_distinct(self.bindings.deep_view())
    }
}

/// The value that matching binds to `name`: the field at a position that
/// binds that name.
pub open spec fn bound_value<V>(bindings: Seq<Seq<char>>, values: Seq<V>, name: Seq<char>) -> V {
    values[choose|j: int| 0 <= j < bindings.len() && bindings[j] == name]
}

impl MatchArm {
    /// The arguments the arm's call receives when it matches a request
    /// variant with field values `values`: the call names the bindings in
    /// order, and each name stands for the value bound to it.
    pub open spec fn call_arguments<V>(&self, values: Seq<V>) -> Seq<V> {
        let b = self.bindings.deep_view();
        Seq::new(b.len(), |k: int| bound_value(b, values, b[k]))
    }
}

/// An arm that binds distinct names to its `n` fields hands the `n` field
/// values to the handler unchanged and in order.
pub proof fn lemma_call_receives_fields<V>(arm: MatchArm, values: Seq<V>)
    requires
        arm.passes_fields_in_order(values.len()),
    ensures
        arm.call_arguments(values) == values,
{
    let b = arm.bindings.deep_view();
    assert forall|k: int| 0 <= k < b.len() implies #[trigger] arm.call_arguments(values)[k] == values[k] by {
        let j = choose|j: int| 0 <= j < b.len() && b[j] == b[k];
        assert(j == k);
    }
    assert(arm.call_arguments(values) =~= values);
}

impl HandlerParts {
    /// The parts generated for the handler `d`.
    pub open spec fn describes(&self, d: HandlerDefinition) -> bool {
        &&& self.request_enum_variant.spec_is(pascal_case_of(d.name@), d.param_types.deep_view())
        &&& self.response_enum_variant.spec_is(pascal_case_of(d.name@), seq![d.outcome_type@])
        &&& self.call_match_arm.variant@ == pascal_case_of(d.name@)
        &&& self.call_match_arm.bindings.deep_view() == bindings_spec(d.param_types@.len())
        &&& self.call_match_arm.handler@ == d.name@
        &&& self.call_match_arm.awaits == d.is_async
        &&& self.is_async == d.is_async
    }

    /// Builds the request variant, the response variant and the dispatch arm
    /// of one handler.
    pub fn from(d: &HandlerDefinition) -> (r: Self)
        ensures
            r.describes(*d),
    {
        let request_enum_variant = EnumVariant {
            name: variant_name(d.name.as_str()),
            fields: clone_strings(&d.param_types),
        };
        let mut outcome: Vec<String> = Vec::new();
        outcome.push(d.outcome_type.clone());
        assert(outcome.deep_view() =~= seq![d.outcome_type@]);
        let response_enum_variant = EnumVariant { name: variant_name(d.name.as_str()), fields: outcome };
        let call_match_arm = MatchArm {
            variant: variant_name(d.name.as_str()),
            bindings: call_bindings(d.param_types.len()),
            handler: d.name.clone(),
            awaits: d.is_async,
        };
        HandlerParts { request_enum_variant, response_enum_variant, call_match_arm, is_async: d.is_async }
    }
}

/// The names `v0`, ..., `v{n-1}` bound in a dispatch arm.
pub fn call_bindings(n: usize) -> (r: Vec<String>)
    ensures
        r.deep_view() == bindings_spec(n as nat),
{
    let mut r: Vec<String> = Vec::new();
    let mut i: usize = 0;
    while i < n
        invariant
            i <= n,
            r@.len() == i,
            forall|k: int| 0 <= k < i ==> #[trigger] r@[k]@ == binding_name_spec(k as nat),
        decreases n - i,
    {
        r.push(binding_name(i));
        i += 1;
    }
    assert(r.deep_view() =~= bindings_spec(n as nat));
    r
}

/// The bound names are pairwise distinct, so each positional field reaches
/// the handler call in its own argument position.
pub proof fn lemma_bindings_distinct(n: nat)
    ensures
        all_distinct(bindings_spec(n)),
{
    assert forall|i: int, j: int|
        0 <= i < bindings_spec(n).len() && 0 <= j < bindings_spec(n).len() && i != j implies
        bindings_spec(n)[i] != bindings_spec(n)[j] by {
        lemma_binding_names_distinct(i as nat, j as nat);
    }
}

} // verus!
