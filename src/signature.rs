use vstd::prelude::*;
use crate::error::GenerationError;

verus! {

/// One parameter of a handler declaration.
#[derive(Clone, Debug)]
pub enum FnParam {
    /// A method receiver (`self`, `&self`, `&mut self`).
    Receiver,
    /// A typed parameter; the text of its type.
    Typed(String),
}

/// A handler declaration as written: its name, its parameters in order, the
/// text of its return type if it declares one, and whether it is `async`.
#[derive(Clone, Debug)]
pub struct HandlerSignature {
    pub name: String,
    pub inputs: Vec<FnParam>,
    pub output: Option<String>,
    pub is_async: bool,
}

/// A handler after analysis: free of receivers, with its outcome type settled.
#[derive(Clone, Debug)]
pub struct HandlerDefinition {
    pub name: String,
    pub param_types: Vec<String>,
    pub outcome_type: String,
    pub is_async: bool,
}

/// The outcome type of a handler that declares no return type.
pub open spec fn unit_type() -> Seq<char> {
    seq!['(', ')']
}

pub open spec fn param_type_of(p: FnParam) -> Seq<char> {
    match p {
        FnParam::Typed(t) => t@,
        FnParam::Receiver => Seq::empty(),
    }
}

pub open spec fn outcome_type_of(output: Option<String>) -> Seq<char> {
    match output {
        Some(t) => t@,
        None => unit_type(),
    }
}

impl HandlerSignature {
    pub open spec fn has_receiver(&self) -> bool {
        exists|i: int| 0 <= i < self.inputs@.len() && #[trigger] self.inputs@[i] is Receiver
    }

    pub open spec fn spec_param_types(&self) -> Seq<Seq<char>> {
        self.inputs@.map_values(|p: FnParam| param_type_of(p))
    }

    /// What the analysis of a receiver-free signature yields.
    pub open spec fn analyzed_as(&self, d: HandlerDefinition) -> bool {
        &&& d.name@ == self.name@
        &&& d.param_types.deep_view() == self.spec_param_types()
        &&& d.outcome_type@ == outcome_type_of(self.output)
        &&& d.is_async == self.is_async
    }
}

/// A copy of a list of strings.
pub fn clone_strings(v: &Vec<String>) -> (r: Vec<String>)
    ensures
        r.deep_view() == v.deep_view(),
{
    let mut r: Vec<String> = Vec::new();
    let mut i: usize = 0;
    while i < v.len()
        invariant
            i <= v.len(),
            r@.len() == i,
            forall|k: int| 0 <= k < i ==> #[trigger] r@[k]@ == v@[k]@,
        decreases v.len() - i,
    {
        r.push(v[i].clone());
        i += 1;
    }
    assert(r.deep_view() =~= v.deep_view());
    r
}

/// The type of one parameter; a receiver is refused.
pub fn arg_type(handler: &String, arg: &FnParam) -> (r: Result<String, GenerationError>)
    ensures
        match r {
            Ok(t) => arg is Typed && t@ == param_type_of(*arg),
            Err(e) => arg is Receiver && e == (GenerationError::UnsupportedSelfParameter {
                handler: *handler,
            }),
        },
{
    match arg {
        FnParam::Typed(t) => Ok(t.clone()),
        FnParam::Receiver => Err(GenerationError::UnsupportedSelfParameter { handler: handler.clone() }),
    }
}

/// The parameter types of a handler, in declared order.
pub fn arg_types(sig: &HandlerSignature) -> (r: Result<Vec<String>, GenerationError>)
    ensures
        match r {
            Ok(ts) => !sig.has_receiver() && ts.deep_view() == sig.spec_param_types(),
            Err(e) => sig.has_receiver() && e == (GenerationError::UnsupportedSelfParameter {
                handler: sig.name,
            }),
        },
{
    let mut ts: Vec<String> = Vec::new();
    let mut i: usize = 0;
    while i < sig.inputs.len()
        invariant
            i <= sig.inputs.len(),
            forall|k: int| 0 <= k < i ==> !(#[trigger] sig.inputs@[k] is Receiver),
            ts@.len() == i,
            forall|k: int| 0 <= k < i ==> #[trigger] ts@[k]@ == param_type_of(sig.inputs@[k]),
        decreases sig.inputs.len() - i,
    {
        match arg_type(&sig.name, &sig.inputs[i]) {
            Ok(t) => {
                ts.push(t);
            },
            Err(e) => {
                return Err(e);
            },
        }
        i += 1;
    }
    assert(ts.deep_view() =~= sig.spec_param_types());
    Ok(ts)
}

/// The declared return type, or the unit type where none is declared.
pub fn return_type(output: &Option<String>) -> (r: String)
    ensures
        r@ == outcome_type_of(*output),
{
    match output {
        Some(t) => t.clone(),
        None => {
            let r = String::from_str("()");
            proof {
                reveal_strlit("()");
            }
            assert(r@ =~= unit_type());
            r
        },
    }
}

/// Extracts name, parameter types, outcome type and synchronicity from one
/// handler declaration. Fails exactly when a parameter is a receiver.
pub fn analyze_signature(sig: &HandlerSignature) -> (r: Result<HandlerDefinition, GenerationError>)
    ensures
        match r {
            Ok(d) => !sig.has_receiver() && sig.analyzed_as(d),
            Err(e) => sig.has_receiver() && e == (GenerationError::UnsupportedSelfParameter {
                handler: sig.name,
            }),
        },
{
    let param_types = match arg_types(sig) {
        Ok(ts) => ts,
        Err(e) => {
            return Err(e);
        },
    };
    Ok(HandlerDefinition {
        name: sig.name.clone(),
        param_types,
        outcome_type: return_type(&sig.output),
        is_async: sig.is_async,
    })
}

} // verus!
