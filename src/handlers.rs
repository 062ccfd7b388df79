use vstd::prelude::*;
use crate::error::{GenerationError, HandlerKind};
use crate::entry_point::{emit_entry_point, EntryPoint};
use crate::handler_parts::{bindings_spec, lemma_bindings_distinct, lemma_call_receives_fields, EnumVariant, HandlerParts, MatchArm};
use crate::naming::{
    get_handlers_mod_ident, get_scale_codec_crate_ident, get_scale_info_crate_ident, pascal_case_of,
    snake_prefixed,
};
use crate::signature::{analyze_signature, outcome_type_of, HandlerSignature};

verus! {

/// A generated tagged union.
#[derive(Clone, Debug, PartialEq, Eq)]
pub struct UnionDef {
    pub name: String,
    pub variants: Vec<EnumVariant>,
}

/// The generated dispatch function: it takes a value of the request union,
/// runs the one arm that matches it, and returns the response together with
/// the handler's failure flag. It is `async` exactly when `is_async`.
#[derive(Clone, Debug, PartialEq, Eq)]
pub struct DispatchFn {
    pub name: String,
    pub request_enum: String,
    pub response_enum: String,
    pub is_async: bool,
    pub arms: Vec<MatchArm>,
}

/// A compiled handler set: the two unions and the dispatch function.
#[derive(Clone, Debug, PartialEq, Eq)]
pub struct FullHandlerParts {
    pub request_enum: UnionDef,
    pub response_enum: UnionDef,
    pub function: DispatchFn,
    pub is_async: bool,
}

/// Some handler of `sigs` is `async`.
pub open spec fn any_async(sigs: Seq<HandlerSignature>) -> bool {
    exists|i: int| 0 <= i < sigs.len() && #[trigger] sigs[i].is_async
}

/// Some handler of `sigs` declares a receiver.
pub open spec fn any_receiver(sigs: Seq<HandlerSignature>) -> bool {
    exists|i: int| 0 <= i < sigs.len() && #[trigger] sigs[i].has_receiver()
}

/// `e` names the first handler of `sigs` that declares a receiver.
pub open spec fn is_first_receiver_error(sigs: Seq<HandlerSignature>, e: GenerationError) -> bool {
    exists|i: int|
        0 <= i < sigs.len() && #[trigger] sigs[i].has_receiver() && (forall|j: int|
            0 <= j < i ==> !(#[trigger] sigs[j].has_receiver())) && e
            == (GenerationError::UnsupportedSelfParameter { handler: sigs[i].name })
}

/// What compiling `sigs` gives: the compiled set exactly when no handler has
/// a receiver and the list is not empty; otherwise the first such fault.
pub open spec fn compile_result(
    kind: HandlerKind,
    sigs: Seq<HandlerSignature>,
    request_enum: Seq<char>,
    response_enum: Seq<char>,
    func: Seq<char>,
    r: Result<FullHandlerParts, GenerationError>,
) -> bool {
    match r {
        Ok(p) => !any_receiver(sigs) && sigs.len() > 0 && p.compiled_from(sigs, request_enum, response_enum, func),
        Err(e) => if any_receiver(sigs) {
            is_first_receiver_error(sigs, e)
        } else {
            sigs.len() == 0 && e == (GenerationError::EmptyHandlerSet { kind })
        },
    }
}

impl FullHandlerParts {
    /// Request variant `i`, response variant `i` and dispatch arm `i` are
    /// those of handler `i` of `sigs`.
    pub open spec fn handler_at(&self, sigs: Seq<HandlerSignature>, i: int) -> bool {
        let s = sigs[i];
        &&& self.request_enum.variants@[i].spec_is(pascal_case_of(s.name@), s.spec_param_types())
        &&& self.response_enum.variants@[i].spec_is(
            pascal_case_of(s.name@),
            seq![outcome_type_of(s.output)],
        )
        &&& self.function.arms@[i].variant@ == pascal_case_of(s.name@)
        &&& self.function.arms@[i].bindings.deep_view() == bindings_spec(s.inputs@.len())
        &&& self.function.arms@[i].handler@ == s.name@
        &&& self.function.arms@[i].awaits == s.is_async
    }

    /// The set compiled from `sigs` under the given union and function names.
    pub open spec fn compiled_from(
        &self,
        sigs: Seq<HandlerSignature>,
        request_enum: Seq<char>,
        response_enum: Seq<char>,
        func: Seq<char>,
    ) -> bool {
        &&& self.request_enum.name@ == request_enum
        &&& self.response_enum.name@ == response_enum
        &&& self.function.name@ == func
        &&& self.function.request_enum@ == request_enum
        &&& self.function.response_enum@ == response_enum
        &&& self.request_enum.variants@.len() == sigs.len()
        &&& self.response_enum.variants@.len() == sigs.len()
        &&& self.function.arms@.len() == sigs.len()
        &&& forall|i: int| 0 <= i < sigs.len() ==> #[trigger] self.handler_at(sigs, i)
        &&& self.function.is_async == any_async(sigs)
        &&& self.is_async == any_async(sigs)
    }

    /// Compiles a list of handler declarations of one kind. Fails on the
    /// first handler that declares a receiver, and otherwise on an empty list.
    pub fn from(
        kind: HandlerKind,
        sigs: &Vec<HandlerSignature>,
        request_enum_ident: &str,
        response_enum_ident: &str,
        func_name: &str,
    ) -> (r: Result<Self, GenerationError>)
        ensures
            compile_result(kind, sigs@, request_enum_ident@, response_enum_ident@, func_name@, r),
    {
        let mut request_variants: Vec<EnumVariant> = Vec::new();
        let mut response_variants: Vec<EnumVariant> = Vec::new();
        let mut arms: Vec<MatchArm> = Vec::new();
        let mut has_async_handler = false;
        let mut i: usize = 0;
        while i < sigs.len()
            invariant
                i <= sigs.len(),
                forall|k: int| 0 <= k < i ==> !(#[trigger] sigs@[k].has_receiver()),
                request_variants@.len() == i,
                response_variants@.len() == i,
                arms@.len() == i,
                has_async_handler == any_async(sigs@.take(i as int)),
                forall|k: int|
                    0 <= k < i ==> {
                        let s = #[trigger] sigs@[k];
                        &&& request_variants@[k].spec_is(pascal_case_of(s.name@), s.spec_param_types())
                        &&& response_variants@[k].spec_is(
                            pascal_case_of(s.name@),
                            seq![outcome_type_of(s.output)],
                        )
                        &&& arms@[k].variant@ == pascal_case_of(s.name@)
                        &&& arms@[k].bindings.deep_view() == bindings_spec(s.inputs@.len())
                        &&& arms@[k].handler@ == s.name@
                        &&& arms@[k].awaits == s.is_async
                    },
            decreases sigs.len() - i,
        {
            let d = match analyze_signature(&sigs[i]) {
                Ok(d) => d,
                Err(e) => {
                    assert(is_first_receiver_error(sigs@, e));
                    return Err(e);
                },
            };
            assert(d.param_types.deep_view().len() == sigs@[i as int].spec_param_types().len());
            let parts = HandlerParts::from(&d);
            request_variants.push(parts.request_enum_variant);
            response_variants.push(parts.response_enum_variant);
            arms.push(parts.call_match_arm);
            proof {
                assert(sigs@.take(i + 1) =~= sigs@.take(i as int).push(sigs@[i as int]));
                if parts.is_async {
                    assert(sigs@.take(i + 1)[i as int].is_async);
                }
                if any_async(sigs@.take(i + 1)) && !parts.is_async {
                    let k = choose|k: int| 0 <= k < i + 1 && #[trigger] sigs@.take(i + 1)[k].is_async;
                    assert(sigs@.take(i as int)[k].is_async);
                }
            }
            has_async_handler = has_async_handler || parts.is_async;
            i += 1;
        }
        assert(sigs@.take(i as int) =~= sigs@);
        if sigs.len() == 0 {
            return Err(GenerationError::EmptyHandlerSet { kind });
        }
        let request_enum = UnionDef { name: String::from_str(request_enum_ident), variants: request_variants };
        let response_enum = UnionDef { name: String::from_str(response_enum_ident), variants: response_variants };
        let function = DispatchFn {
            name: String::from_str(func_name),
            request_enum: String::from_str(request_enum_ident),
            response_enum: String::from_str(response_enum_ident),
            is_async: has_async_handler,
            arms,
        };
        let r = FullHandlerParts { request_enum, response_enum, function, is_async: has_async_handler };
        assert forall|k: int| 0 <= k < sigs@.len() implies #[trigger] r.handler_at(sigs@, k) by {}
        Ok(r)
    }
}

/// Everything generated for one handler block: the names under which the
/// codec and type-registry crates are imported, the module that holds the
/// dispatch function and the entry point, the compiled set, and the entry
/// point.
#[derive(Clone, Debug, PartialEq, Eq)]
pub struct GeneratedHandlers {
    pub scale_codec_crate: String,
    pub scale_info_crate: String,
    pub module_name: String,
    pub parts: FullHandlerParts,
    pub entry_point: EntryPoint,
}

/// The names a handler block of one kind generates under.
pub struct BlockNames<'a> {
    pub request_enum: &'a str,
    pub response_enum: &'a str,
    pub func: &'a str,
    pub export: &'a str,
    pub param: &'a str,
}

impl GeneratedHandlers {
    pub open spec fn generated_from(
        &self,
        kind: HandlerKind,
        sigs: Seq<HandlerSignature>,
        request_enum: Seq<char>,
        response_enum: Seq<char>,
        func: Seq<char>,
        export: Seq<char>,
        param: Seq<char>,
    ) -> bool {
        &&& self.scale_codec_crate@ == snake_prefixed(request_enum, "_scale_codec"@)
        &&& self.scale_info_crate@ == snake_prefixed(request_enum, "_scale_info"@)
        &&& self.module_name@ == snake_prefixed(request_enum, "_handlers_wasm"@)
        &&& self.parts.compiled_from(sigs, request_enum, response_enum, func)
        &&& self.entry_point.wraps(kind, self.parts, export, param)
    }
}

/// Compiles a handler block of `kind` and wraps it in its entry point.
/// Fails on the first handler with a receiver, then on an empty block, then
/// on a block with an asynchronous handler.
pub fn generate(kind: HandlerKind, sigs: &Vec<HandlerSignature>, names: &BlockNames) -> (r: Result<
    GeneratedHandlers,
    GenerationError,
>)
    ensures
        match r {
            Ok(g) => {
                &&& !any_receiver(sigs@)
                &&& sigs@.len() > 0
                &&& !any_async(sigs@)
                &&& g.generated_from(
                    kind,
                    sigs@,
                    names.request_enum@,
                    names.response_enum@,
                    names.func@,
                    names.export@,
                    names.param@,
                )
            },
            Err(e) => if any_receiver(sigs@) {
                is_first_receiver_error(sigs@, e)
            } else if sigs@.len() == 0 {
                e == (GenerationError::EmptyHandlerSet { kind })
            } else {
                any_async(sigs@) && e == (GenerationError::AsyncEntryPointUnsupported { kind })
            },
        },
{
    let parts = match FullHandlerParts::from(kind, sigs, names.request_enum, names.response_enum, names.func) {
        Ok(p) => p,
        Err(e) => {
            return Err(e);
        },
    };
    let entry_point = match emit_entry_point(kind, &parts, names.export, names.param) {
        Ok(ep) => ep,
        Err(e) => {
            return Err(e);
        },
    };
    Ok(GeneratedHandlers {
        scale_codec_crate: get_scale_codec_crate_ident(names.request_enum),
        scale_info_crate: get_scale_info_crate_ident(names.request_enum),
        module_name: get_handlers_mod_ident(names.request_enum),
        parts,
        entry_point,
    })
}

/// A non-empty list of receiver-free handlers compiles, and the two unions
/// get one variant per handler each, in handler order, both tagged with the
/// handler's canonical name.
pub proof fn lemma_one_variant_pair_per_handler(
    kind: HandlerKind,
    sigs: Seq<HandlerSignature>,
    request_enum: Seq<char>,
    response_enum: Seq<char>,
    func: Seq<char>,
    r: Result<FullHandlerParts, GenerationError>,
)
    requires
        compile_result(kind, sigs, request_enum, response_enum, func, r),
        sigs.len() > 0,
        !any_receiver(sigs),
    ensures
        r is Ok,
        r->Ok_0.request_enum.variants@.len() == sigs.len(),
        r->Ok_0.response_enum.variants@.len() == sigs.len(),
        forall|i: int|
            0 <= i < sigs.len() ==> {
                &&& (#[trigger] r->Ok_0.request_enum.variants@[i]).name@ == pascal_case_of(sigs[i].name@)
                &&& r->Ok_0.response_enum.variants@[i].name@ == pascal_case_of(sigs[i].name@)
            },
{
    let p = r->Ok_0;
    assert forall|i: int| 0 <= i < sigs.len() implies {
        &&& (#[trigger] p.request_enum.variants@[i]).name@ == pascal_case_of(sigs[i].name@)
        &&& p.response_enum.variants@[i].name@ == pascal_case_of(sigs[i].name@)
    } by {
        assert(p.handler_at(sigs, i));
    }
}

/// Handler `i` with `n` parameters gets a request variant with exactly `n`
/// positional fields, its parameter types in order; its dispatch arm matches
/// that variant, binds the `n` fields to `n` distinct names and calls the
/// handler with them in the same order, so the `j`-th field value is the
/// `j`-th argument.
pub proof fn lemma_dispatch_passes_fields_in_order<V>(
    kind: HandlerKind,
    sigs: Seq<HandlerSignature>,
    request_enum: Seq<char>,
    response_enum: Seq<char>,
    func: Seq<char>,
    p: FullHandlerParts,
    i: int,
    values: Seq<V>,
)
    requires
        compile_result(kind, sigs, request_enum, response_enum, func, Ok(p)),
        0 <= i < sigs.len(),
        values.len() == sigs[i].inputs@.len(),
    ensures
        p.function.arms@[i].call_arguments(values) == values,
        p.request_enum.variants@[i].fields.deep_view() == sigs[i].spec_param_types(),
        p.request_enum.variants@[i].fields@.len() == sigs[i].inputs@.len(),
        p.function.arms@[i].variant@ == p.request_enum.variants@[i].name@,
        p.function.arms@[i].handler@ == sigs[i].name@,
        p.function.arms@[i].passes_fields_in_order(sigs[i].inputs@.len()),
{
    assert(p.handler_at(sigs, i));
    assert(p.request_enum.variants@[i].fields.deep_view().len() == p.request_enum.variants@[i].fields@.len());
    lemma_bindings_distinct(sigs[i].inputs@.len());
    lemma_call_receives_fields(p.function.arms@[i], values);
}

/// The dispatch function is asynchronous exactly when some handler is.
pub proof fn lemma_dispatch_async_iff_any_handler_async(
    kind: HandlerKind,
    sigs: Seq<HandlerSignature>,
    request_enum: Seq<char>,
    response_enum: Seq<char>,
    func: Seq<char>,
    p: FullHandlerParts,
)
    requires
        compile_result(kind, sigs, request_enum, response_enum, func, Ok(p)),
    ensures
        p.function.is_async <==> exists|i: int| 0 <= i < sigs.len() && #[trigger] sigs[i].is_async,
{
}

} // verus!
