use vstd::prelude::*;
use crate::error::{GenerationError, HandlerKind};
use crate::handlers::{any_async, any_receiver, generate, is_first_receiver_error, BlockNames, GeneratedHandlers};
use crate::signature::HandlerSignature;

verus! {

pub const COMMANDS_ENUM_NAME: &'static str = "Commands";
pub const COMMAND_RESPONSES_ENUM_NAME: &'static str = "CommandResponses";
pub const COMMAND_FN_NAME: &'static str = "handle_impl";
pub const COMMAND_ENTRY_POINT_NAME: &'static str = "handle";
pub const COMMAND_FN_PARAM_NAME: &'static str = "command";
pub const QUERIES_ENUM_NAME: &'static str = "Queries";
pub const QUERY_RESPONSES_ENUM_NAME: &'static str = "QueryResponses";
pub const QUERY_FN_NAME: &'static str = "query_impl";
pub const QUERY_ENTRY_POINT_NAME: &'static str = "state";
pub const QUERY_FN_PARAM_NAME: &'static str = "query";

pub open spec fn request_enum_name(kind: HandlerKind) -> Seq<char> {
    match kind {
        HandlerKind::Command => COMMANDS_ENUM_NAME@,
        HandlerKind::Query => QUERIES_ENUM_NAME@,
    }
}

pub open spec fn response_enum_name(kind: HandlerKind) -> Seq<char> {
    match kind {
        HandlerKind::Command => COMMAND_RESPONSES_ENUM_NAME@,
        HandlerKind::Query => QUERY_RESPONSES_ENUM_NAME@,
    }
}

pub open spec fn dispatch_fn_name(kind: HandlerKind) -> Seq<char> {
    match kind {
        HandlerKind::Command => COMMAND_FN_NAME@,
        HandlerKind::Query => QUERY_FN_NAME@,
    }
}

pub open spec fn entry_point_name(kind: HandlerKind) -> Seq<char> {
    match kind {
        HandlerKind::Command => COMMAND_ENTRY_POINT_NAME@,
        HandlerKind::Query => QUERY_ENTRY_POINT_NAME@,
    }
}

pub open spec fn param_name(kind: HandlerKind) -> Seq<char> {
    match kind {
        HandlerKind::Command => COMMAND_FN_PARAM_NAME@,
        HandlerKind::Query => QUERY_FN_PARAM_NAME@,
    }
}

/// The names under which a block of `kind` is generated.
pub fn block_names(kind: HandlerKind) -> (r: BlockNames<'static>)
    ensures
        r.request_enum@ == request_enum_name(kind),
        r.response_enum@ == response_enum_name(kind),
        r.func@ == dispatch_fn_name(kind),
        r.export@ == entry_point_name(kind),
        r.param@ == param_name(kind),
{
    match kind {
        HandlerKind::Command => BlockNames {
            request_enum: COMMANDS_ENUM_NAME,
            response_enum: COMMAND_RESPONSES_ENUM_NAME,
            func: COMMAND_FN_NAME,
            export: COMMAND_ENTRY_POINT_NAME,
            param: COMMAND_FN_PARAM_NAME,
        },
        HandlerKind::Query => BlockNames {
            request_enum: QUERIES_ENUM_NAME,
            response_enum: QUERY_RESPONSES_ENUM_NAME,
            func: QUERY_FN_NAME,
            export: QUERY_ENTRY_POINT_NAME,
            param: QUERY_FN_PARAM_NAME,
        },
    }
}

/// What a handler block of `kind` made of `sigs` is: the generated output
/// exactly when no handler has a receiver, the block is not empty and no
/// handler is asynchronous, and otherwise the first of those faults.
pub open spec fn block_result(
    kind: HandlerKind,
    sigs: Seq<HandlerSignature>,
    r: Result<GeneratedHandlers, GenerationError>,
) -> bool {
    match r {
        Ok(g) => {
            &&& !any_receiver(sigs)
            &&& sigs.len() > 0
            &&& !any_async(sigs)
            &&& g.generated_from(
                kind,
                sigs,
                request_enum_name(kind),
                response_enum_name(kind),
                dispatch_fn_name(kind),
                entry_point_name(kind),
                param_name(kind),
            )
        },
        Err(e) => if any_receiver(sigs) {
            is_first_receiver_error(sigs, e)
        } else if sigs.len() == 0 {
            e == (GenerationError::EmptyHandlerSet { kind })
        } else {
            any_async(sigs) && e == (GenerationError::AsyncEntryPointUnsupported { kind })
        },
    }
}

/// Generates a handler block of `kind`.
pub fn handlers_core(kind: HandlerKind, sigs: &Vec<HandlerSignature>) -> (r: Result<
    GeneratedHandlers,
    GenerationError,
>)
    ensures
        block_result(kind, sigs@, r),
{
    let names = block_names(kind);
    generate(kind, sigs, &names)
}

/// Generates a command block: `Commands`, `CommandResponses`, the dispatch
/// function `handle_impl` and the entry point `handle`, which sends a failed
/// outcome through the fault channel.
pub fn command_handlers_core(sigs: &Vec<HandlerSignature>) -> (r: Result<
    GeneratedHandlers,
    GenerationError,
>)
    ensures
        block_result(HandlerKind::Command, sigs@, r),
{
    handlers_core(HandlerKind::Command, sigs)
}

/// Generates a query block: `Queries`, `QueryResponses`, the dispatch
/// function `query_impl` and the entry point `state`, which always replies.
pub fn query_handlers_core(sigs: &Vec<HandlerSignature>) -> (r: Result<
    GeneratedHandlers,
    GenerationError,
>)
    ensures
        block_result(HandlerKind::Query, sigs@, r),
{
    handlers_core(HandlerKind::Query, sigs)
}

/// A block of `kind` whose handlers are well formed but include an
/// asynchronous one is refused with `AsyncEntryPointUnsupported`; for a
/// command block that is the command entry point being refused.
pub proof fn lemma_async_handler_refused_at_entry_point(
    kind: HandlerKind,
    sigs: Seq<HandlerSignature>,
    r: Result<GeneratedHandlers, GenerationError>,
)
    requires
        block_result(kind, sigs, r),
        !any_receiver(sigs),
        sigs.len() > 0,
        any_async(sigs),
    ensures
        r == Err::<GeneratedHandlers, GenerationError>(GenerationError::AsyncEntryPointUnsupported { kind }),
{
}

/// Command and query blocks are generated under different union, dispatch
/// function and entry point names, so both can stand side by side.
pub proof fn lemma_kinds_generate_apart()
    ensures
        request_enum_name(HandlerKind::Command) != request_enum_name(HandlerKind::Query),
        response_enum_name(HandlerKind::Command) != response_enum_name(HandlerKind::Query),
        dispatch_fn_name(HandlerKind::Command) != dispatch_fn_name(HandlerKind::Query),
        entry_point_name(HandlerKind::Command) != entry_point_name(HandlerKind::Query),
{
    reveal_strlit("Commands");
    reveal_strlit("Queries");
    reveal_strlit("CommandResponses");
    reveal_strlit("QueryResponses");
    reveal_strlit("handle_impl");
    reveal_strlit("query_impl");
    reveal_strlit("handle");
    reveal_strlit("state");
    assert(request_enum_name(HandlerKind::Command)[0] != request_enum_name(HandlerKind::Query)[0]);
    assert(response_enum_name(HandlerKind::Command)[0] != response_enum_name(HandlerKind::Query)[0]);
    assert(dispatch_fn_name(HandlerKind::Command)[0] != dispatch_fn_name(HandlerKind::Query)[0]);
    assert(entry_point_name(HandlerKind::Command)[0] != entry_point_name(HandlerKind::Query)[0]);
}

} // verus!
