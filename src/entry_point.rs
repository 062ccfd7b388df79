use vstd::prelude::*;
use crate::error::{GenerationError, HandlerKind};
use crate::handlers::FullHandlerParts;

verus! {

/// How an entry point hands the encoded response back to the host.
#[derive(Clone, Copy, Debug, PartialEq, Eq, Structural)]
pub enum Delivery {
    /// The encoded response goes out as the normal reply.
    Reply,
    /// The encoded response goes out through the host's fault channel.
    Fault,
}

/// The generated host-callable entry point of one handler set. It decodes
/// the incoming payload into `request_enum` (aborting the call if that
/// fails), binds it to `param_name`, calls the dispatch function
/// `dispatch_name`, encodes the response and delivers it as `delivery` says.
#[derive(Clone, Debug, PartialEq, Eq)]
pub struct EntryPoint {
    pub kind: HandlerKind,
    pub export_name: String,
    pub param_name: String,
    pub request_enum: String,
    pub dispatch_name: String,
    pub signals_fault: bool,
}

pub open spec fn delivery_spec(signals_fault: bool, is_failure: bool) -> Delivery {
    if signals_fault && is_failure {
        Delivery::Fault
    } else {
        Delivery::Reply
    }
}

impl EntryPoint {
    /// Where the encoded response goes, given the dispatch's failure flag:
    /// a command's failed outcome goes to the fault channel, every other
    /// outcome is the normal reply.
    pub fn delivery(&self, is_failure: bool) -> (r: Delivery)
        ensures
            r == delivery_spec(self.signals_fault, is_failure),
    {
        if self.signals_fault && is_failure {
            Delivery::Fault
        } else {
            Delivery::Reply
        }
    }

    /// The entry point of `kind` over a compiled set, under the given names.
    pub open spec fn wraps(
        &self,
        kind: HandlerKind,
        parts: FullHandlerParts,
        export_name: Seq<char>,
        param_name: Seq<char>,
    ) -> bool {
        &&& self.kind == kind
        &&& self.export_name@ == export_name
        &&& self.param_name@ == param_name
        &&& self.request_enum@ == parts.request_enum.name@
        &&& self.dispatch_name@ == parts.function.name@
        &&& self.signals_fault == (kind == HandlerKind::Command)
    }
}

/// Wraps a compiled set in an entry point of `kind`. Entry points are
/// synchronous only: a set with an asynchronous handler is refused.
pub fn emit_entry_point(kind: HandlerKind, parts: &FullHandlerParts, export_name: &str, param_name: &str) -> (r: Result<
    EntryPoint,
    GenerationError,
>)
    ensures
        match r {
            Ok(ep) => !parts.is_async && ep.wraps(kind, *parts, export_name@, param_name@),
            Err(e) => parts.is_async && e == (GenerationError::AsyncEntryPointUnsupported { kind }),
        },
{
    if parts.is_async {
        return Err(GenerationError::AsyncEntryPointUnsupported { kind });
    }
    let signals_fault = match kind {
        HandlerKind::Command => true,
        HandlerKind::Query => false,
    };
    Ok(EntryPoint {
        kind,
        export_name: String::from_str(export_name),
        param_name: String::from_str(param_name),
        request_enum: parts.request_enum.name.clone(),
        dispatch_name: parts.function.name.clone(),
        signals_fault,
    })
}

} // verus!
