use gprogram_macros_core::blocks::{command_handlers_core, query_handlers_core};
use gprogram_macros_core::entry_point::{emit_entry_point, Delivery, EntryPoint};
use gprogram_macros_core::error::{GenerationError, HandlerKind};
use gprogram_macros_core::handler_parts::{EnumVariant, MatchArm};
use gprogram_macros_core::handlers::{DispatchFn, FullHandlerParts, UnionDef};
use gprogram_macros_core::naming::{
    get_handlers_mod_ident, get_scale_codec_crate_ident, get_scale_info_crate_ident, variant_name,
};
use gprogram_macros_core::signature::{analyze_signature, FnParam, HandlerSignature};

fn strings(v: &[&str]) -> Vec<String> {
    v.iter().map(|s| s.to_string()).collect()
}

fn signature(name: &str, params: &[&str], output: Option<&str>, is_async: bool) -> HandlerSignature {
    HandlerSignature {
        name: name.to_string(),
        inputs: params.iter().map(|p| FnParam::Typed(p.to_string())).collect(),
        output: output.map(|o| o.to_string()),
        is_async,
    }
}

fn variant(name: &str, fields: &[&str]) -> EnumVariant {
    EnumVariant { name: name.to_string(), fields: strings(fields) }
}

fn arm(variant: &str, bindings: &[&str], handler: &str, awaits: bool) -> MatchArm {
    MatchArm { variant: variant.to_string(), bindings: strings(bindings), handler: handler.to_string(), awaits }
}

#[test]
fn command_handlers_core_works() {
    let g = command_handlers_core(&vec![signature("do_this", &[], None, false)]).unwrap();
    assert_eq!(g.scale_codec_crate, "commands_scale_codec");
    assert_eq!(g.scale_info_crate, "commands_scale_info");
    assert_eq!(g.module_name, "commands_handlers_wasm");
    assert_eq!(g.parts.request_enum, UnionDef { name: "Commands".to_string(), variants: vec![variant("DoThis", &[])] });
    assert_eq!(
        g.parts.response_enum,
        UnionDef { name: "CommandResponses".to_string(), variants: vec![variant("DoThis", &["()"])] }
    );
    assert_eq!(
        g.parts.function,
        DispatchFn {
            name: "handle_impl".to_string(),
            request_enum: "Commands".to_string(),
            response_enum: "CommandResponses".to_string(),
            is_async: false,
            arms: vec![arm("DoThis", &[], "do_this", false)],
        }
    );
    assert_eq!(
        g.entry_point,
        EntryPoint {
            kind: HandlerKind::Command,
            export_name: "handle".to_string(),
            param_name: "command".to_string(),
            request_enum: "Commands".to_string(),
            dispatch_name: "handle_impl".to_string(),
            signals_fault: true,
        }
    );
}

#[test]
fn query_handlers_core_works() {
    let g = query_handlers_core(&vec![signature("this", &[], None, false)]).unwrap();
    assert_eq!(g.scale_codec_crate, "queries_scale_codec");
    assert_eq!(g.scale_info_crate, "queries_scale_info");
    assert_eq!(g.module_name, "queries_handlers_wasm");
    assert_eq!(g.parts.request_enum, UnionDef { name: "Queries".to_string(), variants: vec![variant("This", &[])] });
    assert_eq!(
        g.parts.response_enum,
        UnionDef { name: "QueryResponses".to_string(), variants: vec![variant("This", &["()"])] }
    );
    assert_eq!(
        g.parts.function,
        DispatchFn {
            name: "query_impl".to_string(),
            request_enum: "Queries".to_string(),
            response_enum: "QueryResponses".to_string(),
            is_async: false,
            arms: vec![arm("This", &[], "this", false)],
        }
    );
    assert_eq!(
        g.entry_point,
        EntryPoint {
            kind: HandlerKind::Query,
            export_name: "state".to_string(),
            param_name: "query".to_string(),
            request_enum: "Queries".to_string(),
            dispatch_name: "query_impl".to_string(),
            signals_fault: false,
        }
    );
}

#[test]
fn sync_command_handlers_work() {
    let g = command_handlers_core(&vec![
        signature("do_this", &["u32", "String"], Some("Result<(String, u32), u32>"), false),
        signature("do_that", &["DoThatParam"], Some("Result<(u32, String), String>"), false),
    ])
    .unwrap();
    assert_eq!(g.parts.request_enum.variants, vec![variant("DoThis", &["u32", "String"]), variant("DoThat", &["DoThatParam"])]);
    assert_eq!(
        g.parts.response_enum.variants,
        vec![variant("DoThis", &["Result<(String, u32), u32>"]), variant("DoThat", &["Result<(u32, String), String>"])]
    );
    assert_eq!(g.parts.function.arms, vec![arm("DoThis", &["v0", "v1"], "do_this", false), arm("DoThat", &["v0"], "do_that", false)]);
}

#[test]
fn sync_query_handlers_work() {
    let g = query_handlers_core(&vec![
        signature("this", &["u32", "String"], Some("Result<(String, u32), u32>"), false),
        signature("that", &["DoThatParam"], Some("Result<(u32, String), String>"), false),
    ])
    .unwrap();
    assert_eq!(g.parts.request_enum.name, "Queries");
    assert_eq!(g.parts.request_enum.variants, vec![variant("This", &["u32", "String"]), variant("That", &["DoThatParam"])]);
    assert_eq!(g.parts.function.arms, vec![arm("This", &["v0", "v1"], "this", false), arm("That", &["v0"], "that", false)]);
}

#[test]
fn no_command_handlers() {
    assert_eq!(command_handlers_core(&vec![]), Err(GenerationError::EmptyHandlerSet { kind: HandlerKind::Command }));
}

#[test]
fn no_query_handlers() {
    assert_eq!(query_handlers_core(&vec![]), Err(GenerationError::EmptyHandlerSet { kind: HandlerKind::Query }));
}

#[test]
fn async_command_handlers_not_implemented() {
    let sigs = vec![signature("do_this", &[], None, false), signature("do_that", &["u32"], None, true)];
    assert_eq!(
        command_handlers_core(&sigs),
        Err(GenerationError::AsyncEntryPointUnsupported { kind: HandlerKind::Command })
    );
}

#[test]
fn async_query_handlers_not_supported() {
    let sigs = vec![signature("this", &[], None, true)];
    assert_eq!(query_handlers_core(&sigs), Err(GenerationError::AsyncEntryPointUnsupported { kind: HandlerKind::Query }));
}

#[test]
fn handler_with_receiver_is_refused() {
    let sig = HandlerSignature {
        name: "do_this".to_string(),
        inputs: vec![FnParam::Receiver, FnParam::Typed("u32".to_string())],
        output: None,
        is_async: false,
    };
    let expected = Err(GenerationError::UnsupportedSelfParameter { handler: "do_this".to_string() });
    assert_eq!(analyze_signature(&sig).map(|d| d.name), expected.clone());
    let later = HandlerSignature { name: "do_that".to_string(), ..sig.clone() };
    assert_eq!(
        command_handlers_core(&vec![signature("ok", &[], None, false), sig, later]).map(|g| g.module_name),
        expected
    );
}

#[test]
fn receiver_is_reported_before_empty_or_async() {
    let sig = HandlerSignature { name: "h".to_string(), inputs: vec![FnParam::Receiver], output: None, is_async: true };
    assert_eq!(
        query_handlers_core(&vec![sig]).map(|g| g.module_name),
        Err(GenerationError::UnsupportedSelfParameter { handler: "h".to_string() })
    );
}

#[test]
fn example_handler_with_outcome_type() {
    let g = command_handlers_core(&vec![signature("do_this", &["u32", "String"], Some("Result<(String, u32), String>"), false)])
        .unwrap();
    assert_eq!(g.parts.request_enum.variants, vec![variant("DoThis", &["u32", "String"])]);
    assert_eq!(g.parts.response_enum.variants, vec![variant("DoThis", &["Result<(String, u32), String>"])]);
    assert_eq!(g.parts.function.arms, vec![arm("DoThis", &["v0", "v1"], "do_this", false)]);
}

#[test]
fn example_zero_parameter_handler() {
    let g = query_handlers_core(&vec![signature("get_value", &[], None, false)]).unwrap();
    assert_eq!(g.parts.request_enum.variants, vec![variant("GetValue", &[])]);
    assert_eq!(g.parts.response_enum.variants, vec![variant("GetValue", &["()"])]);
}

#[test]
fn dispatch_is_async_iff_a_handler_is() {
    let mixed = vec![signature("a", &[], None, false), signature("b", &[], None, true)];
    let sync = vec![signature("a", &[], None, false), signature("b", &[], None, false)];
    let p = FullHandlerParts::from(HandlerKind::Command, &mixed, "Commands", "CommandResponses", "handle_impl").unwrap();
    assert!(p.function.is_async);
    assert!(p.is_async);
    assert_eq!(p.function.arms.iter().map(|a| a.awaits).collect::<Vec<_>>(), vec![false, true]);
    let p = FullHandlerParts::from(HandlerKind::Command, &sync, "Commands", "CommandResponses", "handle_impl").unwrap();
    assert!(!p.function.is_async);
}

#[test]
fn one_request_and_one_response_variant_per_handler() {
    let sigs = vec![
        signature("first_one", &["u8"], None, false),
        signature("second", &[], Some("Result<u8, ()>"), false),
        signature("third_handler_name", &["u8", "u16", "u32"], None, false),
    ];
    let p = FullHandlerParts::from(HandlerKind::Query, &sigs, "Queries", "QueryResponses", "query_impl").unwrap();
    let req: Vec<_> = p.request_enum.variants.iter().map(|v| v.name.clone()).collect();
    let resp: Vec<_> = p.response_enum.variants.iter().map(|v| v.name.clone()).collect();
    assert_eq!(req, strings(&["FirstOne", "Second", "ThirdHandlerName"]));
    assert_eq!(req, resp);
    assert_eq!(p.function.arms[2].bindings, strings(&["v0", "v1", "v2"]));
    assert_eq!(p.request_enum.variants[2].fields, strings(&["u8", "u16", "u32"]));
}

#[test]
fn empty_set_is_refused_by_compiler() {
    assert_eq!(
        FullHandlerParts::from(HandlerKind::Query, &vec![], "Queries", "QueryResponses", "query_impl"),
        Err(GenerationError::EmptyHandlerSet { kind: HandlerKind::Query })
    );
}

#[test]
fn entry_point_delivery() {
    let sync = vec![signature("a", &[], None, false)];
    let p = FullHandlerParts::from(HandlerKind::Command, &sync, "Commands", "CommandResponses", "handle_impl").unwrap();
    let command = emit_entry_point(HandlerKind::Command, &p, "handle", "command").unwrap();
    assert_eq!(command.delivery(true), Delivery::Fault);
    assert_eq!(command.delivery(false), Delivery::Reply);
    let query = emit_entry_point(HandlerKind::Query, &p, "state", "query").unwrap();
    assert_eq!(query.delivery(true), Delivery::Reply);
    assert_eq!(query.delivery(false), Delivery::Reply);
}

#[test]
fn case_conversions() {
    assert_eq!(variant_name("do_this"), "DoThis");
    assert_eq!(variant_name("this"), "This");
    assert_eq!(get_scale_codec_crate_ident("CommandResponses"), "command_responses_scale_codec");
    assert_eq!(get_scale_info_crate_ident("Queries"), "queries_scale_info");
    assert_eq!(get_handlers_mod_ident("Commands"), "commands_handlers_wasm");
}
