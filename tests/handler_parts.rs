use gprogram_macros_core::error::HandlerKind;
use gprogram_macros_core::handlers::FullHandlerParts;
use gprogram_macros_core::naming::binding_name;
use gprogram_macros_core::handler_parts::{call_bindings, EnumVariant, HandlerParts, MatchArm};
use gprogram_macros_core::signature::{analyze_signature, FnParam, HandlerSignature};

fn strings(v: &[&str]) -> Vec<String> {
    v.iter().map(|s| s.to_string()).collect()
}

fn signature(name: &str, params: &[&str], output: Option<&str>, is_async: bool) -> HandlerSignature {
    HandlerSignature {
        name: name.to_string(),
        inputs: params.iter().map(|p| FnParam::Typed(p.to_string())).collect(),
        output: output.map(|o| o.to_string()),
        is_async,
    }
}

fn parts_of(sig: &HandlerSignature) -> HandlerParts {
    HandlerParts::from(&analyze_signature(sig).unwrap())
}

/// The compiled one-handler command set, which carries the union names
/// that qualify the dispatch arm.
fn command_set_of(sig: HandlerSignature) -> FullHandlerParts {
    FullHandlerParts::from(HandlerKind::Command, &vec![sig], "Commands", "CommandResponses", "handle_impl").unwrap()
}

fn check_default_return_type(parts: &HandlerParts, set: &FullHandlerParts) {
    assert_eq!(parts.request_enum_variant, EnumVariant { name: "DoThis".to_string(), fields: strings(&["u32", "String"]) });
    assert_eq!(parts.response_enum_variant, EnumVariant { name: "DoThis".to_string(), fields: strings(&["()"]) });
    assert_eq!(
        parts.call_match_arm,
        MatchArm { variant: "DoThis".to_string(), bindings: strings(&["v0", "v1"]), handler: "do_this".to_string(), awaits: false }
    );
    assert_eq!(set.function.request_enum, "Commands");
    assert_eq!(set.function.response_enum, "CommandResponses");
    assert_eq!(set.function.arms[0], parts.call_match_arm);
    assert_eq!(false, parts.is_async);
}

fn check_without_args(parts: &HandlerParts, set: &FullHandlerParts) {
    assert_eq!(parts.request_enum_variant, EnumVariant { name: "DoThis".to_string(), fields: vec![] });
    assert_eq!(parts.response_enum_variant, EnumVariant { name: "DoThis".to_string(), fields: strings(&["()"]) });
    assert_eq!(
        parts.call_match_arm,
        MatchArm { variant: "DoThis".to_string(), bindings: vec![], handler: "do_this".to_string(), awaits: false }
    );
    assert_eq!(set.function.request_enum, "Commands");
    assert_eq!(set.function.response_enum, "CommandResponses");
    assert_eq!(set.function.arms[0], parts.call_match_arm);
    assert_eq!(false, parts.is_async);
}

fn check_async(parts: &HandlerParts, set: &FullHandlerParts) {
    assert_eq!(parts.request_enum_variant, EnumVariant { name: "DoThis".to_string(), fields: strings(&["(u32, u8)"]) });
    assert_eq!(parts.response_enum_variant, EnumVariant { name: "DoThis".to_string(), fields: strings(&["()"]) });
    assert_eq!(
        parts.call_match_arm,
        MatchArm { variant: "DoThis".to_string(), bindings: strings(&["v0"]), handler: "do_this".to_string(), awaits: true }
    );
    assert_eq!(set.function.request_enum, "Commands");
    assert_eq!(set.function.response_enum, "CommandResponses");
    assert_eq!(set.function.arms[0], parts.call_match_arm);
    assert_eq!(true, parts.is_async);
}

#[test]
fn sub_handler_parts_works_for_func_with_default_return_type() {
    let sig = signature("do_this", &["u32", "String"], None, false);
    check_default_return_type(&parts_of(&sig), &command_set_of(sig.clone()));
}

#[test]
fn sub_handler_parts_works_for_func_without_args() {
    let sig = signature("do_this", &[], None, false);
    check_without_args(&parts_of(&sig), &command_set_of(sig.clone()));
}

#[test]
fn sub_handler_parts_works_for_async_func() {
    let sig = signature("do_this", &["(u32, u8)"], None, true);
    check_async(&parts_of(&sig), &command_set_of(sig.clone()));
}

#[test]
fn handler_parts_from_works_for_func_with_default_return_type() {
    let sig = signature("do_this", &["u32", "String"], None, false);
    check_default_return_type(&parts_of(&sig), &command_set_of(sig.clone()));
}

#[test]
fn handler_parts_from_works_for_func_without_args() {
    let sig = signature("do_this", &[], None, false);
    check_without_args(&parts_of(&sig), &command_set_of(sig.clone()));
}

#[test]
fn handler_parts_from_works_for_async_func() {
    let sig = signature("do_this", &["(u32, u8)"], None, true);
    check_async(&parts_of(&sig), &command_set_of(sig.clone()));
}

#[test]
fn declared_outcome_type_is_wrapped_whole() {
    let sig = signature("do_this", &["u32", "String"], Some("Result<(String, u32), String>"), false);
    let parts = parts_of(&sig);
    assert_eq!(parts.request_enum_variant.fields, strings(&["u32", "String"]));
    assert_eq!(parts.response_enum_variant.fields, strings(&["Result<(String, u32), String>"]));
}

#[test]
fn bindings_are_numbered_from_zero() {
    assert_eq!(call_bindings(0), Vec::<String>::new());
    assert_eq!(call_bindings(12), strings(&["v0", "v1", "v2", "v3", "v4", "v5", "v6", "v7", "v8", "v9", "v10", "v11"]));
}

#[test]
fn binding_names_spell_the_position() {
    assert_eq!(binding_name(0), "v0");
    assert_eq!(binding_name(7), "v7");
    assert_eq!(binding_name(305), "v305");
}
