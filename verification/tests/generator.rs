//! Tests of the generator side: marker parsing, artifact naming, and
//! module assembly.

use firmware_controller::assemble::controller;
use firmware_controller::assemble::expand_module;
use firmware_controller::assemble::ImplDef;
use firmware_controller::assemble::Item;
use firmware_controller::assemble::ModuleDef;
use firmware_controller::assemble::OpDef;
use firmware_controller::errors::Error;
use firmware_controller::expand::expand;
use firmware_controller::expand::generate_publish_code;
use firmware_controller::expand::payload_shape;
use firmware_controller::expand::select_strategy;
use firmware_controller::expand::FieldDef;
use firmware_controller::expand::PayloadShape;
use firmware_controller::expand::Strategy;
use firmware_controller::expand::StructDef;
use firmware_controller::markers::parse_controller_attrs;
use firmware_controller::markers::Marker;
use firmware_controller::names::check_identifier;
use firmware_controller::names::pascal_to_snake_case;
use firmware_controller::names::snake_to_pascal_case;
use firmware_controller::names::to_ascii_upper;

fn bare(name: &str) -> Marker {
    Marker { name: String::from(name), eq_arg: None, paren_args: vec![] }
}

fn with_eq(name: &str, arg: &str) -> Marker {
    Marker { name: String::from(name), eq_arg: Some(String::from(arg)), paren_args: vec![] }
}

fn with_paren(name: &str, args: &[&str]) -> Marker {
    Marker {
        name: String::from(name),
        eq_arg: None,
        paren_args: args.iter().map(|a| String::from(*a)).collect(),
    }
}

fn field(name: &str, ty: &str, markers: Vec<Marker>) -> FieldDef {
    FieldDef { name: String::from(name), ty: String::from(ty), markers }
}

fn state_struct(name: &str, fields: Vec<FieldDef>) -> StructDef {
    StructDef { name: String::from(name), named: true, fields }
}

fn op(name: &str, is_signal: bool) -> OpDef {
    OpDef { name: String::from(name), is_signal }
}

#[test]
fn test_case_conversions() {
    assert_eq!(to_ascii_upper("state"), "STATE");
    assert_eq!(to_ascii_upper("Mixed_09z"), "MIXED_09Z");
    assert_eq!(pascal_to_snake_case("Controller"), "controller");
    assert_eq!(pascal_to_snake_case("MyController"), "my_controller");
    assert_eq!(snake_to_pascal_case("state"), "State");
    assert_eq!(snake_to_pascal_case("error_count"), "ErrorCount");
    assert_eq!(snake_to_pascal_case("_leading"), "Leading");
}

#[test]
fn test_check_identifier() {
    assert!(check_identifier("state"));
    assert!(check_identifier("_x9"));
    assert!(check_identifier("Get_Current_State"));
    assert!(!check_identifier(""));
    assert!(!check_identifier("9lives"));
    assert!(!check_identifier("has space"));
    assert!(!check_identifier("dash-ed"));
}

#[test]
fn test_strategy_is_latest_value() {
    let s = select_strategy();
    assert_eq!(s, Strategy::LatestValue);
    assert_eq!(payload_shape(s), PayloadShape::BareValue);
    assert_eq!(payload_shape(Strategy::BroadcastHistory), PayloadShape::BeforeAfterPair);
}

#[test]
fn test_publish_artifact_names() {
    let art = generate_publish_code("Controller", "state");
    assert_eq!(art.field_name, "state");
    assert_eq!(art.channel_name, "CONTROLLER_STATE_WATCH");
    assert_eq!(art.sender_name, "state_sender");
    assert_eq!(art.setter_name, "set_state");
    assert_eq!(art.subscriber_struct_name, "ControllerState");
    assert_eq!(art.strategy, Strategy::LatestValue);
    assert_eq!(art.payload, PayloadShape::BareValue);
    assert_eq!(art.max_subscribers, 16);
}

#[test]
fn test_publish_artifact_names_multiword() {
    let art = generate_publish_code("MyController", "error_count");
    assert_eq!(art.channel_name, "MY_CONTROLLER_ERROR_COUNT_WATCH");
    assert_eq!(art.subscriber_struct_name, "MyControllerErrorCount");
    assert_eq!(art.sender_name, "error_count_sender");
    assert_eq!(art.setter_name, "set_error_count");
}

#[test]
fn test_parse_bare_field() {
    let attrs = parse_controller_attrs("counter", &vec![]).unwrap();
    assert!(!attrs.publish);
    assert!(!attrs.pub_setter);
    assert!(attrs.getter_name.is_none());
    assert!(attrs.setter_name.is_none());
}

#[test]
fn test_parse_publish_getter_setter() {
    let markers = vec![
        bare("publish"),
        with_eq("getter", "get_current_state"),
        with_eq("setter", "change_state"),
    ];
    let attrs = parse_controller_attrs("state", &markers).unwrap();
    assert!(attrs.publish);
    assert!(!attrs.pub_setter);
    assert_eq!(attrs.getter_name.as_deref(), Some("get_current_state"));
    assert_eq!(attrs.setter_name.as_deref(), Some("change_state"));
}

#[test]
fn test_parse_defaults() {
    let markers = vec![bare("getter"), bare("setter")];
    let attrs = parse_controller_attrs("mode", &markers).unwrap();
    assert_eq!(attrs.getter_name.as_deref(), Some("mode"));
    assert_eq!(attrs.setter_name.as_deref(), Some("set_mode"));
}

#[test]
fn test_parse_publish_pub_setter() {
    let markers = vec![with_paren("publish", &["pub_setter"])];
    let attrs = parse_controller_attrs("mode", &markers).unwrap();
    assert!(attrs.publish);
    assert!(attrs.pub_setter);
}

#[test]
fn test_unknown_marker_named_in_error() {
    let markers = vec![bare("publsh")];
    let err = parse_controller_attrs("state", &markers).unwrap_err();
    assert_eq!(err, Error::UnknownMarker { found: String::from("publsh") });
}

#[test]
fn test_unknown_publish_arg_named_in_error() {
    let markers = vec![with_paren("publish", &["pub_settr"])];
    let err = parse_controller_attrs("state", &markers).unwrap_err();
    assert_eq!(err, Error::UnknownPublishArg { found: String::from("pub_settr") });
}

#[test]
fn test_malformed_markers() {
    let err = parse_controller_attrs("state", &vec![with_eq("publish", "x")]).unwrap_err();
    assert_eq!(err, Error::MalformedMarker { marker: String::from("publish") });
    let err = parse_controller_attrs("state", &vec![with_paren("getter", &["x"])]).unwrap_err();
    assert_eq!(err, Error::MalformedMarker { marker: String::from("getter") });
}

#[test]
fn test_non_identifier_accessor_name() {
    let err = parse_controller_attrs("state", &vec![with_eq("getter", "not valid")]).unwrap_err();
    assert_eq!(err, Error::InvalidIdent { found: String::from("not valid") });
}

#[test]
fn test_first_offending_marker_wins() {
    let markers = vec![bare("publsh"), with_eq("getter", "not valid")];
    let err = parse_controller_attrs("state", &markers).unwrap_err();
    assert_eq!(err, Error::UnknownMarker { found: String::from("publsh") });
}

#[test]
fn test_expand_struct() {
    let sd = state_struct(
        "Controller",
        vec![
            field("state", "State", vec![
                bare("publish"),
                with_eq("getter", "get_current_state"),
                with_eq("setter", "change_state"),
            ]),
            field("mode", "Mode", vec![with_paren("publish", &["pub_setter"]), bare("getter")]),
            field("counter", "u32", vec![bare("setter")]),
        ],
    );
    let ex = expand(&sd).unwrap();
    assert_eq!(ex.struct_name, "Controller");

    assert_eq!(ex.raw_fields.len(), 3);
    assert_eq!(ex.raw_fields[0].name, "state");
    assert_eq!(ex.raw_fields[2].ty, "u32");

    assert_eq!(ex.published_fields.len(), 2);
    assert_eq!(ex.published_fields[0].channel_name, "CONTROLLER_STATE_WATCH");
    assert_eq!(ex.published_fields[1].channel_name, "CONTROLLER_MODE_WATCH");
    assert_eq!(ex.published_fields[1].subscriber_struct_name, "ControllerMode");

    assert_eq!(ex.getter_fields.len(), 2);
    assert_eq!(ex.getter_fields[0].getter_name, "get_current_state");
    assert_eq!(ex.getter_fields[1].getter_name, "mode");

    assert_eq!(ex.setter_fields.len(), 3);
    // Custom public name on a published field still routes through the
    // mutate-and-publish accessor.
    assert_eq!(ex.setter_fields[0].setter_name, "change_state");
    assert_eq!(ex.setter_fields[0].internal_setter_name.as_deref(), Some("set_state"));
    // A pub_setter request defaults the public name.
    assert_eq!(ex.setter_fields[1].setter_name, "set_mode");
    assert_eq!(ex.setter_fields[1].internal_setter_name.as_deref(), Some("set_mode"));
    // An unpublished field's setter writes directly.
    assert_eq!(ex.setter_fields[2].setter_name, "set_counter");
    assert_eq!(ex.setter_fields[2].internal_setter_name, None);
}

#[test]
fn test_expand_rejects_unnamed_fields() {
    let sd = StructDef { name: String::from("Controller"), named: false, fields: vec![] };
    assert_eq!(expand(&sd).unwrap_err(), Error::UnnamedFields);
}

#[test]
fn test_published_descriptors() {
    let sd = state_struct(
        "Controller",
        vec![field("state", "State", vec![bare("publish")]), field("counter", "u32", vec![])],
    );
    let ex = expand(&sd).unwrap();
    let descs = ex.published_descriptors();
    assert_eq!(descs.len(), 1);
    assert_eq!(descs[0].field_name, "state");
    assert_eq!(descs[0].subscriber_struct_name, "ControllerState");
}

fn controller_module() -> ModuleDef {
    ModuleDef {
        name: String::from("test_controller"),
        content: Some(vec![
            Item::Other(String::from("use super::*;")),
            Item::Struct(state_struct(
                "Controller",
                vec![field("state", "State", vec![bare("publish")])],
            )),
            Item::Impl(ImplDef {
                self_ty: String::from("Controller"),
                ops: vec![
                    op("error_occurred", true),
                    op("operation_complete", true),
                    op("increment", false),
                ],
            }),
        ]),
    }
}

#[test]
fn test_expand_module_matching_names_succeed() {
    let module = controller_module();
    let generated = expand_module(&module).unwrap();
    assert_eq!(generated.module_name, "test_controller");
    assert_eq!(generated.expanded.struct_name, "Controller");
    assert_eq!(generated.passthrough.len(), 1);
    assert_eq!(generated.passthrough[0], "use super::*;");
    assert_eq!(generated.signals.len(), 2);
    assert_eq!(generated.signals[0].op_name, "error_occurred");
    assert_eq!(generated.signals[0].channel_name, "CONTROLLER_ERROR_OCCURRED_WATCH");
    assert_eq!(generated.signals[0].subscriber_struct_name, "ControllerErrorOccurred");
    assert_eq!(generated.signals[0].capacity, 8);
    assert_eq!(generated.signals[1].op_name, "operation_complete");
}

#[test]
fn test_controller_entry_point() {
    let module = controller_module();
    let generated = controller(&module).unwrap();
    assert_eq!(generated.expanded.published_fields.len(), 1);
    assert_eq!(generated.expanded.published_fields[0].channel_name, "CONTROLLER_STATE_WATCH");
}

#[test]
fn test_module_with_two_state_defs_fails() {
    let module = ModuleDef {
        name: String::from("m"),
        content: Some(vec![
            Item::Struct(state_struct("Controller", vec![])),
            Item::Struct(state_struct("Other", vec![])),
        ]),
    };
    assert_eq!(expand_module(&module).unwrap_err(), Error::MultipleStructDefs);
}

#[test]
fn test_module_with_two_op_sets_fails() {
    let module = ModuleDef {
        name: String::from("m"),
        content: Some(vec![
            Item::Impl(ImplDef { self_ty: String::from("Controller"), ops: vec![] }),
            Item::Impl(ImplDef { self_ty: String::from("Controller"), ops: vec![] }),
        ]),
    };
    assert_eq!(expand_module(&module).unwrap_err(), Error::MultipleOpSets);
}

#[test]
fn test_module_missing_parts() {
    let no_body = ModuleDef { name: String::from("m"), content: None };
    assert_eq!(expand_module(&no_body).unwrap_err(), Error::NoModuleBody);

    let no_struct = ModuleDef {
        name: String::from("m"),
        content: Some(vec![Item::Impl(ImplDef {
            self_ty: String::from("Controller"),
            ops: vec![],
        })]),
    };
    assert_eq!(expand_module(&no_struct).unwrap_err(), Error::MissingStructDef);

    let no_impl = ModuleDef {
        name: String::from("m"),
        content: Some(vec![Item::Struct(state_struct("Controller", vec![]))]),
    };
    assert_eq!(expand_module(&no_impl).unwrap_err(), Error::MissingOpSet);
}

#[test]
fn test_module_name_mismatch_fails() {
    let module = ModuleDef {
        name: String::from("m"),
        content: Some(vec![
            Item::Struct(state_struct("Controller", vec![])),
            Item::Impl(ImplDef { self_ty: String::from("Widget"), ops: vec![] }),
        ]),
    };
    assert_eq!(
        expand_module(&module).unwrap_err(),
        Error::NameMismatch {
            op_set_name: String::from("Widget"),
            struct_name: String::from("Controller"),
        }
    );
}

#[test]
fn test_module_marker_error_surfaces() {
    let module = ModuleDef {
        name: String::from("m"),
        content: Some(vec![
            Item::Struct(state_struct(
                "Controller",
                vec![field("state", "State", vec![bare("publsh")])],
            )),
            Item::Impl(ImplDef { self_ty: String::from("Controller"), ops: vec![] }),
        ]),
    };
    assert_eq!(
        expand_module(&module).unwrap_err(),
        Error::UnknownMarker { found: String::from("publsh") }
    );
}
