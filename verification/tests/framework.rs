use errchain::error::CustomPayload;
use errchain::error::ErrorValue;
use errchain::error::ExternalError;
use errchain::error::IoPayload;
use errchain::error::Kind;
use errchain::error::ParsePayload;
use errchain::error::SourceContext;
use errchain::error::ValidationPayload;
use errchain::error::ID_CUSTOM;
use errchain::error::ID_IO;
use errchain::error::ID_PARSE;
use errchain::error::ID_VALIDATION;

fn io_terminal(message: &str) -> ErrorValue {
    ErrorValue::new(Kind::Io, message.to_string(), None, false)
}

#[test]
fn wrap_chain_root_and_line_count() {
    let mut e = io_terminal("disk gone");
    for i in 0..3 {
        e = ErrorValue::wrap(e, Kind::Custom, format!("layer {}", i), None);
    }
    assert_eq!(e.root_cause().kind(), Kind::Io);
    assert_eq!(e.root_cause().message(), "disk gone");
    assert_eq!(e.render_lines().len(), 4);
    assert_eq!(e.render().lines().count(), 4);
}

#[test]
fn terminal_is_its_own_root() {
    let e = io_terminal("alone");
    assert_eq!(e.root_cause().kind(), Kind::Io);
    assert_eq!(e.root_cause().message(), "alone");
    assert!(e.source().is_none());
    assert_eq!(e.render_lines().len(), 1);
    assert_eq!(e.render(), "io error: alone");
}

#[test]
fn clones_are_indistinguishable() {
    let chain = ErrorValue::wrap(
        io_terminal("root"),
        Kind::Parse,
        "outer".to_string(),
        Some(SourceContext { line: 2, column: 5 }),
    );
    let copy = chain.clone();
    assert_eq!(copy.render(), chain.render());
    assert_eq!(copy.kind(), chain.kind());
    assert_eq!(copy.payload_type_id(), chain.payload_type_id());
    assert_eq!(copy.context(), chain.context());
}

#[test]
fn downcast_follows_payload_identity() {
    let e = ErrorValue::new(Kind::Parse, "bad token".to_string(), None, false);
    assert_eq!(e.payload_type_id(), ID_PARSE);
    let p: Option<&ParsePayload> = e.downcast();
    assert_eq!(p.expect("parse payload").message, "bad token");
    let io: Option<&IoPayload> = e.downcast();
    assert!(io.is_none());
    let v: Option<&ValidationPayload> = e.downcast();
    assert!(v.is_none());
}

#[test]
fn downcast_custom_follows_stamped_identity() {
    let e = ErrorValue::new(Kind::Custom, "odd state".to_string(), None, false);
    assert_eq!(e.payload_type_id(), ID_CUSTOM);
    let c: Option<&CustomPayload> = e.downcast_custom(ID_CUSTOM);
    assert_eq!(c.expect("custom payload").message, "odd state");
    assert!(e.downcast_custom(99).is_none());
    // Identities reserved for the built-in shapes never match an opaque payload.
    assert!(e.downcast_custom(ID_IO).is_none());
}

#[test]
fn wrap_leaves_cause_independently_inspectable() {
    let cause = io_terminal("file not found");
    let copy = cause.clone();
    let wrapped = ErrorValue::wrap(cause, Kind::Validation, "config rejected".to_string(), None);
    let inner = wrapped.source().expect("wrapped error has a cause");
    assert_eq!(inner.render(), copy.render());
    assert_eq!(inner.kind(), copy.kind());
    assert_eq!(inner.message(), copy.message());
}

#[test]
fn backtrace_present_iff_captured_at_terminal() {
    let without = io_terminal("quiet failure");
    assert!(without.backtrace().is_none());
    assert!(!without.render().contains("backtrace:"));

    let with = ErrorValue::new(Kind::Io, "loud failure".to_string(), None, true);
    assert!(with.backtrace().is_some());
    assert!(with.render().contains("backtrace:"));

    // Wrapping captures no snapshot of its own and keeps the terminal's.
    let wrapped = ErrorValue::wrap(with, Kind::Custom, "context".to_string(), None);
    assert!(wrapped.backtrace().is_none());
    assert!(wrapped.render().contains("backtrace:"));
}

#[test]
fn scenario_three_link_chain() {
    let io = io_terminal("file not found");
    let parsing = ErrorValue::wrap(io, Kind::Parse, "while loading config".to_string(), None);
    let outer = ErrorValue::wrap(parsing, Kind::Custom, "startup failed".to_string(), None);

    let rendered = outer.render();
    assert_eq!(
        rendered,
        "error: startup failed\n\
         caused by: parse error: while loading config\n\
         caused by: io error: file not found"
    );
    assert_eq!(outer.root_cause().kind(), Kind::Io);
    let at_top: Option<&IoPayload> = outer.downcast();
    assert!(at_top.is_none());
    let at_root: Option<&IoPayload> = outer.root_cause().downcast();
    assert_eq!(at_root.expect("io payload at the root").message, "file not found");
}

#[test]
fn scenario_same_message_different_identity() {
    let first = ErrorValue::from_external(
        ExternalError {
            kind: Kind::Io,
            type_id: 21,
            message: "it broke".to_string(),
            context: None,
        },
        false,
    );
    let second = ErrorValue::from_external(
        ExternalError {
            kind: Kind::Io,
            type_id: 22,
            message: "it broke".to_string(),
            context: None,
        },
        false,
    );
    assert_eq!(first.message(), second.message());
    assert!(first.downcast_custom(22).is_none());
    assert!(second.downcast_custom(21).is_none());
    assert_eq!(first.downcast_custom(21).expect("own identity").message, "it broke");
    assert_eq!(second.downcast_custom(22).expect("own identity").message, "it broke");

    // The same holds between built-in shapes.
    let io = io_terminal("boom");
    let validation = ErrorValue::new(Kind::Validation, "boom".to_string(), None, false);
    let crossed: Option<&IoPayload> = validation.downcast();
    assert!(crossed.is_none());
    let crossed_back: Option<&ValidationPayload> = io.downcast();
    assert!(crossed_back.is_none());
}

fn layer_one(r: Result<u32, ErrorValue>) -> Result<u32, ErrorValue> {
    r
}

fn layer_two(r: Result<u32, ErrorValue>) -> Result<u32, ErrorValue> {
    layer_one(r)
}

fn layer_three(r: Result<u32, ErrorValue>) -> Result<u32, ErrorValue> {
    layer_two(r)
}

#[test]
fn scenario_pass_through_preserves_rendering() {
    let origin = ErrorValue::new(
        Kind::Parse,
        "stray comma".to_string(),
        Some(SourceContext { line: 3, column: 9 }),
        false,
    );
    let at_origin = origin.render();
    let propagated = layer_three(Err(origin)).expect_err("failure passes through");
    assert_eq!(propagated.render(), at_origin);
}

#[test]
fn parse_context_is_rendered() {
    let e = ErrorValue::new(
        Kind::Parse,
        "stray comma".to_string(),
        Some(SourceContext { line: 3, column: 9 }),
        false,
    );
    assert_eq!(e.render(), "parse error: stray comma (line 3, column 9)");
    assert_eq!(e.context(), Some(SourceContext { line: 3, column: 9 }));
}

#[test]
fn each_kind_has_its_label() {
    assert_eq!(io_terminal("a").render(), "io error: a");
    assert_eq!(
        ErrorValue::new(Kind::Parse, "b".to_string(), None, false).render(),
        "parse error: b"
    );
    assert_eq!(
        ErrorValue::new(Kind::Validation, "c".to_string(), None, false).render(),
        "validation error: c"
    );
    assert_eq!(
        ErrorValue::new(Kind::Custom, "d".to_string(), None, false).render(),
        "error: d"
    );
}

#[test]
fn external_error_keeps_kind_and_context() {
    let e = ErrorValue::from_external(
        ExternalError {
            kind: Kind::Parse,
            type_id: 33,
            message: "unexpected end of input".to_string(),
            context: Some(SourceContext { line: 12, column: 1 }),
        },
        false,
    );
    assert_eq!(e.kind(), Kind::Parse);
    assert_eq!(e.payload_type_id(), 33);
    assert_eq!(e.render(), "parse error: unexpected end of input (line 12, column 1)");
}

#[test]
fn source_walks_without_consuming() {
    let e = io_terminal("root");
    let w = ErrorValue::wrap(e, Kind::Custom, "outer".to_string(), None);
    assert!(w.source().is_some());
    assert!(w.source().unwrap().source().is_none());
    assert_eq!(w.source().unwrap().message(), "root");
    // The chain can be walked again; nothing was moved.
    assert_eq!(w.source().unwrap().message(), "root");
}

#[test]
fn builtin_identities_are_distinct() {
    assert_ne!(ID_IO, ID_PARSE);
    assert_ne!(ID_IO, ID_VALIDATION);
    assert_ne!(ID_IO, ID_CUSTOM);
    assert_ne!(ID_PARSE, ID_VALIDATION);
    assert_ne!(ID_PARSE, ID_CUSTOM);
    assert_ne!(ID_VALIDATION, ID_CUSTOM);
}
