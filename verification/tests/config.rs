use tauri_shim::build_stub::{build, error_message, try_build, AppManifest, Attributes, CodegenContext, InlinedPlugin, Error};
use tauri_shim::config::{bind_host, bind_port, parse_port};
use tauri_shim::{Config, Context, Error as ShimError};

#[test]
fn ports_parse_like_u16() {
    assert_eq!(parse_port("1421"), Some(1421));
    assert_eq!(parse_port("+80"), Some(80));
    assert_eq!(parse_port("0"), Some(0));
    assert_eq!(parse_port("65535"), Some(65535));
    assert_eq!(parse_port("65536"), None);
    assert_eq!(parse_port("99999999999"), None);
    assert_eq!(parse_port(""), None);
    assert_eq!(parse_port("+"), None);
    assert_eq!(parse_port("-1"), None);
    assert_eq!(parse_port(" 80"), None);
    assert_eq!(parse_port("8a"), None);
    for s in ["7", "+007", "65535", "12x", "70000", ""] {
        assert_eq!(parse_port(s), s.parse::<u16>().ok(), "{s}");
    }
}

#[test]
fn bind_defaults() {
    assert_eq!(bind_port(None), 1421);
    assert_eq!(bind_port(Some("nope")), 1421);
    assert_eq!(bind_port(Some("8080")), 8080);
    assert_eq!(bind_host(None), "127.0.0.1");
    assert_eq!(bind_host(Some("0.0.0.0".into())), "0.0.0.0");
}

#[test]
fn build_stubs_do_nothing() {
    build();
    let attrs = Attributes::new()
        .codegen(CodegenContext::new().dev())
        .plugin("x", InlinedPlugin::new())
        .app_manifest(AppManifest::new());
    assert!(try_build(attrs).is_ok());
    assert_eq!(error_message(&Error), "tauri-build (shim) error");
    let _ = Context::new().clone();
    let _ = Config::new().clone();
}

#[test]
fn error_messages_name_the_cause() {
    assert_eq!(ShimError::NoInvokeHandler.message(), "Builder::invoke_handler was never called");
    let io = std::io::Error::new(std::io::ErrorKind::Other, "boom");
    let e: ShimError = io.into();
    assert_eq!(e.message(), "i/o error: boom");
}
