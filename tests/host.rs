use proc_macro_host::artifact::{artifact_location, path_child, PROC_MACRO_BUILD_PROFILE};
use proc_macro_host::builder::{ProceduralMacroCompiler, ProcessOutcome};
use proc_macro_host::builtin::BuiltinStarkNetPlugin;
use proc_macro_host::error::{BuildFailure, ExtensionError};
use proc_macro_host::extension::{ExtensionRegistry, LoadedExtension};
use proc_macro_host::interface::{
    supported_versions, InterfaceVersion, LoadAction, LoadEvent, LoadSession, LoadState,
};
use proc_macro_host::package::ExtensionPackage;
use proc_macro_host::wire::{ProcMacroResult, TokenStream, WireExpansionResult, WireTokenStream};

fn package(name: &str, version: &str, origin: &str, root: &str) -> ExtensionPackage {
    ExtensionPackage::new(name.to_string(), version.to_string(), origin.to_string(), root.to_string())
        .unwrap()
}

fn ready_extension(path: &str) -> LoadedExtension {
    let mut session = LoadSession::start(path.to_string());
    session = session.step(LoadEvent::PathChecked { exists: true });
    session = session.step(LoadEvent::Opened { failure: None });
    session = session.step(LoadEvent::SymbolResolved { failure: None });
    LoadedExtension::from_session(session).unwrap()
}

fn identity_stub(input: WireTokenStream) -> WireExpansionResult {
    WireExpansionResult::Replace { token_stream: input }
}

#[test]
fn path_child_inserts_one_separator() {
    assert_eq!(path_child("/a", "b"), "/a/b");
    assert_eq!(path_child("/a/", "b"), "/a/b");
    assert_eq!(path_child("", "b"), "b");
}

#[test]
fn package_ident_joins_name_and_origin() {
    assert_eq!(package("hello", "1.0.0", "x1y2", "/src").ident(), "hello-x1y2");
}

#[test]
fn shared_lib_path_follows_the_layout() {
    let p = package("hello", "1.0.0", "x1y2", "/src/hello");
    assert_eq!(p.target_dir("/cache/plugins"), "/cache/plugins/hello-x1y2/target");
    assert_eq!(
        p.shared_lib_path("/cache/plugins"),
        "/cache/plugins/hello-x1y2/target/release/libhello.so"
    );
    assert_eq!(PROC_MACRO_BUILD_PROFILE, "release");
}

#[test]
fn shared_lib_path_is_stable_across_calls_and_versions() {
    let a = package("hello", "1.0.0", "x1y2", "/src/a");
    let b = package("hello", "2.3.0", "x1y2", "/elsewhere");
    assert_eq!(a.shared_lib_path("/cache"), a.shared_lib_path("/cache"));
    assert_eq!(a.shared_lib_path("/cache"), b.shared_lib_path("/cache"));
    let c = package("hello", "1.0.0", "other", "/src/a");
    assert_ne!(a.shared_lib_path("/cache"), c.shared_lib_path("/cache"));
}

#[test]
fn artifact_path_for_uses_the_given_file_name() {
    let p = package("m", "0.1.0", "o", "/r");
    assert_eq!(p.artifact_path_for("/b", "m.dll"), "/b/m-o/target/release/m.dll");
}

#[test]
fn artifact_location_prefers_the_override() {
    let p = package("m", "0.1.0", "o", "/r");
    assert_eq!(artifact_location(Some("/tmp/libstub.so".to_string()), &p, "/b"), "/tmp/libstub.so");
    assert_eq!(artifact_location(None, &p, "/b"), "/b/m-o/target/release/libm.so");
}

#[test]
fn build_command_is_a_release_build_into_the_target_dir() {
    let p = package("hello", "1.0.0", "x1y2", "/src/hello");
    let cmd = ProceduralMacroCompiler::build_command("/src/hello", &p, "/cache");
    assert_eq!(cmd.program, "cargo");
    assert_eq!(cmd.cwd, "/src/hello");
    assert_eq!(cmd.args, vec!["build", "--release", "--target-dir", "/cache/hello-x1y2/target"]);
    assert_eq!(
        cmd.command_line(),
        "cargo build --release --target-dir /cache/hello-x1y2/target"
    );
}

#[test]
fn build_succeeds_only_on_exit_code_zero() {
    let p = package("hello", "1.0.0", "x1y2", "/src/hello");
    let cmd = ProceduralMacroCompiler::build_command("/src/hello", &p, "/cache");
    assert!(ProceduralMacroCompiler::finish(&cmd, ProcessOutcome::Exited { code: Some(0) }).is_ok());
    match ProceduralMacroCompiler::finish(&cmd, ProcessOutcome::Exited { code: None }) {
        Err(ExtensionError::Build { failure: BuildFailure::Exited { code: None }, .. }) => {}
        other => panic!("unexpected {:?}", other),
    }
}

#[test]
fn failed_build_reports_the_command() {
    let p = package("broken", "1.0.0", "o", "/no/manifest/here");
    let cmd = ProceduralMacroCompiler::build_command("/no/manifest/here", &p, "/cache");
    match ProceduralMacroCompiler::finish(&cmd, ProcessOutcome::Exited { code: Some(101) }) {
        Err(e @ ExtensionError::Build { .. }) => {
            match &e {
                ExtensionError::Build { command, failure } => {
                    assert_eq!(command, "cargo build --release --target-dir /cache/broken-o/target");
                    assert!(matches!(failure, BuildFailure::Exited { code: Some(101) }));
                }
                _ => unreachable!(),
            }
            assert_eq!(
                e.message(),
                "failed to compile procedural macro plugin: cargo build --release --target-dir /cache/broken-o/target"
            );
        }
        other => panic!("unexpected {:?}", other),
    }
}

#[test]
fn unstartable_build_reports_the_command_and_reason() {
    let p = package("m", "1.0.0", "o", "/r");
    let cmd = ProceduralMacroCompiler::build_command("/r", &p, "/c");
    let outcome = ProcessOutcome::SpawnFailed { reason: "not found".to_string() };
    let e = ProceduralMacroCompiler::finish(&cmd, outcome).unwrap_err();
    assert_eq!(
        e.message(),
        "failed to execute cargo build --release --target-dir /c/m-o/target: not found"
    );
}

#[test]
fn target_kind_is_cairo_plugin() {
    assert_eq!(ProceduralMacroCompiler.target_kind(), "cairo-plugin");
}

#[test]
fn builtin_starknet_plugin_id() {
    let id = BuiltinStarkNetPlugin.id("2.5.0");
    assert_eq!(id.name, "starknet");
    assert_eq!(id.version, "2.5.0");
    assert_eq!(id.source_id, "std");
}

#[test]
fn interface_version_zero_requires_only_expand() {
    assert_eq!(supported_versions(), vec![InterfaceVersion::V0]);
    assert_eq!(InterfaceVersion::V0.required_symbols(), vec!["expand".to_string()]);
}

#[test]
fn session_asks_for_each_step_in_order() {
    let mut s = LoadSession::start("/lib/libm.so".to_string());
    assert!(matches!(s.action(), LoadAction::CheckPath));
    s = s.step(LoadEvent::PathChecked { exists: true });
    assert!(matches!(s.action(), LoadAction::Open));
    s = s.step(LoadEvent::Opened { failure: None });
    match s.action() {
        LoadAction::Resolve { symbol } => assert_eq!(symbol, "expand"),
        other => panic!("unexpected {:?}", other),
    }
    assert!(!s.is_finished());
    s = s.step(LoadEvent::SymbolResolved { failure: None });
    assert!(s.is_finished());
    assert!(matches!(s.state, LoadState::Ready { version: InterfaceVersion::V0 }));
    assert!(matches!(s.action(), LoadAction::Finished));
}

#[test]
fn missing_path_is_artifact_not_found() {
    let s = LoadSession::start("/nowhere/libm.so".to_string());
    let s = s.step(LoadEvent::PathChecked { exists: false });
    match LoadedExtension::from_session(s) {
        Err(ExtensionError::ArtifactNotFound { path }) => assert_eq!(path, "/nowhere/libm.so"),
        other => panic!("unexpected {:?}", other),
    }
}

#[test]
fn open_failure_is_load_error() {
    let s = LoadSession::start("/lib/libm.so".to_string());
    let s = s.step(LoadEvent::PathChecked { exists: true });
    let s = s.step(LoadEvent::Opened { failure: Some("invalid ELF header".to_string()) });
    let e = LoadedExtension::from_session(s).unwrap_err();
    assert_eq!(e.message(), "failed to open shared library /lib/libm.so: invalid ELF header");
}

#[test]
fn missing_expand_is_interface_resolution_error() {
    let s = LoadSession::start("/lib/libm.so".to_string());
    let s = s.step(LoadEvent::PathChecked { exists: true });
    let s = s.step(LoadEvent::Opened { failure: None });
    let s = s.step(LoadEvent::SymbolResolved { failure: Some("undefined symbol".to_string()) });
    match LoadedExtension::from_session(s) {
        Err(ExtensionError::InterfaceResolution { path, symbol, reason }) => {
            assert_eq!(path, "/lib/libm.so");
            assert_eq!(symbol, "expand");
            assert_eq!(reason, "undefined symbol");
        }
        other => panic!("unexpected {:?}", other),
    }
}

#[test]
fn event_out_of_turn_changes_nothing() {
    let s = LoadSession::start("/lib/libm.so".to_string());
    let s = s.step(LoadEvent::Opened { failure: None });
    assert!(matches!(s.state, LoadState::CheckingPath));
    assert_eq!(s.path, "/lib/libm.so");
}

#[test]
fn loaded_identity_extension_round_trips() {
    let ext = ready_extension("/lib/libstub.so");
    assert_eq!(ext.path(), "/lib/libstub.so");
    assert_eq!(ext.version(), InterfaceVersion::V0);
    let inst = ext.instantiate();
    let call = inst.prepare_call(TokenStream::new("fn f() {}".to_string()));
    assert_eq!(call.symbol, "expand");
    assert_eq!(call.input.bytes, b"fn f() {}".to_vec());
    match inst.finish_call(identity_stub(call.input)) {
        Some(ProcMacroResult::Replace { token_stream }) => assert_eq!(token_stream.value, "fn f() {}"),
        other => panic!("unexpected {:?}", other),
    }
}

#[test]
fn two_instances_agree() {
    let ext = ready_extension("/lib/libstub.so");
    let a = ext.instantiate();
    let b = ext.instantiate();
    assert_eq!(a.path(), b.path());
    let ca = a.prepare_call(TokenStream::new("fn g(x: felt252) {}".to_string()));
    let cb = b.prepare_call(TokenStream::new("fn g(x: felt252) {}".to_string()));
    assert_eq!(ca.symbol, cb.symbol);
    assert_eq!(ca.input.bytes, cb.input.bytes);
    let ra = a.finish_call(identity_stub(ca.input));
    let rb = b.finish_call(identity_stub(cb.input));
    match (ra, rb) {
        (Some(ProcMacroResult::Replace { token_stream: x }), Some(ProcMacroResult::Replace { token_stream: y })) => {
            assert_eq!(x.value, y.value);
            assert_eq!(x.value, "fn g(x: felt252) {}");
        }
        other => panic!("unexpected {:?}", other),
    }
}

#[test]
fn wire_keeps_comments_and_whitespace() {
    let text = "// doc\n#[inline]\nfn  f( )\t{ /* é */ }\n\n";
    let wire = WireTokenStream::from_token_stream(TokenStream::new(text.to_string()));
    assert_eq!(wire.bytes, text.as_bytes().to_vec());
    let back = wire.into_token_stream().unwrap();
    assert_eq!(back.value, text);
}

#[test]
fn wire_rejects_bytes_that_are_not_utf8() {
    let wire = WireTokenStream { bytes: vec![0x66, 0xff, 0x6e] };
    assert!(wire.into_token_stream().is_none());
    let r = WireExpansionResult::Replace { token_stream: WireTokenStream { bytes: vec![0xc3] } };
    assert!(r.into_proc_macro_result().is_none());
}

#[test]
fn leave_and_remove_cross_unchanged() {
    assert!(matches!(
        WireExpansionResult::from_proc_macro_result(ProcMacroResult::Leave).into_proc_macro_result(),
        Some(ProcMacroResult::Leave)
    ));
    assert!(matches!(
        WireExpansionResult::from_proc_macro_result(ProcMacroResult::Remove).into_proc_macro_result(),
        Some(ProcMacroResult::Remove)
    ));
}

#[test]
fn missing_artifact_message_suggests_a_build() {
    let e = ExtensionError::ArtifactNotFound { path: "/x/libm.so".to_string() };
    assert_eq!(e.message(), "shared library not found at /x/libm.so (was the extension built?)");
    let e = ExtensionError::InterfaceResolution {
        path: "/x/libm.so".to_string(),
        symbol: "expand".to_string(),
        reason: "undefined symbol".to_string(),
    };
    assert_eq!(e.message(), "shared library /x/libm.so does not export expand: undefined symbol");
}

#[test]
fn builtin_test_plugin_id_names_the_test_plugin() {
    let id = proc_macro_host::builtin::builtin_test_plugin_id("2.6.1");
    assert_eq!(id.name, "test_plugin");
    assert_eq!(id.version, "2.6.1");
    assert_eq!(id.source_id, "std");
}

#[test]
fn package_names_with_dash_or_slash_are_refused() {
    let p = |n: &str, o: &str| {
        ExtensionPackage::new(n.to_string(), "1.0.0".to_string(), o.to_string(), "/r".to_string())
    };
    assert!(p("a-b", "c").is_none());
    assert!(p("a/b", "c").is_none());
    assert!(p("", "c").is_none());
    assert!(p("a", "b/c").is_none());
    let ok = p("a", "b-c").unwrap();
    assert!(ok.is_valid());
    assert_eq!(ok.target_dir("/root"), "/root/a-b-c/target");
}

#[test]
fn different_packages_get_different_directories() {
    let a = package("a", "1.0.0", "bc", "/r");
    let b = package("ab", "1.0.0", "c", "/r");
    assert_ne!(a.target_dir("/root"), b.target_dir("/root"));
    assert_ne!(a.shared_lib_path("/root"), b.shared_lib_path("/root"));
}

#[test]
fn registry_keeps_one_extension_per_path() {
    let mut reg = ExtensionRegistry::new();
    assert_eq!(reg.len(), 0);
    assert_eq!(reg.find("/lib/liba.so"), None);
    assert_eq!(reg.register(ready_extension("/lib/liba.so")), 0);
    assert_eq!(reg.register(ready_extension("/lib/libb.so")), 1);
    assert_eq!(reg.register(ready_extension("/lib/liba.so")), 0);
    assert_eq!(reg.len(), 2);
    assert_eq!(reg.find("/lib/libb.so"), Some(1));
    assert_eq!(reg.get(1).path(), "/lib/libb.so");
    assert_eq!(reg.get(0).instantiate().path(), "/lib/liba.so");
}
