use galena::cli::{
    after_wasm_compile, after_wasm_link, build_backend, build_backend_cmd, build_wasm_obj_cmd,
    link_wasm_cmd, should_rebuild, wasm_bindgen_cmd, watch_files, BuildOutcome, CommandLine,
    WasmStep, WatchAction, WatchEvent, DEBOUNCE_MS, DEBOUNCE_NANOS,
};

fn strings(items: &[&str]) -> Vec<String> {
    items.iter().map(|s| s.to_string()).collect()
}

#[test]
fn exit_status_of_a_build() {
    assert_eq!(build_backend(true, Some(0)), BuildOutcome::Succeeded);
    assert_eq!(build_backend(false, Some(2)), BuildOutcome::CompletedWithWarnings);
    assert_eq!(build_backend(false, Some(1)), BuildOutcome::Failed);
    assert_eq!(build_backend(false, Some(-2)), BuildOutcome::Failed);
    assert_eq!(build_backend(false, None), BuildOutcome::Failed);
}

#[test]
fn steps_of_the_wasm_build() {
    assert_eq!(after_wasm_compile(true, Some(0)), WasmStep::Link);
    assert_eq!(after_wasm_compile(false, Some(2)), WasmStep::Done);
    assert_eq!(after_wasm_compile(false, Some(3)), WasmStep::Fail);
    assert_eq!(after_wasm_compile(false, None), WasmStep::Fail);
    assert_eq!(after_wasm_link(Some(0)), WasmStep::Bindgen);
    assert_eq!(after_wasm_link(Some(2)), WasmStep::Fail);
    assert_eq!(after_wasm_link(None), WasmStep::Fail);
}

#[test]
fn rebuilds_are_debounced() {
    assert_eq!(DEBOUNCE_MS, 100);
    assert_eq!(DEBOUNCE_NANOS, 100_000_000);
    assert!(!should_rebuild(0));
    assert!(!should_rebuild(100_000_000));
    assert!(should_rebuild(100_000_001));
}

#[test]
fn watch_loop_decisions() {
    assert_eq!(
        watch_files(WatchEvent::Changed { nanos_since_last_rebuild: 5_000_000_000 }),
        WatchAction::Rebuild
    );
    assert_eq!(
        watch_files(WatchEvent::Changed { nanos_since_last_rebuild: 50_000_000 }),
        WatchAction::Wait
    );
    assert_eq!(watch_files(WatchEvent::WatchFailed), WatchAction::LogError);
    assert_eq!(watch_files(WatchEvent::ChannelClosed), WatchAction::Stop);
}

#[test]
fn backend_build_command() {
    assert_eq!(
        build_backend_cmd("roc", "app.roc", ".galena/build/app"),
        CommandLine {
            program: "roc".to_string(),
            args: strings(&["build", "--emit-llvm-ir", "app.roc", "--output", ".galena/build/app"]),
        }
    );
}

#[test]
fn wasm_object_command() {
    assert_eq!(
        build_wasm_obj_cmd("/opt/roc", ".galena/build/app.o", "app.roc"),
        CommandLine {
            program: "/opt/roc".to_string(),
            args: strings(&[
                "build",
                "--target",
                "wasm32",
                "--no-link",
                "--output",
                ".galena/build/app.o",
                "app.roc",
            ]),
        }
    );
}

#[test]
fn link_command_exports_every_symbol() {
    assert_eq!(
        link_wasm_cmd(&strings(&["run", "roc_alloc"]), "libhost.a", "app.o", "app.wasm"),
        CommandLine {
            program: "wasm-ld".to_string(),
            args: strings(&[
                "--export=run",
                "--export=roc_alloc",
                "--no-entry",
                "libhost.a",
                "app.o",
                "-o",
                "app.wasm",
            ]),
        }
    );
    assert_eq!(
        link_wasm_cmd(&[].to_vec(), "l", "o", "w").args,
        strings(&["--no-entry", "l", "o", "-o", "w"])
    );
}

#[test]
fn bindgen_command() {
    assert_eq!(
        wasm_bindgen_cmd(".galena/build", ".galena/build/app.wasm"),
        CommandLine {
            program: "wasm-bindgen".to_string(),
            args: strings(&["--target", "web", "--out-dir", ".galena/build", ".galena/build/app.wasm"]),
        }
    );
}

#[test]
fn export_list_is_one_symbol_per_line() {
    assert_eq!(galena::cli::parse_exports("run\nroc_alloc\n"), strings(&["run", "roc_alloc"]));
    assert_eq!(galena::cli::parse_exports("a\n\nb"), strings(&["a", "b"]));
    assert_eq!(galena::cli::parse_exports("abc"), strings(&["abc"]));
    assert_eq!(galena::cli::parse_exports(""), strings(&[]));
    assert_eq!(galena::cli::parse_exports("\n\n\n"), strings(&[]));
    assert_eq!(galena::cli::parse_exports("\nx"), strings(&["x"]));
    assert_eq!(galena::cli::parse_exports("é\r\nü"), strings(&["é\r", "ü"]));
}

#[test]
fn export_list_agrees_with_split_and_filter() {
    for text in ["", "a", "a\nb", "\na\n\n\nbc\n", "x\ny\nz", "\n", "ab\n\ncd\n\n"] {
        let expected: Vec<String> =
            text.split("\n").filter(|s| !s.is_empty()).map(|s| s.to_string()).collect();
        assert_eq!(galena::cli::parse_exports(text), expected);
    }
}

#[test]
fn bundle_name_of_an_input() {
    assert_eq!(galena::cli::bundle_file_name("app"), "app_bg.wasm");
    assert_eq!(galena::cli::bundle_file_name(""), "_bg.wasm");
}
