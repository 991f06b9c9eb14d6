use standalone::{
    build_config, compose_image, create_web_worker, exit_code, first_phase, load_event_script,
    next_phase, script_args, try_run_standalone_binary, unload_event_script, EmbeddedModuleLoader,
    Launch, Phase, StandaloneError, SPECIFIER,
};

fn args(v: &[&str]) -> Vec<String> {
    v.iter().map(|s| s.to_string()).collect()
}

#[test]
fn loader_rejects_foreign_specifiers() {
    let loader = EmbeddedModuleLoader::new("console.log(1)".to_string());
    for s in ["", "./mod.js", "../a/b.ts", "https://example.com/x.js", "file:///tmp/bundle.js"] {
        assert_eq!(
            loader.resolve(s, SPECIFIER, false).err(),
            Some(StandaloneError::ModuleLoadingUnsupported)
        );
        assert_eq!(
            loader.load(s, None, false).err(),
            Some(StandaloneError::ModuleLoadingUnsupported)
        );
    }
}

#[test]
fn loader_accepts_synthetic_specifier() {
    let loader = EmbeddedModuleLoader::new("console.log(1)".to_string());
    assert_eq!(SPECIFIER, "file://$deno$/bundle.js");
    assert_eq!(loader.resolve(SPECIFIER, "anything", true).ok(), Some(SPECIFIER.to_string()));
    assert_eq!(loader.resolve(SPECIFIER, "", false).ok(), Some(SPECIFIER.to_string()));
}

#[test]
fn loader_serves_stored_text_exactly() {
    let code = "const s = \"h\u{e9}\";\nconsole.log(s)\n";
    let loader = EmbeddedModuleLoader::new(code.to_string());
    let m = loader.load(SPECIFIER, Some("x"), true).ok().unwrap();
    assert_eq!(m.code, code);
    assert_eq!(m.module_url_specified, SPECIFIER);
    assert_eq!(m.module_url_found, SPECIFIER);
    let again = loader.load(SPECIFIER, None, false).ok().unwrap();
    assert_eq!(again.code, code);
}

#[test]
fn clean_run_goes_through_every_phase() {
    let mut p = first_phase();
    let mut seen = vec![p];
    while exit_code(p).is_none() {
        p = next_phase(p, true);
        seen.push(p);
    }
    assert_eq!(
        seen,
        vec![
            Phase::Bootstrap,
            Phase::ExecuteModule,
            Phase::DispatchLoad,
            Phase::RunEventLoop,
            Phase::DispatchUnload,
            Phase::Exit(0),
        ]
    );
    assert_eq!(exit_code(p), Some(0));
}

#[test]
fn failure_at_any_phase_exits_with_one() {
    for p in [
        Phase::Bootstrap,
        Phase::ExecuteModule,
        Phase::DispatchLoad,
        Phase::RunEventLoop,
        Phase::DispatchUnload,
    ] {
        assert_eq!(next_phase(p, false), Phase::Exit(1));
        assert_eq!(exit_code(p), None);
    }
    assert_eq!(next_phase(Phase::Exit(1), true), Phase::Exit(1));
    assert_eq!(next_phase(Phase::Exit(0), false), Phase::Exit(0));
}

#[test]
fn event_scripts() {
    assert_eq!(load_event_script(), "window.dispatchEvent(new Event('load'))");
    assert_eq!(unload_event_script(), "window.dispatchEvent(new Event('unload'))");
}

#[test]
fn workers_are_unsupported() {
    assert_eq!(create_web_worker(), Err(StandaloneError::WorkersUnsupported));
}

#[test]
fn script_args_drop_program_name() {
    assert_eq!(script_args(&args(&["prog"])), Vec::<String>::new());
    assert_eq!(script_args(&args(&["prog", "a", "--b"])), args(&["a", "--b"]));
}

#[test]
fn config_is_full_trust_and_unstable() {
    let c = build_config(&args(&["prog", "x"]), true);
    assert_eq!(c.argv, args(&["x"]));
    assert_eq!(c.main_module, SPECIFIER);
    assert!(c.allow_all);
    assert!(c.unstable);
    assert!(!c.no_color);
    assert!(build_config(&args(&["prog"]), false).no_color);
}

#[test]
fn start_on_ordinary_image_is_not_standalone() {
    let image: Vec<u8> = (0..500u32).map(|i| (i % 7) as u8).collect();
    let r = try_run_standalone_binary(&image, &args(&["prog"]), true);
    assert!(matches!(r, Ok(Launch::NotStandalone)));
}

#[test]
fn start_on_tiny_image_is_an_error() {
    let r = try_run_standalone_binary(&[1, 2, 3], &args(&["prog"]), true);
    assert!(matches!(r, Err(StandaloneError::ImageTooShort)));
}

#[test]
fn start_on_artifact_runs_its_script() {
    let host = vec![7u8; 1000];
    let image = compose_image(&host, "console.log(1+1)".as_bytes());
    let r = try_run_standalone_binary(&image, &args(&["prog", "one", "two"]), false);
    match r {
        Ok(Launch::Run { source, config }) => {
            assert_eq!(source, "console.log(1+1)");
            assert_eq!(config.argv, args(&["one", "two"]));
            assert!(config.no_color);
        },
        _ => panic!("expected a run"),
    }
}

#[test]
fn start_on_broken_artifact_fails_the_run() {
    let image = compose_image(&[0u8; 40], &[0xc3, 0x28]);
    let r = try_run_standalone_binary(&image, &args(&["prog"]), true);
    assert!(matches!(r, Ok(Launch::Fail(StandaloneError::InvalidUtf8))));
    let mut image = vec![0u8; 40];
    image.extend_from_slice(b"d3n0l4nd");
    image.extend_from_slice(&1000u64.to_be_bytes());
    let r = try_run_standalone_binary(&image, &args(&["prog"]), true);
    assert!(matches!(r, Ok(Launch::Fail(StandaloneError::OffsetOutOfRange))));
}
