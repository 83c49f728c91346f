use gos_codegen::engine::{AfterCompile, Config, Engine, FfiFactory};

fn config(trace_vm: bool) -> Config {
    Config {
        work_dir: Some("./".to_string()),
        base_path: None,
        trace_parser: false,
        trace_checker: true,
        trace_vm,
    }
}

#[test]
fn new_engine_keeps_its_settings() {
    let engine: Engine<u32> = Engine::new(config(true));
    assert_eq!(engine.config().work_dir, Some("./".to_string()));
    assert_eq!(engine.config().base_path, None);
    assert!(!engine.config().trace_parser);
    assert!(engine.config().trace_checker);
    assert!(engine.config().trace_vm);
    assert_eq!(engine.extension("fmt"), None);
}

#[test]
fn extensions_are_found_by_name() {
    let mut engine: Engine<Box<dyn Fn(i32) -> i32>> = Engine::new(config(false));
    engine.register_extension("double", Box::new(|x| 2 * x));
    engine.register_extension("negate", Box::new(|x| -x));
    assert_eq!((engine.extension("double").unwrap())(21), 42);
    assert_eq!((engine.extension("negate").unwrap())(21), -21);
    assert!(engine.extension("Double").is_none());
    assert!(engine.extension("").is_none());
    assert!(!engine.config().trace_vm);
}

#[test]
fn registering_a_name_again_replaces_the_extension() {
    let mut engine: Engine<u32> = Engine::new(config(false));
    engine.register_extension("bits", 32);
    engine.register_extension("bits", 64);
    assert_eq!(engine.extension("bits"), Some(&64));
    let mut factory: FfiFactory<&str> = FfiFactory::new();
    assert_eq!(factory.get("a"), None);
    factory.register("a", "first");
    factory.register("b", "second");
    factory.register("a", "third");
    assert_eq!(factory.get("a"), Some(&"third"));
    assert_eq!(factory.get("b"), Some(&"second"));
}

#[test]
fn compiled_program_is_run() {
    for trace_vm in [false, true] {
        let engine: Engine<u32> = Engine::new(config(trace_vm));
        assert_eq!(engine.after_compile(Ok(())), AfterCompile::Execute);
    }
}

#[test]
fn failed_compilation_ends_with_the_count_of_errors() {
    let quiet: Engine<u32> = Engine::new(config(false));
    assert_eq!(
        quiet.after_compile(Err(3)),
        AfterCompile::Fail { print_errors: false, exit_code: 3 }
    );
    let loud: Engine<u32> = Engine::new(config(true));
    assert_eq!(
        loud.after_compile(Err(1)),
        AfterCompile::Fail { print_errors: true, exit_code: 1 }
    );
}
