use wasm_fib::component_gen::{
    call_module_name, check_callable, component_wit, config_key, fail_child_wit, fail_supervisor_wit,
    spawn_call_module, wit_function_name, CallableError, ConfigBuilder, ConfigError, ConfigKey, ExportsCollector,
    ExportsError, ParamShape, SpawnError,
};

#[test]
fn wit_names_use_dashes() {
    assert_eq!(wit_function_name("fib"), "fib");
    assert_eq!(wit_function_name("supervise_fib"), "supervise-fib");
    assert_eq!(wit_function_name("_a__b_"), "-a--b-");
}

#[test]
fn component_world_text() {
    let wit = component_wit("fib-guest", &["fib".to_string(), "fib_async".to_string()]);
    let expected = r#"package rust-wasm-runtime:process;

interface runtime {
    resource task;

    enum child-status {
        stack-overflow,
        trap,
        bad-export,
        runtime-error,
    }

    spawn: func(function: string, payload: list<u8>) -> task;
    await-task: async func(task: task) -> result<list<u8>, child-status>;
}

world fib-guest {
    import runtime;

    export fib: async func(n: u64) -> u64;
    export fib-async: async func(n: u64) -> u64;
}
"#;
    assert_eq!(wit, expected);
}

#[test]
fn child_and_supervisor_world_texts() {
    assert_eq!(
        fail_child_wit("fail-child", "fib"),
        "package rust-wasm-runtime:child;\n\nworld fail-child {\n    export init: func(burn-iters: u64);\n    export fib: func(n: u64) -> u64;\n}\n"
    );
    assert_eq!(
        fail_supervisor_wit("fail-supervisor", "supervise_fib"),
        "package rust-wasm-runtime:supervisor;\n\ninterface runtime {\n    spawn-link: func(n: u64) -> tuple<s32, u64>;\n}\n\nworld fail-supervisor {\n    import runtime;\n\n    export supervise-fib: func(n: u64, max-retries: u32) -> tuple<s32, u32, s32, u64>;\n}\n"
    );
}

#[test]
fn config_keys_and_defaults() {
    assert_eq!(config_key("world"), Ok(ConfigKey::World));
    assert_eq!(config_key("component"), Ok(ConfigKey::Component));
    assert_eq!(config_key("name"), Err(ConfigError::UnknownKey));
    assert_eq!(ConfigError::UnknownKey.message(), "expected one of: world, path, component");

    let config = ConfigBuilder::new().finish();
    assert_eq!(config.world, "fib-guest");
    assert_eq!(config.component, "Component");
    assert!(config.path.is_none());
    let config = config.with_default_world("fail-child");
    assert_eq!(config.world, "fail-child");

    let mut builder = ConfigBuilder::new();
    assert_eq!(builder.set(ConfigKey::World, "mine".to_string()), Ok(()));
    assert_eq!(builder.set(ConfigKey::Path, "x.wit".to_string()), Ok(()));
    assert_eq!(builder.set(ConfigKey::World, "again".to_string()), Err(ConfigError::DuplicateKey));
    let config = builder.finish().with_default_world("fail-child");
    assert_eq!(config.world, "again");
    assert_eq!(config.path, Some("x.wit".to_string()));
}

#[test]
fn exports_must_be_declared_once() {
    let collector = ExportsCollector::new();
    assert_eq!(collector.check_item(false), Err(ExportsError::ExpectedExports));
    assert_eq!(ExportsCollector::new().finish(), Err(ExportsError::MissingExports));
    let mut collector = ExportsCollector::new();
    assert_eq!(collector.check_item(true), Ok(()));
    collector.record(vec!["fib".to_string()]);
    assert_eq!(collector.check_item(true), Err(ExportsError::DuplicateExports));
    assert_eq!(collector.finish(), Ok(vec!["fib".to_string()]));
    let mut collector = ExportsCollector::new();
    collector.record(Vec::new());
    assert_eq!(collector.finish(), Err(ExportsError::EmptyExports));
    assert_eq!(ExportsError::EmptyExports.message(), "runtime exports cannot be empty");
}

fn u64_param(name: &str) -> ParamShape {
    ParamShape::Typed { type_ident: Some("u64".to_string()), binding: Some(name.to_string()) }
}

#[test]
fn callables_take_and_return_u64() {
    let names = check_callable("fib_async", &[u64_param("n")], &Some(Some("u64".to_string()))).ok().unwrap();
    assert_eq!(names.arg, "n");
    assert_eq!(names.function_name, "fib-async");
    assert_eq!(names.module_name, "__runtime_call_fib_async");
    assert!(matches!(check_callable("f", &[], &Some(Some("u64".to_string()))), Err(CallableError::NotSingleU64Param)));
    assert!(matches!(
        check_callable("f", &[u64_param("a"), u64_param("b")], &Some(Some("u64".to_string()))),
        Err(CallableError::NotSingleU64Param)
    ));
    assert!(matches!(check_callable("f", &[ParamShape::Receiver], &None), Err(CallableError::NotSingleU64Param)));
    let wrong_type = ParamShape::Typed { type_ident: Some("u32".to_string()), binding: Some("n".to_string()) };
    assert!(matches!(check_callable("f", &[wrong_type], &None), Err(CallableError::NotSingleU64Param)));
    assert!(matches!(check_callable("f", &[u64_param("n")], &None), Err(CallableError::NotU64Return)));
    assert!(matches!(check_callable("f", &[u64_param("n")], &Some(None)), Err(CallableError::NotU64Return)));
    assert_eq!(
        CallableError::NotU64Return.message(),
        "runtime callables currently support u64 return type"
    );
}

#[test]
fn spawn_needs_a_named_function() {
    assert_eq!(spawn_call_module(true, &Some("fib".to_string())), Ok("__runtime_call_fib".to_string()));
    assert_eq!(spawn_call_module(false, &None), Err(SpawnError::NotDirectCall));
    assert_eq!(spawn_call_module(true, &None), Err(SpawnError::NoFunctionName));
    assert_eq!(call_module_name("x"), "__runtime_call_x");
}
