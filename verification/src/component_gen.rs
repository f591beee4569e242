//! What the runtime's component macros decide: the WIT names of exported
//! functions, the WIT worlds they generate, the component configuration
//! they accept, the exports a guest declares, and the shape of a callable.

use vstd::prelude::*;
use vstd::string::*;
use crate::text::str_eq;

verus! {

/// The world of a component when none is configured.
pub const DEFAULT_WORLD: &'static str = "fib-guest";
/// The component type's name when none is configured.
pub const DEFAULT_COMPONENT: &'static str = "Component";
/// The text of the process world up to its name.
pub const PROCESS_WIT_HEAD: &'static str = "package rust-wasm-runtime:process;\n\ninterface runtime {\n    resource task;\n\n    enum child-status {\n        stack-overflow,\n        trap,\n        bad-export,\n        runtime-error,\n    }\n\n    spawn: func(function: string, payload: list<u8>) -> task;\n    await-task: async func(task: task) -> result<list<u8>, child-status>;\n}\n\nworld ";
/// The text of the process world between its name and its exports.
pub const PROCESS_WIT_IMPORTS: &'static str = " {\n    import runtime;\n\n";
/// The text of the failing child's world up to its name.
pub const CHILD_WIT_HEAD: &'static str = "package rust-wasm-runtime:child;\n\nworld ";
/// The text of the failing child's world between its name and its export.
pub const CHILD_WIT_INIT: &'static str = " {\n    export init: func(burn-iters: u64);\n    export ";
/// The text of the failing child's world after its export's name.
pub const CHILD_WIT_TAIL: &'static str = ": func(n: u64) -> u64;\n}\n";
/// The text of the supervisor's world up to its name.
pub const SUPERVISOR_WIT_HEAD: &'static str = "package rust-wasm-runtime:supervisor;\n\ninterface runtime {\n    spawn-link: func(n: u64) -> tuple<s32, u64>;\n}\n\nworld ";
/// The text of the supervisor's world between its name and its export.
pub const SUPERVISOR_WIT_IMPORT: &'static str = " {\n    import runtime;\n\n    export ";
/// The text of the supervisor's world after its export's name.
pub const SUPERVISOR_WIT_TAIL: &'static str = ": func(n: u64, max-retries: u32) -> tuple<s32, u32, s32, u64>;\n}\n";

/// The WIT name of a Rust function: its underscores become dashes.
pub open spec fn spec_wit_name(ident: Seq<char>) -> Seq<char> {
    ident.map_values(|c: char| if c == '_' { '-' } else { c })
}

/// Gives the WIT name of a Rust function.
pub fn wit_function_name(ident: &str) -> (name: String)
    ensures
        name@ == spec_wit_name(ident@),
{
    let len = ident.unicode_len();
    let mut name = String::new();
    let mut i: usize = 0;
    while i < len
        invariant
            len == ident@.len(),
            i <= len,
            name@ == spec_wit_name(ident@.subrange(0, i as int)),
        decreases len - i,
    {
        let c = ident.get_char(i);
        if c == '_' {
            name.append("-");
            proof {
                reveal_strlit("-");
            }
        } else {
            name.append(ident.substring_char(i, i + 1));
        }
        proof {
            assert(ident@.subrange(0, i + 1) =~= ident@.subrange(0, i as int).push(c));
            assert(name@ =~= spec_wit_name(ident@.subrange(0, i + 1)));
        }
        i = i + 1;
    }
    proof {
        assert(ident@.subrange(0, len as int) =~= ident@);
    }
    name
}

/// The export lines of the process world, one per function.
pub open spec fn spec_export_lines(exports: Seq<Seq<char>>) -> Seq<char>
    decreases exports.len(),
{
    if exports.len() == 0 {
        Seq::empty()
    } else {
        spec_export_lines(exports.drop_last()) + "    export "@ + spec_wit_name(exports.last())
            + ": async func(n: u64) -> u64;\n"@
    }
}

/// The WIT text of a process component's world: the runtime interface it
/// imports, and an async `u64 -> u64` export per function.
pub open spec fn spec_component_wit(world: Seq<char>, exports: Seq<Seq<char>>) -> Seq<char> {
    PROCESS_WIT_HEAD@ + world + PROCESS_WIT_IMPORTS@ + spec_export_lines(exports) + "}\n"@
}

/// The texts of a list of names.
pub open spec fn name_texts(names: Seq<String>) -> Seq<Seq<char>> {
    names.map_values(|s: String| s@)
}

/// Writes the WIT text of a process component's world.
pub fn component_wit(world: &str, exports: &[String]) -> (wit: String)
    ensures
        wit@ == spec_component_wit(world@, name_texts(exports@)),
{
    let mut wit = String::from_str(PROCESS_WIT_HEAD);
    wit.append(world);
    wit.append(PROCESS_WIT_IMPORTS);
    let ghost head = wit@;
    let mut i: usize = 0;
    while i < exports.len()
        invariant
            i <= exports@.len(),
            wit@ == head + spec_export_lines(name_texts(exports@).subrange(0, i as int)),
        decreases exports@.len() - i,
    {
        wit.append("    export ");
        wit.append(wit_function_name(exports[i].as_str()).as_str());
        wit.append(": async func(n: u64) -> u64;\n");
        proof {
            let done = name_texts(exports@).subrange(0, i + 1);
            assert(done.drop_last() =~= name_texts(exports@).subrange(0, i as int));
            assert(done.last() == exports@[i as int]@);
            assert(wit@ =~= head + spec_export_lines(done));
        }
        i = i + 1;
    }
    proof {
        assert(name_texts(exports@).subrange(0, exports@.len() as int) =~= name_texts(exports@));
    }
    wit.append("}\n");
    wit
}

/// The WIT text of the failing child's world: an init export and the
/// `u64 -> u64` function export.
pub open spec fn spec_fail_child_wit(world: Seq<char>, export: Seq<char>) -> Seq<char> {
    CHILD_WIT_HEAD@ + world + CHILD_WIT_INIT@ + spec_wit_name(export) + CHILD_WIT_TAIL@
}

/// Writes the WIT text of the failing child's world.
pub fn fail_child_wit(world: &str, export: &str) -> (wit: String)
    ensures
        wit@ == spec_fail_child_wit(world@, export@),
{
    let mut wit = String::from_str(CHILD_WIT_HEAD);
    wit.append(world);
    wit.append(CHILD_WIT_INIT);
    wit.append(wit_function_name(export).as_str());
    wit.append(CHILD_WIT_TAIL);
    wit
}

/// The WIT text of the supervisor's world: the spawn-link import and the
/// supervising export.
pub open spec fn spec_fail_supervisor_wit(world: Seq<char>, export: Seq<char>) -> Seq<char> {
    SUPERVISOR_WIT_HEAD@ + world + SUPERVISOR_WIT_IMPORT@ + spec_wit_name(export) + SUPERVISOR_WIT_TAIL@
}

/// Writes the WIT text of the supervisor's world.
pub fn fail_supervisor_wit(world: &str, export: &str) -> (wit: String)
    ensures
        wit@ == spec_fail_supervisor_wit(world@, export@),
{
    let mut wit = String::from_str(SUPERVISOR_WIT_HEAD);
    wit.append(world);
    wit.append(SUPERVISOR_WIT_IMPORT);
    wit.append(wit_function_name(export).as_str());
    wit.append(SUPERVISOR_WIT_TAIL);
    wit
}

/// Where the bindings generator reads a component's world from.
pub enum WitSource {
    /// A WIT file at this path.
    Path(String),
    /// This WIT text.
    Inline(String),
}

/// The contents of a `WitSource`.
pub enum WitSourceView {
    Path(Seq<char>),
    Inline(Seq<char>),
}

impl View for WitSource {
    type V = WitSourceView;

    open spec fn view(&self) -> WitSourceView {
        match self {
            WitSource::Path(p) => WitSourceView::Path(p@),
            WitSource::Inline(t) => WitSourceView::Inline(t@),
        }
    }
}

/// The world source of a process component: the configured path, or else
/// the generated world.
pub fn component_wit_source(world: &str, path: &Option<String>, exports: &[String]) -> (source: WitSource)
    ensures
        match path {
            Some(p) => source@ == WitSourceView::Path(p@),
            None => source@ == WitSourceView::Inline(spec_component_wit(world@, name_texts(exports@))),
        },
{
    match path {
        Some(p) => WitSource::Path(p.clone()),
        None => WitSource::Inline(component_wit(world, exports)),
    }
}

/// The world source of the failing child: the configured path, or else the
/// generated world.
pub fn fail_child_wit_source(world: &str, path: &Option<String>, export: &str) -> (source: WitSource)
    ensures
        match path {
            Some(p) => source@ == WitSourceView::Path(p@),
            None => source@ == WitSourceView::Inline(spec_fail_child_wit(world@, export@)),
        },
{
    match path {
        Some(p) => WitSource::Path(p.clone()),
        None => WitSource::Inline(fail_child_wit(world, export)),
    }
}

/// The world source of the supervisor: the configured path, or else the
/// generated world.
pub fn fail_supervisor_wit_source(world: &str, path: &Option<String>, export: &str) -> (source: WitSource)
    ensures
        match path {
            Some(p) => source@ == WitSourceView::Path(p@),
            None => source@ == WitSourceView::Inline(spec_fail_supervisor_wit(world@, export@)),
        },
{
    match path {
        Some(p) => WitSource::Path(p.clone()),
        None => WitSource::Inline(fail_supervisor_wit(world, export)),
    }
}

/// A key of the component macros' configuration.
#[derive(Clone, Copy, Debug, PartialEq, Eq)]
pub enum ConfigKey {
    World,
    Path,
    Component,
}

/// Why a component configuration was refused.
#[derive(Clone, Copy, Debug, PartialEq, Eq)]
pub enum ConfigError {
    /// The key is none of `world`, `path`, `component`.
    UnknownKey,
    /// The key was given twice.
    DuplicateKey,
}

impl ConfigError {
    /// Describes the error.
    pub fn message(&self) -> (text: &'static str)
        ensures
            *self == ConfigError::UnknownKey ==> text@ == "expected one of: world, path, component"@,
            *self == ConfigError::DuplicateKey ==> text@ == "duplicate component config key"@,
    {
        match self {
            ConfigError::UnknownKey => "expected one of: world, path, component",
            ConfigError::DuplicateKey => "duplicate component config key",
        }
    }
}

/// Recognizes a configuration key.
pub fn config_key(key: &str) -> (result: Result<ConfigKey, ConfigError>)
    ensures
        key@ == "world"@ ==> result == Ok::<ConfigKey, ConfigError>(ConfigKey::World),
        key@ == "path"@ ==> result == Ok::<ConfigKey, ConfigError>(ConfigKey::Path),
        key@ == "component"@ ==> result == Ok::<ConfigKey, ConfigError>(ConfigKey::Component),
        key@ != "world"@ && key@ != "path"@ && key@ != "component"@ ==> result == Err::<
            ConfigKey,
            ConfigError,
        >(ConfigError::UnknownKey),
{
    proof {
        reveal_strlit("world");
        reveal_strlit("path");
        reveal_strlit("component");
        assert("world"@[0] != "path"@[0] && "world"@[0] != "component"@[0]);
        assert("path"@[0] != "component"@[0]);
    }
    if str_eq(key, "world") {
        Ok(ConfigKey::World)
    } else if str_eq(key, "path") {
        Ok(ConfigKey::Path)
    } else if str_eq(key, "component") {
        Ok(ConfigKey::Component)
    } else {
        Err(ConfigError::UnknownKey)
    }
}

/// The configuration of a component macro.
pub struct ComponentConfig {
    /// The WIT world the component implements.
    pub world: String,
    /// A WIT file to read the world from, instead of generating it.
    pub path: Option<String>,
    /// The name of the generated component type.
    pub component: String,
}

/// The text of an optional string.
pub open spec fn opt_view(s: Option<String>) -> Option<Seq<char>> {
    match s {
        Some(s) => Some(s@),
        None => None,
    }
}

/// A configuration being read, key by key.
pub struct ConfigBuilder {
    world: Option<String>,
    path: Option<String>,
    component: Option<String>,
}

impl ConfigBuilder {
    /// The configured world, if any yet.
    pub closed spec fn world(self) -> Option<Seq<char>> {
        opt_view(self.world)
    }

    /// The configured path, if any yet.
    pub closed spec fn path(self) -> Option<Seq<char>> {
        opt_view(self.path)
    }

    /// The configured component name, if any yet.
    pub closed spec fn component(self) -> Option<Seq<char>> {
        opt_view(self.component)
    }

    /// A configuration with no key set.
    pub fn new() -> (builder: ConfigBuilder)
        ensures
            builder.world() is None,
            builder.path() is None,
            builder.component() is None,
    {
        ConfigBuilder { world: None, path: None, component: None }
    }

    /// Sets `key` to `value`; a key that was set before is refused.
    pub fn set(&mut self, key: ConfigKey, value: String) -> (result: Result<(), ConfigError>)
        ensures
            key == ConfigKey::World ==> {
                &&& final(self).world() == Some(value@)
                &&& final(self).path() == old(self).path()
                &&& final(self).component() == old(self).component()
                &&& (result is Err <==> old(self).world() is Some)
            },
            key == ConfigKey::Path ==> {
                &&& final(self).path() == Some(value@)
                &&& final(self).world() == old(self).world()
                &&& final(self).component() == old(self).component()
                &&& (result is Err <==> old(self).path() is Some)
            },
            key == ConfigKey::Component ==> {
                &&& final(self).component() == Some(value@)
                &&& final(self).world() == old(self).world()
                &&& final(self).path() == old(self).path()
                &&& (result is Err <==> old(self).component() is Some)
            },
            result is Err ==> result == Err::<(), ConfigError>(ConfigError::DuplicateKey),
    {
        let was_set = match key {
            ConfigKey::World => {
                let was = self.world.is_some();
                self.world = Some(value);
                was
            },
            ConfigKey::Path => {
                let was = self.path.is_some();
                self.path = Some(value);
                was
            },
            ConfigKey::Component => {
                let was = self.component.is_some();
                self.component = Some(value);
                was
            },
        };
        if was_set {
            Err(ConfigError::DuplicateKey)
        } else {
            Ok(())
        }
    }

    /// The configuration read, with the default world and component name
    /// for the keys not given.
    pub fn finish(self) -> (config: ComponentConfig)
        ensures
            config.world@ == match self.world() {
                Some(w) => w,
                None => DEFAULT_WORLD@,
            },
            opt_view(config.path) == self.path(),
            config.component@ == match self.component() {
                Some(c) => c,
                None => DEFAULT_COMPONENT@,
            },
    {
        let world = match self.world {
            Some(w) => w,
            None => String::from_str(DEFAULT_WORLD),
        };
        let component = match self.component {
            Some(c) => c,
            None => String::from_str(DEFAULT_COMPONENT),
        };
        ComponentConfig { world, path: self.path, component }
    }
}

impl ComponentConfig {
    /// Replaces the default world by `default_world`, the world of the
    /// macro at hand; a world that was configured stays.
    pub fn with_default_world(self, default_world: &str) -> (config: ComponentConfig)
        ensures
            config.world@ == if self.world@ == DEFAULT_WORLD@ {
                default_world@
            } else {
                self.world@
            },
            opt_view(config.path) == opt_view(self.path),
            config.component@ == self.component@,
    {
        let world = if str_eq(self.world.as_str(), DEFAULT_WORLD) {
            String::from_str(default_world)
        } else {
            self.world
        };
        ComponentConfig { world, path: self.path, component: self.component }
    }
}

/// Why a guest's `runtime(exports(...))` declaration was refused.
#[derive(Clone, Copy, Debug, PartialEq, Eq)]
pub enum ExportsError {
    /// A `runtime` attribute holds something other than `exports(...)`.
    ExpectedExports,
    /// `exports(...)` was given twice.
    DuplicateExports,
    /// No `runtime(exports(...))` was given.
    MissingExports,
    /// `exports()` names no function.
    EmptyExports,
}

impl ExportsError {
    /// Describes the error.
    pub fn message(&self) -> (text: &'static str)
        ensures
            *self == ExportsError::ExpectedExports ==> text@ == "expected runtime(exports(...))"@,
            *self == ExportsError::DuplicateExports ==> text@ == "duplicate runtime exports"@,
            *self == ExportsError::MissingExports ==> text@
                == "missing #[runtime(exports(function_name, ...))]"@,
            *self == ExportsError::EmptyExports ==> text@ == "runtime exports cannot be empty"@,
    {
        match self {
            ExportsError::ExpectedExports => "expected runtime(exports(...))",
            ExportsError::DuplicateExports => "duplicate runtime exports",
            ExportsError::MissingExports => "missing #[runtime(exports(function_name, ...))]",
            ExportsError::EmptyExports => "runtime exports cannot be empty",
        }
    }
}

/// The exports of a guest being read from its `runtime` attributes.
pub struct ExportsCollector {
    exports: Option<Vec<String>>,
}

impl ExportsCollector {
    /// The exports read so far, if any.
    pub closed spec fn exports(self) -> Option<Seq<Seq<char>>> {
        match self.exports {
            Some(v) => Some(name_texts(v@)),
            None => None,
        }
    }

    /// A collector that has read nothing.
    pub fn new() -> (collector: ExportsCollector)
        ensures
            collector.exports() is None,
    {
        ExportsCollector { exports: None }
    }

    /// Checks an item of a `runtime` attribute before its contents are
    /// read: it must be `exports`, and the first one.
    pub fn check_item(&self, is_exports: bool) -> (result: Result<(), ExportsError>)
        ensures
            !is_exports ==> result == Err::<(), ExportsError>(ExportsError::ExpectedExports),
            is_exports && self.exports() is Some ==> result == Err::<(), ExportsError>(
                ExportsError::DuplicateExports,
            ),
            is_exports && self.exports() is None ==> result is Ok,
    {
        if !is_exports {
            Err(ExportsError::ExpectedExports)
        } else if self.exports.is_some() {
            Err(ExportsError::DuplicateExports)
        } else {
            Ok(())
        }
    }

    /// Records the functions that `exports(...)` names.
    pub fn record(&mut self, names: Vec<String>)
        ensures
            final(self).exports() == Some(name_texts(names@)),
    {
        self.exports = Some(names);
    }

    /// The exports read: there must be some, and at least one function.
    pub fn finish(self) -> (result: Result<Vec<String>, ExportsError>)
        ensures
            self.exports() is None ==> result == Err::<Vec<String>, ExportsError>(ExportsError::MissingExports),
            (self.exports() matches Some(names) && names.len() == 0) ==> result == Err::<Vec<String>, ExportsError>(
                ExportsError::EmptyExports,
            ),
            (self.exports() matches Some(names) && names.len() > 0) ==> (result matches Ok(v) && Some(name_texts(v@))
                == self.exports()),
    {
        match self.exports {
            None => Err(ExportsError::MissingExports),
            Some(names) => if names.len() == 0 {
                Err(ExportsError::EmptyExports)
            } else {
                Ok(names)
            },
        }
    }
}

/// A parameter of a function given to a component macro.
pub enum ParamShape {
    /// A `self` parameter.
    Receiver,
    /// A typed parameter: the last path segment of its type when the type
    /// is a path, and its name when its pattern is a plain identifier.
    Typed { type_ident: Option<String>, binding: Option<String> },
}

/// The last path segment of a type names `u64`.
pub open spec fn spec_is_u64(type_ident: Option<Seq<char>>) -> bool {
    type_ident == Some("u64"@)
}

/// Tells whether a type, given by the last segment of its path, is `u64`.
pub fn is_u64(type_ident: &Option<String>) -> (u: bool)
    ensures
        u == spec_is_u64(opt_view(*type_ident)),
{
    match type_ident {
        Some(name) => str_eq(name.as_str(), "u64"),
        None => false,
    }
}

/// The name of the single `u64` parameter of a function, if it has exactly
/// one parameter, of type `u64`, bound to a plain name.
pub open spec fn spec_single_u64_arg(params: Seq<ParamShape>) -> Option<Seq<char>> {
    if params.len() != 1 {
        None
    } else {
        match params[0] {
            ParamShape::Receiver => None,
            ParamShape::Typed { type_ident, binding } => if spec_is_u64(opt_view(type_ident)) {
                opt_view(binding)
            } else {
                None
            },
        }
    }
}

/// Finds the single `u64` parameter of a function.
pub fn single_u64_arg(params: &[ParamShape]) -> (arg: Option<String>)
    ensures
        opt_view(arg) == spec_single_u64_arg(params@),
{
    if params.len() != 1 {
        return None;
    }
    match &params[0] {
        ParamShape::Receiver => None,
        ParamShape::Typed { type_ident, binding } => if is_u64(type_ident) {
            match binding {
                Some(b) => Some(b.clone()),
                None => None,
            }
        } else {
            None
        },
    }
}

/// Tells whether a function returns `u64`; `output` is the last path
/// segment of its return type, `None` when it returns nothing, and
/// `Some(None)` when its return type is not a path.
pub fn returns_u64(output: &Option<Option<String>>) -> (u: bool)
    ensures
        u == match output {
            Some(ty) => spec_is_u64(opt_view(*ty)),
            None => false,
        },
{
    match output {
        Some(ty) => is_u64(ty),
        None => false,
    }
}

/// Why a function cannot be a runtime callable.
#[derive(Clone, Copy, Debug, PartialEq, Eq)]
pub enum CallableError {
    /// It does not take exactly one `u64` parameter.
    NotSingleU64Param,
    /// It does not return `u64`.
    NotU64Return,
}

impl CallableError {
    /// Describes the error.
    pub fn message(&self) -> (text: &'static str)
        ensures
            *self == CallableError::NotSingleU64Param ==> text@
                == "runtime callables currently support exactly one u64 parameter"@,
            *self == CallableError::NotU64Return ==> text@ == "runtime callables currently support u64 return type"@,
    {
        match self {
            CallableError::NotSingleU64Param => "runtime callables currently support exactly one u64 parameter",
            CallableError::NotU64Return => "runtime callables currently support u64 return type",
        }
    }
}

/// The names generated for a runtime callable.
pub struct CallableNames {
    /// The name of its `u64` parameter.
    pub arg: String,
    /// Its WIT name, under which it is spawned.
    pub function_name: String,
    /// The module holding its call descriptor.
    pub module_name: String,
}

/// The module that holds the call descriptor of function `name`.
pub open spec fn spec_call_module_name(name: Seq<char>) -> Seq<char> {
    "__runtime_call_"@ + name
}

/// Names the module that holds the call descriptor of function `name`.
pub fn call_module_name(name: &str) -> (module: String)
    ensures
        module@ == spec_call_module_name(name@),
{
    let mut module = String::from_str("__runtime_call_");
    module.append(name);
    module
}

/// Checks that function `name` can be a runtime callable (one `u64`
/// parameter, a `u64` result) and names what is generated for it.
pub fn check_callable(name: &str, params: &[ParamShape], output: &Option<Option<String>>) -> (result: Result<
    CallableNames,
    CallableError,
>)
    ensures
        spec_single_u64_arg(params@) is None ==> (result matches Err(e) && e == CallableError::NotSingleU64Param),
        spec_single_u64_arg(params@) is Some && !(match output {
            Some(ty) => spec_is_u64(opt_view(*ty)),
            None => false,
        }) ==> (result matches Err(e) && e == CallableError::NotU64Return),
        result matches Ok(names) ==> {
            &&& Some(names.arg@) == spec_single_u64_arg(params@)
            &&& names.function_name@ == spec_wit_name(name@)
            &&& names.module_name@ == spec_call_module_name(name@)
        },
        spec_single_u64_arg(params@) is Some && (match output {
            Some(ty) => spec_is_u64(opt_view(*ty)),
            None => false,
        }) ==> result is Ok,
{
    let arg = match single_u64_arg(params) {
        Some(arg) => arg,
        None => {
            return Err(CallableError::NotSingleU64Param);
        },
    };
    if !returns_u64(output) {
        return Err(CallableError::NotU64Return);
    }
    Ok(CallableNames { arg, function_name: wit_function_name(name), module_name: call_module_name(name) })
}

/// Why `spawn!` was refused.
#[derive(Clone, Copy, Debug, PartialEq, Eq)]
pub enum SpawnError {
    /// The call does not name its function by a path.
    NotDirectCall,
    /// The function's path has no segment.
    NoFunctionName,
}

impl SpawnError {
    /// Describes the error.
    pub fn message(&self) -> (text: &'static str)
        ensures
            *self == SpawnError::NotDirectCall ==> text@ == "runtime::spawn! expects a direct function call like fib(n)"@,
            *self == SpawnError::NoFunctionName ==> text@ == "runtime::spawn! expects a function name"@,
    {
        match self {
            SpawnError::NotDirectCall => "runtime::spawn! expects a direct function call like fib(n)",
            SpawnError::NoFunctionName => "runtime::spawn! expects a function name",
        }
    }
}

/// The call-descriptor module that `spawn!` uses for a call whose function
/// is named by a path (`is_path`) ending in `last_segment`.
pub fn spawn_call_module(is_path: bool, last_segment: &Option<String>) -> (result: Result<String, SpawnError>)
    ensures
        !is_path ==> result == Err::<String, SpawnError>(SpawnError::NotDirectCall),
        is_path && last_segment is None ==> result == Err::<String, SpawnError>(SpawnError::NoFunctionName),
        is_path && last_segment is Some ==> (result matches Ok(m) && m@ == spec_call_module_name(last_segment->0@)),
{
    if !is_path {
        return Err(SpawnError::NotDirectCall);
    }
    match last_segment {
        Some(s) => Ok(call_module_name(s.as_str())),
        None => Err(SpawnError::NoFunctionName),
    }
}

} // verus!
