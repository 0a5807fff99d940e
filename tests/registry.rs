use std::cell::Cell;

use taiga_plugin_api::plugin::{
    ArgDef, CommandDef, CommandResult, Plugin, PluginContext, PluginError, PluginInfo, RawPlugin,
};
use taiga_plugin_api::text::{contains_str, same_str};
use taiga_plugin_api::registry::{
    command_outcome, is_library_file, plugin_base_name, DiscoveryPass, LoadReport,
    PluginManager, RegistryError,
};

struct Echo {
    name: &'static str,
    fail_load: bool,
    loads: Cell<u32>,
}

impl Echo {
    fn new(name: &'static str) -> Self {
        Echo { name, fail_load: false, loads: Cell::new(0) }
    }
}

impl Plugin for Echo {
    fn name(&self) -> &str {
        self.name
    }
    fn version(&self) -> &str {
        "1.0.0"
    }
    fn description(&self) -> &str {
        "echoes its arguments"
    }
    fn commands(&self) -> Vec<CommandDef> {
        vec![CommandDef::new("say".to_string(), "Says the arguments".to_string())]
    }
    fn execute(
        &self,
        command: &str,
        args: &[String],
        ctx: &mut PluginContext,
    ) -> Result<CommandResult, PluginError> {
        match command {
            "say" => {
                ctx.config_json = Some("touched".to_string());
                Ok(CommandResult::Success(Some(args.join(" "))))
            }
            _ => Err(PluginError::CommandFailed(format!("unknown command {}", command))),
        }
    }
    fn on_load(&self) -> Result<(), PluginError> {
        self.loads.set(self.loads.get() + 1);
        if self.fail_load {
            Err(PluginError::Other("cannot start".to_string()))
        } else {
            Ok(())
        }
    }
}

fn ctx() -> PluginContext {
    PluginContext::new("/tmp/data".to_string())
}

#[test]
fn register_static_runs_load_hook_and_rejects_duplicates() {
    let mut reg: PluginManager<Echo, ()> = PluginManager::new();
    assert!(reg.register_static(Echo::new("echo")).is_ok());
    assert_eq!(reg.get("echo").unwrap().loads.get(), 1);
    match reg.register_static(Echo::new("echo")) {
        Err(RegistryError::DuplicateName(n)) => assert_eq!(n, "echo"),
        _ => panic!("expected DuplicateName"),
    }
    assert_eq!(reg.plugin_names(), vec!["echo"]);
    assert!(reg.has_plugin("echo"));
    assert!(!reg.has_plugin("ech"));
}

#[test]
fn failing_load_hook_leaves_registry_unchanged() {
    let mut reg: PluginManager<Echo, ()> = PluginManager::new();
    let mut bad = Echo::new("bad");
    bad.fail_load = true;
    match reg.register_static(bad) {
        Err(RegistryError::LoadHookFailed { name, .. }) => assert_eq!(name, "bad"),
        _ => panic!("expected LoadHookFailed"),
    }
    assert!(reg.plugin_names().is_empty());
}

#[test]
fn dynamic_registration_skips_load_hook_and_keeps_library() {
    let mut reg: PluginManager<Echo, String> = PluginManager::new();
    assert!(reg.register_dynamic(Echo::new("dyn"), "libdyn.so".to_string()).is_ok());
    assert_eq!(reg.get("dyn").unwrap().loads.get(), 0);
    assert!(matches!(
        reg.register_static(Echo::new("dyn")),
        Err(RegistryError::DuplicateName(_))
    ));
    assert!(matches!(
        reg.register_dynamic(Echo::new("dyn"), "other.so".to_string()),
        Err(RegistryError::DuplicateName(_))
    ));
    assert!(reg.register_static(Echo::new("st")).is_ok());
    assert_eq!(reg.plugin_names(), vec!["dyn", "st"]);
    let infos: Vec<PluginInfo> = reg.plugin_infos();
    assert_eq!(infos.len(), 2);
    assert_eq!(infos[0].name, "dyn");
    assert_eq!(infos[0].version, "1.0.0");
    assert_eq!(infos[1].commands[0].name, "say");
}

#[test]
fn execute_dispatches_by_name() {
    let mut reg: PluginManager<Echo, ()> = PluginManager::new();
    reg.register_static(Echo::new("echo")).ok();
    let mut c = ctx();
    match reg.execute("echo", "say", &["a".to_string(), "b".to_string()], &mut c) {
        Ok(CommandResult::Success(Some(m))) => assert_eq!(m, "a b"),
        _ => panic!("expected success"),
    }
    assert_eq!(c.config_json, Some("touched".to_string()));
    assert!(matches!(
        reg.execute("echo", "shout", &[], &mut c),
        Err(RegistryError::CommandFailed(PluginError::CommandFailed(_)))
    ));
    let mut fresh = ctx();
    match reg.execute("missing", "say", &[], &mut fresh) {
        Err(RegistryError::PluginNotFound(n)) => assert_eq!(n, "missing"),
        _ => panic!("expected PluginNotFound"),
    }
    assert_eq!(fresh.config_json, None);
}

#[test]
fn unload_all_empties_registry() {
    let mut reg: PluginManager<Echo, String> = PluginManager::new();
    reg.add_plugin_path("/opt/plugins".to_string());
    reg.register_dynamic(Echo::new("a"), "liba.so".to_string()).ok();
    reg.register_static(Echo::new("b")).ok();
    reg.unload_all();
    assert!(reg.plugin_names().is_empty());
    assert!(reg.get("a").is_none());
    assert_eq!(reg.plugin_paths(), vec!["/opt/plugins"]);
    assert!(reg.register_static(Echo::new("a")).is_ok());
}

#[test]
fn library_file_names() {
    assert!(is_library_file("libpomo.so", "so"));
    assert!(!is_library_file("libpomo.so.1", "so"));
    assert!(!is_library_file(".so", "so"));
    assert!(!is_library_file("pomo.dll", "so"));
    assert!(is_library_file("pomo.dll", "dll"));
    assert!(!is_library_file("libpomoso", "so"));
    assert_eq!(plugin_base_name("libpomo.so", "lib", ".so"), "pomo");
    assert_eq!(plugin_base_name("pomo.dll", "", ".dll"), "pomo");
    assert_eq!(plugin_base_name("pomo.so", "lib", ".so"), "pomo");
    assert_eq!(plugin_base_name("libtui.dylib", "lib", ".dylib"), "tui");
}

#[test]
fn string_helpers() {
    assert!(same_str("abc", "abc"));
    assert!(!same_str("abc", "abd"));
    assert!(!same_str("abc", "ab"));
    assert!(contains_str("/a/b/libpomo.so", "pomo"));
    assert!(!contains_str("/a/b/libtui.so", "pomo"));
    assert!(contains_str("x", ""));
}

#[test]
fn discovery_loads_same_artifact_once() {
    let mut pass = DiscoveryPass::new();
    assert!(pass.should_load("libpomo.so", "so", "lib", ".so"));
    assert!(matches!(pass.record("/usr/lib/taiga/libpomo.so".to_string(), &Ok(())), LoadReport::Loaded));
    // The same file in a second directory is skipped.
    assert!(!pass.should_load("libpomo.so", "so", "lib", ".so"));
    assert!(pass.should_load("libtui.so", "so", "lib", ".so"));
    assert!(!pass.should_load("README.md", "so", "lib", ".so"));
    let dup: Result<(), RegistryError> = Err(RegistryError::DuplicateName("tui".to_string()));
    assert!(matches!(pass.record("/home/u/.taiga/libtui.so".to_string(), &dup), LoadReport::Duplicate));
    let bad: Result<(), RegistryError> = Err(RegistryError::PluginLoadFailed("bad elf".to_string()));
    assert!(matches!(pass.record("/x/libbad.so".to_string(), &bad), LoadReport::Warn));
    assert_eq!(pass.into_loaded(), vec!["/usr/lib/taiga/libpomo.so"]);
}

#[test]
fn command_and_arg_definitions() {
    let cmd = CommandDef::new("start".to_string(), "Starts a timer".to_string())
        .with_usage("<FOCUS> <BREAK>".to_string())
        .with_arg(ArgDef::new("focus".to_string(), "Minutes of focus".to_string()))
        .with_arg(ArgDef::new("break".to_string(), "Minutes of break".to_string()).optional());
    assert_eq!(cmd.name, "start");
    assert_eq!(cmd.usage, Some("<FOCUS> <BREAK>".to_string()));
    assert_eq!(cmd.args.len(), 2);
    assert!(cmd.args[0].required);
    assert!(!cmd.args[1].required);
    assert_eq!(cmd.args[1].name, "break");
}

#[test]
fn context_extra_replaces_existing_key() {
    let c = PluginContext::new("/data".to_string())
        .with_extra("a".to_string(), "1".to_string())
        .with_extra("b".to_string(), "2".to_string())
        .with_extra("a".to_string(), "3".to_string())
        .with_config("{}".to_string());
    assert_eq!(c.data_dir, "/data");
    assert_eq!(c.extra.len(), 2);
    assert!(c.extra.contains(&("a".to_string(), "3".to_string())));
    assert!(c.extra.contains(&("b".to_string(), "2".to_string())));
    assert_eq!(c.config_json, Some("{}".to_string()));
}

#[test]
fn raw_plugin_null_check() {
    assert!(RawPlugin { data: 0, vtable: 8 }.is_null());
    assert!(!RawPlugin { data: 16, vtable: 8 }.is_null());
}

#[test]
fn plugin_error_constructors() {
    match PluginError::invalid_arg("n".to_string(), "not a number".to_string()) {
        PluginError::InvalidArg { arg, message } => {
            assert_eq!(arg, "n");
            assert_eq!(message, "not a number");
        }
        _ => panic!(),
    }
    match PluginError::arg_out_of_range("n".to_string(), 9, 1, 5) {
        PluginError::ArgOutOfRange { value, min, max, .. } => assert_eq!((value, min, max), (9, 1, 5)),
        _ => panic!(),
    }
    match PluginError::ipc_connection_with_source("lost".to_string(), "reset".to_string()) {
        PluginError::IpcConnection { message, source } => {
            assert_eq!(message, "lost");
            assert_eq!(source, Some("reset".to_string()));
        }
        _ => panic!(),
    }
    assert!(matches!(PluginError::ipc_connection("x".to_string()), PluginError::IpcConnection { source: None, .. }));
    assert!(matches!(PluginError::daemon_not_running(), PluginError::DaemonNotRunning { source: None }));
    assert!(matches!(
        PluginError::daemon_not_running_with_source("e".to_string()),
        PluginError::DaemonNotRunning { source: Some(_) }
    ));
}

#[test]
fn has_command_looks_up_listed_commands() {
    let mut reg: PluginManager<Echo, ()> = PluginManager::new();
    reg.register_static(Echo::new("echo")).ok();
    assert!(reg.has_command("echo", "say"));
    assert!(!reg.has_command("echo", "shout"));
    assert!(!reg.has_command("other", "say"));
    let cmds = vec![
        CommandDef::new("start".to_string(), "s".to_string()),
        CommandDef::new("stop".to_string(), "t".to_string()),
    ];
    assert!(taiga_plugin_api::registry::lists_command(&cmds, "stop"));
    assert!(!taiga_plugin_api::registry::lists_command(&cmds, "sto"));
    assert!(!taiga_plugin_api::registry::lists_command(&Vec::new(), "stop"));
}

#[test]
fn register_named_and_hook_outcomes() {
    let mut reg: PluginManager<Echo, String> = PluginManager::new();
    assert!(reg.register_named("a".to_string(), Echo::new("ignored"), Some("liba.so".to_string())).is_ok());
    match reg.register_named("a".to_string(), Echo::new("a"), None) {
        Err(RegistryError::DuplicateName(n)) => assert_eq!(n, "a"),
        _ => panic!("expected DuplicateName"),
    }
    let failed = reg.register_after_hook(
        "b".to_string(),
        Echo::new("b"),
        Err(PluginError::Other("boom".to_string())),
    );
    match failed {
        Err(RegistryError::LoadHookFailed { name, error: PluginError::Other(m) }) => {
            assert_eq!(name, "b");
            assert_eq!(m, "boom");
        }
        _ => panic!("expected LoadHookFailed"),
    }
    assert!(reg.register_after_hook("b".to_string(), Echo::new("b"), Ok(())).is_ok());
    assert_eq!(reg.plugin_names(), vec!["a", "b"]);
    let objs = reg.plugins();
    assert_eq!(objs.len(), 2);
    assert_eq!(objs[0].name, "ignored");
    assert_eq!(objs[1].name, "b");
}

#[test]
fn command_outcome_passes_plugin_result_through() {
    match command_outcome(Ok(CommandResult::Async("started".to_string()))) {
        Ok(CommandResult::Async(m)) => assert_eq!(m, "started"),
        _ => panic!(),
    }
    match command_outcome(Err(PluginError::CommandFailed("no".to_string()))) {
        Err(RegistryError::CommandFailed(PluginError::CommandFailed(m))) => assert_eq!(m, "no"),
        _ => panic!(),
    }
}

#[test]
fn registered_plugin_is_returned_by_get() {
    let mut reg: PluginManager<Echo, String> = PluginManager::new();
    assert!(reg.register_dynamic(Echo::new("first"), "libfirst.so".to_string()).is_ok());
    assert!(reg.register_static(Echo::new("second")).is_ok());
    assert_eq!(reg.get("first").unwrap().loads.get(), 0);
    assert_eq!(reg.get("second").unwrap().loads.get(), 1);
    let dup = Echo::new("second");
    match reg.register_static(dup) {
        Err(RegistryError::DuplicateName(n)) => assert_eq!(n, "second"),
        _ => panic!("expected DuplicateName"),
    }
    // The earlier holder stays, and its hook ran once only.
    assert_eq!(reg.get("second").unwrap().loads.get(), 1);
    reg.unload_all();
    assert!(reg.plugins().is_empty());
    assert!(!reg.has_plugin("first"));
}
