use std::sync::atomic::{AtomicUsize, Ordering};
use std::sync::{Arc, Mutex};

use zygisk::binding::{
    ApiFunctions, HostContext, HostFn, ModuleAbi, RawApiTable, RawModule, Total, Trampolines,
};
use zygisk::entry::{
    api_after_registration, companion_entry_impl, module_entry_impl, register_module,
};
use zygisk::{StateFlags, ZygiskApi, ZygiskModule, ZygiskOption, API_VERSION};

const CONTEXT: HostContext = HostContext { addr: 0x7a79 };

/// A stand-in for the host's record of how an application is specialized.
#[derive(Clone, Debug, PartialEq)]
struct AppArgs {
    uid: i32,
    nice_name: String,
}

/// A stand-in for the host's record of how the system server is specialized.
#[derive(Clone, Debug, PartialEq)]
struct ServerArgs {
    uid: i32,
    capabilities: i64,
}

fn app_args(uid: i32, nice_name: &str) -> AppArgs {
    AppArgs { uid, nice_name: nice_name.to_string() }
}

/// A call of a specialization hook, with the record as the hook found it.
#[derive(Clone, Debug, PartialEq)]
enum Call {
    PreApp(AppArgs),
    PostApp(AppArgs),
    PreServer(ServerArgs),
    PostServer(ServerArgs),
}

/// What a probe saw in its load hook.
#[derive(Debug, PartialEq)]
struct Load {
    env: u64,
    companion: i32,
    module_dir: i32,
    flags: StateFlags,
}

/// A module that records every call of its hooks. Its pre-specialization hooks
/// rewrite the record.
#[derive(Default)]
struct Probe {
    loads: Mutex<Vec<Load>>,
    hooks: Mutex<Vec<Call>>,
}

impl ZygiskModule<AppArgs, ServerArgs, u64> for Probe {
    fn on_load(&self, api: ZygiskApi, env: u64) {
        api.set_option(ZygiskOption::ForceDenylistUnmount);
        self.loads.lock().unwrap().push(Load {
            env,
            companion: api.connect_companion(),
            module_dir: api.get_module_dir(),
            flags: api.get_flags(),
        });
    }

    fn pre_app_specialize(&self, args: &mut AppArgs) {
        self.hooks.lock().unwrap().push(Call::PreApp(args.clone()));
        args.uid += 1;
        args.nice_name.push_str("+");
    }

    fn post_app_specialize(&self, args: &AppArgs) {
        self.hooks.lock().unwrap().push(Call::PostApp(args.clone()));
    }

    fn pre_server_specialize(&self, args: &mut ServerArgs) {
        self.hooks.lock().unwrap().push(Call::PreServer(args.clone()));
        args.capabilities = !args.capabilities;
    }

    fn post_server_specialize(&self, args: &ServerArgs) {
        self.hooks.lock().unwrap().push(Call::PostServer(args.clone()));
    }
}

/// A module that keeps every default.
struct Quiet;

impl ZygiskModule<AppArgs, ServerArgs, u64> for Quiet {}

/// A module for a host that speaks JNI, which is the default.
struct DummyModule;

impl ZygiskModule<AppArgs, ServerArgs> for DummyModule {}

/// A module for a host that speaks JNI, with a load hook of its own.
struct JniModule;

impl ZygiskModule<AppArgs, ServerArgs> for JniModule {
    fn on_load(&self, api: ZygiskApi, _env: jni::JNIEnv) {
        api.set_option(ZygiskOption::DlcloseModuleLibrary);
    }
}

fn probe() -> &'static Probe {
    Box::leak(Box::new(Probe::default()))
}

fn no_functions() -> ApiFunctions {
    ApiFunctions {
        this: CONTEXT,
        connect_companion: None,
        set_option: None,
        get_module_dir: None,
        get_flags: None,
    }
}

type Abi<M> = ModuleAbi<AppArgs, ServerArgs, u64, M>;

type Context<M> = RawModule<AppArgs, ServerArgs, u64, M>;

type Records<M> = Arc<Mutex<Vec<&'static Abi<M>>>>;

fn records<M: ZygiskModule<AppArgs, ServerArgs, u64> + ?Sized>() -> Records<M> {
    Arc::new(Mutex::new(Vec::new()))
}

/// A table whose registration function answers `accept` and keeps the record,
/// and whose other functions are missing.
fn table_that_answers<M: ZygiskModule<AppArgs, ServerArgs, u64> + ?Sized + 'static>(
    accept: bool,
    records: Records<M>,
) -> RawApiTable<impl HostFn<&'static Abi<M>, bool>> {
    RawApiTable {
        register_module: Some(Total::new(move |abi: &'static Abi<M>| {
            records.lock().unwrap().push(abi);
            accept
        })),
        functions: no_functions(),
    }
}

#[test]
fn accepted_registration_runs_the_load_hook_once() {
    let records = records::<Probe>();
    let table = Box::leak(Box::new(table_that_answers(true, records.clone())));
    let module = probe();
    module_entry_impl(module, table, 0xe4u64);
    assert_eq!(records.lock().unwrap().len(), 1);
    assert_eq!(
        *module.loads.lock().unwrap(),
        vec![Load { env: 0xe4, companion: -1, module_dir: -1, flags: StateFlags::empty() }],
    );
    assert!(module.hooks.lock().unwrap().is_empty());
}

#[test]
fn refused_registration_never_runs_the_load_hook() {
    let records = records::<Probe>();
    let table = Box::leak(Box::new(table_that_answers(false, records.clone())));
    let module = probe();
    module_entry_impl(module, table, 0xe4u64);
    assert_eq!(records.lock().unwrap().len(), 1);
    assert!(module.loads.lock().unwrap().is_empty());
    assert!(module.hooks.lock().unwrap().is_empty());
}

#[test]
fn the_load_hook_speaks_to_the_table_of_the_entry() {
    let calls = Arc::new(AtomicUsize::new(0));
    let counter = calls.clone();
    let mut table = table_that_answers(true, records::<Probe>());
    table.functions.connect_companion = Some(Box::new(Total::new(move |_: HostContext| {
        counter.fetch_add(1, Ordering::SeqCst);
        11
    })));
    table.functions.get_flags = Some(Box::new(Total::new(|_: HostContext| 2u32)));
    let table = Box::leak(Box::new(table));
    let module = probe();
    module_entry_impl(module, table, 5u64);
    assert_eq!(calls.load(Ordering::SeqCst), 1);
    assert_eq!(
        *module.loads.lock().unwrap(),
        vec![Load {
            env: 5,
            companion: 11,
            module_dir: -1,
            flags: StateFlags::from_bits(2).unwrap(),
        }],
    );
}

#[test]
fn the_registered_record_declares_the_interface_version() {
    let records = records::<Probe>();
    let table = Box::leak(Box::new(table_that_answers(true, records.clone())));
    module_entry_impl(probe(), table, 0u64);
    let abi = records.lock().unwrap()[0];
    assert_eq!(abi.api_version(), API_VERSION);
    assert_eq!(abi.api_version(), 2);
}

#[test]
fn the_registered_record_holds_the_module_and_the_functions_of_the_entry() {
    let records = records::<Probe>();
    let table = Box::leak(Box::new(table_that_answers(true, records.clone())));
    let module = probe();
    module_entry_impl(module, table, 0u64);
    let abi = records.lock().unwrap()[0];
    assert!(std::ptr::eq(abi.this().inner, module));
    assert!(std::ptr::eq(abi.this().api_table, &table.functions));
}

#[test]
fn each_entry_point_reaches_its_own_hook_with_the_same_arguments() {
    let records = records::<Probe>();
    let table = Box::leak(Box::new(table_that_answers(true, records.clone())));
    let module = probe();
    module_entry_impl(module, table, 0u64);
    let abi = records.lock().unwrap()[0];

    let mut app = app_args(0x5e00, "sentinel");
    abi.pre_app_specialize(&mut app);
    assert_eq!(*module.hooks.lock().unwrap(), vec![Call::PreApp(app_args(0x5e00, "sentinel"))]);
    assert_eq!(app, app_args(0x5e01, "sentinel+"));
    abi.post_app_specialize(&app);
    assert_eq!(module.hooks.lock().unwrap()[1..], [Call::PostApp(app_args(0x5e01, "sentinel+"))]);
    assert_eq!(app, app_args(0x5e01, "sentinel+"));

    let mut server = ServerArgs { uid: 1000, capabilities: 0x7700 };
    abi.pre_server_specialize(&mut server);
    assert_eq!(
        module.hooks.lock().unwrap()[2..],
        [Call::PreServer(ServerArgs { uid: 1000, capabilities: 0x7700 })],
    );
    assert_eq!(server, ServerArgs { uid: 1000, capabilities: !0x7700 });
    abi.post_server_specialize(&server);
    assert_eq!(
        module.hooks.lock().unwrap()[3..],
        [Call::PostServer(ServerArgs { uid: 1000, capabilities: !0x7700 })],
    );
    assert_eq!(server, ServerArgs { uid: 1000, capabilities: !0x7700 });
    assert_eq!(module.loads.lock().unwrap().len(), 1);
}

#[test]
fn entry_points_behind_a_trait_object_reach_the_same_hooks() {
    let records = records::<Probe>();
    let table = Box::leak(Box::new(table_that_answers(true, records.clone())));
    let module = probe();
    module_entry_impl(module, table, 0u64);
    let abi = records.lock().unwrap()[0];
    let of_record: &dyn Trampolines<AppArgs, ServerArgs> = abi;
    let of_context: &dyn Trampolines<AppArgs, ServerArgs> = abi.this();

    let mut app = app_args(10, "");
    of_record.pre_app_specialize(&mut app);
    of_context.pre_app_specialize(&mut app);
    of_record.post_app_specialize(&app);
    assert_eq!(app, app_args(12, "++"));
    assert_eq!(
        *module.hooks.lock().unwrap(),
        vec![
            Call::PreApp(app_args(10, "")),
            Call::PreApp(app_args(11, "+")),
            Call::PostApp(app_args(12, "++")),
        ],
    );
}

#[test]
fn entry_points_of_a_context_run_the_hooks_of_its_module() {
    let first = probe();
    let second = probe();
    let functions: &'static ApiFunctions = Box::leak(Box::new(no_functions()));
    let context: &'static Context<Probe> = Box::leak(Box::new(RawModule::new(first, functions)));
    let abi = ModuleAbi::from_module(context);
    assert_eq!(abi.api_version(), API_VERSION);
    assert!(std::ptr::eq(abi.this(), context));
    let mut args = app_args(40, "a");
    abi.pre_app_specialize(&mut args);
    context.post_app_specialize(&args);
    assert_eq!(
        *first.hooks.lock().unwrap(),
        vec![Call::PreApp(app_args(40, "a")), Call::PostApp(app_args(41, "a+"))],
    );
    assert!(second.hooks.lock().unwrap().is_empty());
}

#[test]
fn default_hooks_do_nothing() {
    let functions: &'static ApiFunctions = Box::leak(Box::new(no_functions()));
    let context: &'static Context<Quiet> = Box::leak(Box::new(RawModule::new(&Quiet, functions)));
    let abi = ModuleAbi::from_module(context);
    let mut app = app_args(8, "quiet");
    abi.pre_app_specialize(&mut app);
    abi.post_app_specialize(&app);
    assert_eq!(app, app_args(8, "quiet"));
    let mut server = ServerArgs { uid: 9, capabilities: 3 };
    abi.pre_server_specialize(&mut server);
    abi.post_server_specialize(&server);
    assert_eq!(server, ServerArgs { uid: 9, capabilities: 3 });
    let table = Box::leak(Box::new(table_that_answers(true, records::<Quiet>())));
    module_entry_impl(&Quiet, table, 1u64);
}

#[test]
fn a_module_for_a_jni_host_needs_no_hook() {
    fn is_module<M: ZygiskModule<AppArgs, ServerArgs>>(_: &M) {}
    is_module(&DummyModule);
    is_module(&JniModule);
    let mut args = app_args(3, "dummy");
    DummyModule.pre_app_specialize(&mut args);
    DummyModule.post_app_specialize(&args);
    assert_eq!(args, app_args(3, "dummy"));
}

#[test]
fn a_module_behind_a_trait_object_loads_as_well() {
    let records = records::<dyn ZygiskModule<AppArgs, ServerArgs, u64>>();
    let table = Box::leak(Box::new(table_that_answers(true, records.clone())));
    let concrete = probe();
    let module: &'static dyn ZygiskModule<AppArgs, ServerArgs, u64> = concrete;
    module_entry_impl(module, table, 77u64);
    assert_eq!(concrete.loads.lock().unwrap().len(), 1);
    assert_eq!(concrete.loads.lock().unwrap()[0].env, 77);
    let abi = records.lock().unwrap()[0];
    let mut args = ServerArgs { uid: 0, capabilities: 600 };
    abi.pre_server_specialize(&mut args);
    assert_eq!(args.capabilities, !600);
    assert_eq!(
        *concrete.hooks.lock().unwrap(),
        vec![Call::PreServer(ServerArgs { uid: 0, capabilities: 600 })],
    );
}

fn quiet_record() -> &'static Abi<Quiet> {
    let functions: &'static ApiFunctions = Box::leak(Box::new(no_functions()));
    let context: &'static Context<Quiet> = Box::leak(Box::new(RawModule::new(&Quiet, functions)));
    Box::leak(Box::new(ModuleAbi::from_module(context)))
}

#[test]
fn register_module_hands_the_record_over_and_the_answer_back() {
    let abi = quiet_record();
    for accept in [true, false] {
        let records = records::<Quiet>();
        let table = Box::leak(Box::new(table_that_answers(accept, records.clone())));
        assert_eq!(register_module(table, abi).is_ok(), accept);
        assert_eq!(records.lock().unwrap().len(), 1);
        assert!(std::ptr::eq(records.lock().unwrap()[0], abi));
    }
}

#[test]
fn a_refused_registration_is_the_error_without_a_reason() {
    let table = Box::leak(Box::new(table_that_answers(false, records::<Quiet>())));
    let error = register_module(table, quiet_record()).unwrap_err();
    assert_eq!(error.to_string(), "an error occurred within Zygisk (see logcat for details)");
}

#[test]
fn api_after_registration_follows_the_host_answer() {
    let calls = Arc::new(AtomicUsize::new(0));
    let counter = calls.clone();
    let mut table = table_that_answers(true, records::<Quiet>());
    table.functions.get_module_dir = Some(Box::new(Total::new(move |_: HostContext| {
        counter.fetch_add(1, Ordering::SeqCst);
        23
    })));
    let table = Box::leak(Box::new(table));
    assert!(api_after_registration(table, false).is_none());
    let api = api_after_registration(table, true).unwrap();
    assert_eq!(api.get_module_dir(), 23);
    assert_eq!(calls.load(Ordering::SeqCst), 1);
}

#[test]
fn companion_entry_hands_the_descriptor_to_the_handler() {
    let seen = Arc::new(Mutex::new(Vec::new()));
    let sink = seen.clone();
    companion_entry_impl(move |client: i32| sink.lock().unwrap().push(client), 37);
    assert_eq!(*seen.lock().unwrap(), vec![37]);
}
