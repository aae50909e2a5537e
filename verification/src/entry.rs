//! What runs when the host calls into a module: the load entry point and the
//! companion entry point, without the foreign calling convention around them.

use vstd::prelude::*;
use crate::api::ZygiskApi;
use crate::binding::{HostFn, ModuleAbi, RawApiTable, RawModule, API_VERSION};
use crate::error::ZygiskError;
use crate::module::ZygiskModule;

verus! {

/// `Box::leak` of the standard library: gives up the box and hands back a
/// reference to its content that is good for the rest of the process. The
/// content is what the box held.
#[verifier::external_body]
fn leak<T: 'static>(value: Box<T>) -> (place: &'static T)
    ensures
        *place == *value,
{
    Box::leak(value)
}

/// Whether `registered` is an answer of the registration function of `table` to
/// a call with the record `abi`.
pub open spec fn registration_answer<
    AppArgs: 'static,
    ServerArgs: 'static,
    Env: 'static,
    M: ZygiskModule<AppArgs, ServerArgs, Env> + ?Sized + 'static,
    R: HostFn<&'static ModuleAbi<AppArgs, ServerArgs, Env, M>, bool>,
>(
    table: &RawApiTable<R>,
    abi: &'static ModuleAbi<AppArgs, ServerArgs, Env, M>,
    registered: bool,
) -> bool {
    table.register_module matches Some(func) && func.answers(abi, registered)
}

/// Registers a module's record with the host: hands the host that very record
/// and reports its answer. The host answers yes or no and gives no reason, so a
/// refusal comes back as the error that holds none.
///
/// The host guarantees that its table holds the registration function: a
/// table without it is not a table of this interface.
pub fn register_module<
    AppArgs: 'static,
    ServerArgs: 'static,
    Env: 'static,
    M: ZygiskModule<AppArgs, ServerArgs, Env> + ?Sized + 'static,
    R: HostFn<&'static ModuleAbi<AppArgs, ServerArgs, Env, M>, bool>,
>(
    table: &'static RawApiTable<R>,
    abi: &'static ModuleAbi<AppArgs, ServerArgs, Env, M>,
) -> (outcome: Result<(), ZygiskError>)
    requires
        table.register_module is Some,
    ensures
        registration_answer(table, abi, outcome is Ok),
{
    let registered = match &table.register_module {
        Some(func) => func.call(abi),
        None => false,
    };
    if registered {
        Ok(())
    } else {
        Err(ZygiskError)
    }
}

/// What the load entry point owes the module once the host has answered the
/// registration: access to the host, through the functions of the very table
/// that the host supplied, if the host accepted the module; nothing if it
/// refused.
pub fn api_after_registration<R>(table: &'static RawApiTable<R>, registered: bool) -> (api: Option<
    ZygiskApi,
>)
    ensures
        api is Some <==> registered,
        api matches Some(granted) ==> *granted.table() == table.functions,
{
    if registered {
        Some(ZygiskApi::from_raw(table))
    } else {
        None
    }
}

/// Loads a module: puts the module and the host's functions into a context
/// that lasts as long as the process, builds the record of entry points over
/// it, registers the record with the host, and runs the module's load hook if
/// and only if the host accepted the registration. After a refusal the module
/// stays loaded and does nothing.
///
/// The host guarantees that its table holds the registration function: a table
/// without it is not a table of this interface.
///
/// What is known on return: the host was asked to register a record that
/// declares the version of this interface and whose entry points run in a
/// context of `module` and the functions of `table`; and where the host
/// accepted, the load hook of `module` has run, with `env` and with access to
/// the host through `table` itself.
pub fn module_entry_impl<
    AppArgs: 'static,
    ServerArgs: 'static,
    Env: 'static,
    M: ZygiskModule<AppArgs, ServerArgs, Env> + ?Sized + 'static,
    R: HostFn<&'static ModuleAbi<AppArgs, ServerArgs, Env, M>, bool>,
>(module: &'static M, table: &'static RawApiTable<R>, env: Env)
    requires
        table.register_module is Some,
    ensures
        exists|abi: &'static ModuleAbi<AppArgs, ServerArgs, Env, M>, registered: bool|
            {
                &&& #[trigger] registration_answer(table, abi, registered)
                &&& abi.version() == API_VERSION
                &&& abi.context().inner == module
                &&& *abi.context().api_table == table.functions
                &&& registered ==> exists|api: ZygiskApi|
                    *api.table() == table.functions && #[trigger] call_ensures(
                        M::on_load,
                        (module, api, env),
                        (),
                    )
            },
{
    let raw_module: &'static RawModule<AppArgs, ServerArgs, Env, M> = leak(
        Box::new(RawModule::new(module, &table.functions)),
    );
    let module_abi: &'static ModuleAbi<AppArgs, ServerArgs, Env, M> = leak(
        Box::new(ModuleAbi::from_module(raw_module)),
    );
    let registered = register_module(table, module_abi).is_ok();
    match api_after_registration(table, registered) {
        Some(api) => module.on_load(api, env),
        None => {},
    }
}

/// Runs in the companion process for each connection that a module opens: hands
/// the connection's descriptor, as it came, to the module's handler, which
/// owns it from then on.
pub fn companion_entry_impl<F: FnOnce(i32)>(handler: F, client: i32)
    requires
        call_requires(handler, (client,)),
    ensures
        call_ensures(handler, (client,), ()),
{
    handler(client)
}

} // verus!
