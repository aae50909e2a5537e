//! The hooks that a module offers, and the record of entry points that the host
//! gets in exchange for them.

use vstd::prelude::*;
use core::marker::PhantomData;
pub use jni::JNIEnv;
use crate::api::ZygiskApi;
use crate::binding::{ApiFunctions, ModuleAbi, RawModule, Trampolines, API_VERSION};

verus! {

/// `jni::JNIEnv`, the handle to the Java runtime of the calling thread. Nothing
/// is stated of it: a value travels from the host to the load hook and is never
/// looked into.
#[verifier::external_type_specification]
#[verifier::external_body]
pub struct ExJNIEnv<'local>(jni::JNIEnv<'local>);

/// The hooks of a module. Each has a default that does nothing, so a module
/// writes only the ones it needs. The host calls them in its own order and
/// gives no notice of a hook that it will not call.
///
/// `AppArgs` and `ServerArgs` are the host's records of the arguments with
/// which an application process and the system server process are
/// specialized. `Env` is the handle to the managed runtime that the host
/// passes at load time: a [`JNIEnv`] unless the module says otherwise. This
/// layer never looks inside any of them.
pub trait ZygiskModule<AppArgs, ServerArgs, Env = JNIEnv<'static>> {
    /// Called when the module has been loaded into the target process and the
    /// host has accepted its registration, and never otherwise. `api` gives
    /// access to the host.
    fn on_load(&self, api: ZygiskApi, env: Env) {
    }

    /// Called before an application process is specialized. The process still
    /// has the privileges of the process it was forked from, and this is where
    /// a connection to the companion process can be opened. The hook may read
    /// and rewrite the arguments of the specialization.
    ///
    /// The default leaves the arguments as they are.
    fn pre_app_specialize(&self, args: &mut AppArgs)
        default_ensures
            *final(args) == *old(args),
    {
    }

    /// Called after an application process is specialized. The process now
    /// has the privileges of the application, and no more. The arguments can
    /// only be read.
    fn post_app_specialize(&self, args: &AppArgs) {
    }

    /// Called before the system server process is specialized. The hook may
    /// read and rewrite the arguments of the specialization.
    ///
    /// The default leaves the arguments as they are.
    fn pre_server_specialize(&self, args: &mut ServerArgs)
        default_ensures
            *final(args) == *old(args),
    {
    }

    /// Called after the system server process is specialized. The arguments
    /// can only be read.
    fn post_server_specialize(&self, args: &ServerArgs) {
    }
}

impl<
    AppArgs: 'static,
    ServerArgs: 'static,
    Env: 'static,
    M: ZygiskModule<AppArgs, ServerArgs, Env> + ?Sized + 'static,
> RawModule<AppArgs, ServerArgs, Env, M> {
    /// Puts a module and the functions of its host together.
    pub fn new(inner: &'static M, api_table: &'static ApiFunctions) -> (context: Self)
        ensures
            context.inner == inner,
            context.api_table == api_table,
    {
        RawModule { inner, api_table, hooks: PhantomData }
    }
}

/// Each entry point hands its argument record, as it came, to the hook of the
/// same name of the context's module, and does nothing else: what it leaves
/// behind is what that hook leaves behind.
impl<
    AppArgs: 'static,
    ServerArgs: 'static,
    Env: 'static,
    M: ZygiskModule<AppArgs, ServerArgs, Env> + ?Sized + 'static,
> Trampolines<AppArgs, ServerArgs> for RawModule<AppArgs, ServerArgs, Env, M> {
    fn pre_app_specialize(&self, args: &mut AppArgs)
        ensures
            exists|handed: &mut AppArgs|
                mut_ref_current(handed) == *old(args) && mut_ref_future(handed) == *final(args)
                    && call_ensures(M::pre_app_specialize, (self.inner, handed), ()),
    {
        self.inner.pre_app_specialize(args)
    }

    fn post_app_specialize(&self, args: &AppArgs)
        ensures
            call_ensures(M::post_app_specialize, (self.inner, args), ()),
    {
        self.inner.post_app_specialize(args)
    }

    fn pre_server_specialize(&self, args: &mut ServerArgs)
        ensures
            exists|handed: &mut ServerArgs|
                mut_ref_current(handed) == *old(args) && mut_ref_future(handed) == *final(args)
                    && call_ensures(M::pre_server_specialize, (self.inner, handed), ()),
    {
        self.inner.pre_server_specialize(args)
    }

    fn post_server_specialize(&self, args: &ServerArgs)
        ensures
            call_ensures(M::post_server_specialize, (self.inner, args), ()),
    {
        self.inner.post_server_specialize(args)
    }
}

impl<
    AppArgs: 'static,
    ServerArgs: 'static,
    Env: 'static,
    M: ZygiskModule<AppArgs, ServerArgs, Env> + ?Sized + 'static,
> ModuleAbi<AppArgs, ServerArgs, Env, M> {
    #[verifier::type_invariant]
    spec fn declares_this_version(self) -> bool {
        self.api_version == API_VERSION
    }

    /// The version that the record declares.
    pub closed spec fn version(&self) -> i64 {
        self.api_version
    }

    /// The context in which the record's entry points run.
    pub closed spec fn context(&self) -> &'static RawModule<AppArgs, ServerArgs, Env, M> {
        self.this
    }

    /// Assembles the record for a module in its context: the version is that
    /// of this interface, and the entry points run in the context given, and
    /// so reach the hooks of its module.
    pub fn from_module(module: &'static RawModule<AppArgs, ServerArgs, Env, M>) -> (abi: Self)
        ensures
            abi.version() == API_VERSION,
            abi.context() == module,
    {
        ModuleAbi { api_version: API_VERSION, this: module }
    }

    /// The version that the record declares.
    #[verifier::when_used_as_spec(version)]
    pub fn api_version(&self) -> (version: i64)
        ensures
            version == self.version(),
            version == API_VERSION,
    {
        proof {
            use_type_invariant(self);
        }
        self.api_version
    }

    /// The context in which the record's entry points run.
    #[verifier::when_used_as_spec(context)]
    pub fn this(&self) -> (context: &'static RawModule<AppArgs, ServerArgs, Env, M>)
        ensures
            context == self.context(),
    {
        self.this
    }
}

/// The entry points of a record are those of its context: each call reaches
/// the hook of the same name of the module in the record's context, with the
/// argument record as it came.
impl<
    AppArgs: 'static,
    ServerArgs: 'static,
    Env: 'static,
    M: ZygiskModule<AppArgs, ServerArgs, Env> + ?Sized + 'static,
> Trampolines<AppArgs, ServerArgs> for ModuleAbi<AppArgs, ServerArgs, Env, M> {
    fn pre_app_specialize(&self, args: &mut AppArgs)
        ensures
            exists|handed: &mut AppArgs|
                mut_ref_current(handed) == *old(args) && mut_ref_future(handed) == *final(args)
                    && call_ensures(M::pre_app_specialize, (self.context().inner, handed), ()),
    {
        self.this.pre_app_specialize(args)
    }

    fn post_app_specialize(&self, args: &AppArgs)
        ensures
            call_ensures(M::post_app_specialize, (self.context().inner, args), ()),
    {
        self.this.post_app_specialize(args)
    }

    fn pre_server_specialize(&self, args: &mut ServerArgs)
        ensures
            exists|handed: &mut ServerArgs|
                mut_ref_current(handed) == *old(args) && mut_ref_future(handed) == *final(args)
                    && call_ensures(M::pre_server_specialize, (self.context().inner, handed), ()),
    {
        self.this.pre_server_specialize(args)
    }

    fn post_server_specialize(&self, args: &ServerArgs)
        ensures
            call_ensures(M::post_server_specialize, (self.context().inner, args), ()),
    {
        self.this.post_server_specialize(args)
    }
}

} // verus!
