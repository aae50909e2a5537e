//! The data that crosses the boundary with the host, as plain values: the
//! host's table of functions, the options a module may set, and the record
//! that a module registers.

use vstd::prelude::*;
use core::marker::PhantomData;
use crate::module::ZygiskModule;

verus! {

/// The version of the host interface that a registered module declares.
pub const API_VERSION: i64 = 2;

/// What a descriptor-returning operation answers when the host does not offer
/// it, and what the host itself answers when it fails.
pub const NO_DESCRIPTOR: i32 = -1;

/// The context that the host keeps for a module. It comes with the host's table
/// and goes back, as it came, as the first argument of every call into the
/// host. Nothing here looks at the address.
#[derive(Clone, Copy, Debug, PartialEq, Eq, Structural)]
pub struct HostContext {
    pub addr: usize,
}

/// An option that a module may set for itself, one per call.
#[derive(Clone, Copy, Debug, PartialEq, Eq, Structural)]
pub enum ZygiskOption {
    /// Run the denylist's unmount routines on this process, whether or not it
    /// is on the denylist.
    ForceDenylistUnmount,
    /// Unload the module's library once the post-specialization hook is done.
    DlcloseModuleLibrary,
}

impl ZygiskOption {
    /// The integer by which the host knows this option.
    pub open spec fn code_of(self) -> i32 {
        match self {
            ZygiskOption::ForceDenylistUnmount => 0,
            ZygiskOption::DlcloseModuleLibrary => 1,
        }
    }

    /// The integer by which the host knows this option.
    pub fn code(self) -> (code: i32)
        ensures
            code == self.code_of(),
    {
        match self {
            ZygiskOption::ForceDenylistUnmount => 0,
            ZygiskOption::DlcloseModuleLibrary => 1,
        }
    }
}

/// A function of the host, as this layer calls it: with arguments of one type,
/// for an answer of another. What the function does is the host's own
/// business. A contract speaks of it through `answers` alone.
pub trait HostFn<Args, Output> {
    /// Whether `output` is an answer of the function to a call with `args`.
    spec fn answers(&self, args: Args, output: Output) -> bool;

    fn call(&self, args: Args) -> (output: Output)
        ensures
            self.answers(args, output),
    ;
}

/// A function value that may be called with every argument of its type, which
/// is what it takes to stand in the host's table. Every function and closure
/// without a precondition is one.
#[verifier::reject_recursive_types(Args)]
#[verifier::reject_recursive_types(Output)]
#[verifier::reject_recursive_types(F)]
pub struct Total<Args, Output, F: Fn(Args) -> Output> {
    func: F,
    shape: PhantomData<(Args, Output)>,
}

impl<Args, Output, F: Fn(Args) -> Output> Total<Args, Output, F> {
    #[verifier::type_invariant]
    spec fn takes_every_argument(self) -> bool {
        forall|args: Args| call_requires(self.func, (args,))
    }

    /// The function value inside.
    pub closed spec fn function(&self) -> F {
        self.func
    }

    /// Wraps a function value that may be called with every argument.
    pub fn new(func: F) -> (total: Self)
        requires
            forall|args: Args| call_requires(func, (args,)),
        ensures
            total.function() == func,
    {
        Total { func, shape: PhantomData }
    }
}

/// The answers of a wrapped function value are its own.
impl<Args, Output, F: Fn(Args) -> Output> HostFn<Args, Output> for Total<Args, Output, F> {
    open spec fn answers(&self, args: Args, output: Output) -> bool {
        call_ensures(self.function(), (args,), output)
    }

    fn call(&self, args: Args) -> (output: Output) {
        proof {
            use_type_invariant(self);
        }
        (self.func)(args)
    }
}

/// A host function that takes the host's context and answers with a
/// descriptor: the connection to the companion process, or the module's
/// directory.
pub type DescriptorFn = dyn HostFn<HostContext, i32>;

/// The host function that takes the host's context and an option, and sets the
/// option for the module.
pub type SetOptionFn = dyn HostFn<(HostContext, ZygiskOption), ()>;

/// The host function that takes the host's context and reports the state flags
/// of the process, as a word.
pub type GetFlagsFn = dyn HostFn<HostContext, u32>;

/// The functions of the host that a loaded module may call, with the context
/// that each of them takes. Each function may be missing: a missing one stands
/// for an operation that the host does not offer.
pub struct ApiFunctions {
    pub this: HostContext,
    pub connect_companion: Option<Box<DescriptorFn>>,
    pub set_option: Option<Box<SetOptionFn>>,
    pub get_module_dir: Option<Box<DescriptorFn>>,
    pub get_flags: Option<Box<GetFlagsFn>>,
}

/// The host's table, as the host hands it over at load time. The host owns it
/// for the life of the process.
///
/// `R` is the host's registration function: it takes a module's record and
/// answers whether the module is now registered. The host promises that it is
/// there.
pub struct RawApiTable<R> {
    pub register_module: Option<R>,
    pub functions: ApiFunctions,
}

/// The entry points of a registered module, one per specialization hook. Each
/// runs in the context that the module was registered with.
///
/// `AppArgs` and `ServerArgs` are the host's records of the arguments with
/// which an application process and the system server process are specialized.
/// The records belong to the host. This layer hands them on by reference and
/// never looks inside, so it takes them as they are, whatever they are.
pub trait Trampolines<AppArgs, ServerArgs> {
    fn pre_app_specialize(&self, args: &mut AppArgs);

    fn post_app_specialize(&self, args: &AppArgs);

    fn pre_server_specialize(&self, args: &mut ServerArgs);

    fn post_server_specialize(&self, args: &ServerArgs);
}

/// A module together with the functions of the host that loaded it: the
/// context in which the module's entry points run. The type parameters are
/// those of the module's hooks; a context holds no value of them.
#[verifier::reject_recursive_types(AppArgs)]
#[verifier::reject_recursive_types(ServerArgs)]
#[verifier::reject_recursive_types(Env)]
#[verifier::reject_recursive_types(M)]
pub struct RawModule<
    AppArgs: 'static,
    ServerArgs: 'static,
    Env: 'static,
    M: ZygiskModule<AppArgs, ServerArgs, Env> + ?Sized + 'static,
> {
    pub inner: &'static M,
    pub api_table: &'static ApiFunctions,
    pub hooks: PhantomData<(AppArgs, ServerArgs, Env)>,
}

/// The record that a module registers with the host: the version of the
/// interface that the module declares, which is always [`API_VERSION`], and the
/// context in which the module's entry points run. The entry points
/// themselves are the record's implementation of [`Trampolines`].
#[verifier::reject_recursive_types(AppArgs)]
#[verifier::reject_recursive_types(ServerArgs)]
#[verifier::reject_recursive_types(Env)]
#[verifier::reject_recursive_types(M)]
pub struct ModuleAbi<
    AppArgs: 'static,
    ServerArgs: 'static,
    Env: 'static,
    M: ZygiskModule<AppArgs, ServerArgs, Env> + ?Sized + 'static,
> {
    pub(crate) api_version: i64,
    pub(crate) this: &'static RawModule<AppArgs, ServerArgs, Env, M>,
}

} // verus!
