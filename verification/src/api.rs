//! The safe face of the host's table.

use vstd::prelude::*;
use crate::binding::{ApiFunctions, RawApiTable, ZygiskOption, NO_DESCRIPTOR};
use crate::flags::{recognized, StateFlags, UnsupportedFlags};

verus! {

/// What a descriptor-returning operation hands to its caller: the host's
/// answer where the host offers the operation, the failure value where it
/// does not.
pub fn descriptor_or_failure(reply: Option<i32>) -> (fd: i32)
    ensures
        fd == match reply {
            Some(descriptor) => descriptor,
            None => NO_DESCRIPTOR,
        },
{
    match reply {
        Some(descriptor) => descriptor,
        None => NO_DESCRIPTOR,
    }
}

/// What a flag word of the host means: the set with exactly that word where
/// the word holds defined bits only; the word itself, refused, where it holds
/// any other bit.
pub open spec fn meaning_of(word: u32, flags: Result<StateFlags, UnsupportedFlags>) -> bool {
    match flags {
        Ok(set) => recognized(word) && set.word() == word,
        Err(refused) => !recognized(word) && refused.bits == word,
    }
}

/// What the flag query hands to its caller: the empty set where the host does
/// not offer the query, and what the host's word means where it does.
pub fn flags_or_empty(reply: Option<u32>) -> (flags: Result<StateFlags, UnsupportedFlags>)
    ensures
        match reply {
            Some(word) => meaning_of(word, flags),
            None => flags matches Ok(set) && set.word() == 0,
        },
        flags matches Ok(set) ==> set.wf(),
        flags matches Err(refused) ==> !recognized(refused.bits),
{
    match reply {
        Some(word) => match StateFlags::from_bits(word) {
            Some(set) => Ok(set),
            None => Err(UnsupportedFlags { bits: word }),
        },
        None => Ok(StateFlags::empty()),
    }
}

/// The host's table, made safe to use: every operation answers, whether or not
/// the host offers it.
pub struct ZygiskApi {
    inner: &'static ApiFunctions,
}

impl ZygiskApi {
    /// The functions of the host's table that this value speaks to.
    pub closed spec fn table(&self) -> &'static ApiFunctions {
        self.inner
    }

    /// Wraps the host's table: the value speaks to the functions of that very
    /// table.
    pub fn from_raw<R>(inner: &'static RawApiTable<R>) -> (api: ZygiskApi)
        ensures
            *api.table() == inner.functions,
    {
        ZygiskApi { inner: &inner.functions }
    }

    /// Connects to the companion process of the module, which runs with root
    /// privileges, and returns the descriptor of a socket to it. The host
    /// allows this in the pre-specialization hooks only.
    ///
    /// Where the host offers the operation, the result is the host's answer
    /// to a call with the table's context, which is -1 where the connection
    /// failed. Where it does not, the result is -1 and nothing is called.
    pub fn connect_companion(&self) -> (fd: i32)
        ensures
            match self.table().connect_companion {
                Some(func) => func.answers(self.table().this, fd),
                None => fd == NO_DESCRIPTOR,
            },
    {
        let reply = match &self.inner.connect_companion {
            Some(func) => Some(func.call(self.inner.this)),
            None => None,
        };
        descriptor_or_failure(reply)
    }

    /// Returns the descriptor of the module's own directory. The host allows
    /// this in the pre-specialization hooks only.
    ///
    /// Where the host offers the operation, the result is the host's answer
    /// to a call with the table's context, which is -1 on an error. Where it
    /// does not, the result is -1 and nothing is called.
    pub fn get_module_dir(&self) -> (fd: i32)
        ensures
            match self.table().get_module_dir {
                Some(func) => func.answers(self.table().this, fd),
                None => fd == NO_DESCRIPTOR,
            },
    {
        let reply = match &self.inner.get_module_dir {
            Some(func) => Some(func.call(self.inner.this)),
            None => None,
        };
        descriptor_or_failure(reply)
    }

    /// Sets one option for the module: calls the host with the table's context
    /// and the option where the host offers the operation, and does nothing
    /// where it does not.
    pub fn set_option(&self, option: ZygiskOption)
        ensures
            self.table().set_option matches Some(func) ==> func.answers(
                (self.table().this, option),
                (),
            ),
    {
        match &self.inner.set_option {
            Some(func) => func.call((self.inner.this, option)),
            None => {},
        }
    }

    /// Whether every flag word that the host may answer holds defined bits
    /// only. The host promises as much for the interface version it agreed
    /// on; a word with any other bit means that module and host have drifted
    /// apart.
    pub open spec fn host_keeps_to_defined_flags(&self) -> bool {
        self.table().get_flags matches Some(func) ==> forall|word: u32|
            func.answers(self.table().this, word) ==> recognized(word)
    }

    /// Asks the host for the state flags of the current process.
    ///
    /// Where the host does not offer the query, the result is the empty set and
    /// nothing is called. Where it does, the result is the set with exactly
    /// the word that the host answered.
    ///
    /// A word with an undefined bit has no set, and a module must not go on
    /// with one: this function is for a host that keeps to the defined flags.
    /// [`ZygiskApi::try_get_flags`] is for a caller that cannot know.
    pub fn get_flags(&self) -> (flags: StateFlags)
        requires
            self.host_keeps_to_defined_flags(),
        ensures
            match self.table().get_flags {
                Some(func) => func.answers(self.table().this, flags.word()),
                None => flags.word() == 0,
            },
            flags.wf(),
    {
        match &self.inner.get_flags {
            Some(func) => {
                let word = func.call(self.inner.this);
                StateFlags::from_bits(word).expect("unsupported flag returned by Magisk")
            },
            None => StateFlags::empty(),
        }
    }

    /// Asks the host for the state flags of the current process, and tests the
    /// host's word.
    ///
    /// Where the host does not offer the query, the result is the empty set and
    /// nothing is called. Where it does, the host's word is decoded: a word of
    /// defined bits gives the set with exactly that word; a word with any other
    /// bit is refused and comes back as the error, and the caller must not go
    /// on as if it had flags.
    pub fn try_get_flags(&self) -> (flags: Result<StateFlags, UnsupportedFlags>)
        ensures
            match self.table().get_flags {
                Some(func) => exists|word: u32|
                    func.answers(self.table().this, word) && meaning_of(word, flags),
                None => flags matches Ok(set) && set.word() == 0,
            },
            flags matches Ok(set) ==> set.wf(),
            flags matches Err(refused) ==> !recognized(refused.bits),
    {
        let reply = match &self.inner.get_flags {
            Some(func) => Some(func.call(self.inner.this)),
            None => None,
        };
        flags_or_empty(reply)
    }
}

} // verus!
