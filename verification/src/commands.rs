//! The command table: the mapping from command name to handler that the
//! host dispatches UI-originated invocations through.
//!
//! Names are unique within a table. A second registration under a name that
//! is already present is rejected at registration time and never silently
//! overwrites the earlier handler. The table is built once at startup and is
//! immutable afterwards.

use vstd::prelude::*;
use crate::version::get_app_version;
use crate::version::spec_app_version;

verus! {

/// A handler the UI layer can invoke by name. Every handler takes no input
/// and returns a string.
#[derive(Clone, Copy, Debug, PartialEq, Eq, Structural)]
pub enum CommandHandler {
    /// Returns the build-time version string.
    AppVersion,
}

/// What a handler returns, as a function of the handler alone: handlers have
/// no inputs and no state to read.
pub open spec fn spec_handler_output(h: CommandHandler) -> Seq<char> {
    match h {
        CommandHandler::AppVersion => spec_app_version(),
    }
}

/// Runs one handler and returns its output.
pub fn run_handler(h: &CommandHandler) -> (out: String)
    ensures
        out@ == spec_handler_output(*h),
{
    match h {
        CommandHandler::AppVersion => get_app_version(),
    }
}

/// One registered command: a name and the handler dispatched under it.
pub struct CommandEntry {
    pub name: String,
    pub handler: CommandHandler,
}

/// Whether some entry of `s` carries the name `n`.
pub open spec fn seq_contains_name(s: Seq<CommandEntry>, n: Seq<char>) -> bool {
    exists|i: int| 0 <= i < s.len() && s[i].name@ == n
}

/// Uniqueness of names: no two entries of `s` share a name.
pub open spec fn entries_wf(s: Seq<CommandEntry>) -> bool {
    forall|i: int, j: int|
        0 <= i < s.len() && 0 <= j < s.len() && i != j ==> s[i].name@ != s[j].name@
}

/// The reasons a registration can be refused.
#[derive(Clone, Copy, Debug, PartialEq, Eq, Structural)]
pub enum RegistrationError {
    /// A command under this name is already registered.
    DuplicateName,
}

/// The command table. Invariant: entry names are unique.
pub struct CommandTable {
    pub entries: Vec<CommandEntry>,
}

impl CommandTable {
    /// The table's invariant: no name is registered twice.
    pub open spec fn wf(&self) -> bool {
        entries_wf(self.entries@)
    }

    /// Whether a command is registered under `n`.
    pub open spec fn spec_contains_name(&self, n: Seq<char>) -> bool {
        seq_contains_name(self.entries@, n)
    }

    /// The handler registered under `n`; meaningful only when one is.
    pub open spec fn spec_handler_of(&self, n: Seq<char>) -> CommandHandler
        recommends
            self.spec_contains_name(n),
    {
        self.entries@[choose|i: int|
            0 <= i < self.entries@.len() && self.entries@[i].name@ == n].handler
    }

    /// An empty table: nothing registered.
    pub fn new() -> (t: CommandTable)
        ensures
            t.wf(),
            t.entries@.len() == 0,
    {
        CommandTable { entries: Vec::new() }
    }

    /// Whether a command is registered under `name`.
    pub fn contains_name(&self, name: &String) -> (r: bool)
        ensures
            r == self.spec_contains_name(name@),
    {
        let mut i: usize = 0;
        while i < self.entries.len()
            invariant
                0 <= i <= self.entries@.len(),
                forall|k: int| 0 <= k < i ==> self.entries@[k].name@ != name@,
            decreases self.entries@.len() - i,
        {
            if self.entries[i].name == *name {
                return true;
            }
            i = i + 1;
        }
        false
    }

    /// Registers `handler` under `name`. Succeeds exactly when no command is
    /// registered under that name yet; a duplicate name is rejected and the
    /// table is left exactly as it was — never silently overwritten.
    pub fn register(&mut self, name: String, handler: CommandHandler) -> (r: Result<
        (),
        RegistrationError,
    >)
        requires
            old(self).wf(),
        ensures
            final(self).wf(),
            r is Ok <==> !old(self).spec_contains_name(name@),
            r is Ok ==> final(self).entries@ == old(self).entries@.push(
                CommandEntry { name, handler },
            ),
            r is Err ==> *final(self) == *old(self) && r == Err::<(), RegistrationError>(
                RegistrationError::DuplicateName,
            ),
    {
        if self.contains_name(&name) {
            return Err(RegistrationError::DuplicateName);
        }
        let ghost pre = self.entries@;
        self.entries.push(CommandEntry { name, handler });
        proof {
            assert forall|i: int, j: int|
                0 <= i < self.entries@.len() && 0 <= j < self.entries@.len() && i
                    != j implies self.entries@[i].name@ != self.entries@[j].name@ by {
                if i < pre.len() && j < pre.len() {
                    assert(entries_wf(pre));
                } else if i < pre.len() {
                    assert(self.entries@[j].name@ == name@);
                    assert(!seq_contains_name(pre, name@));
                } else {
                    assert(self.entries@[i].name@ == name@);
                    assert(!seq_contains_name(pre, name@));
                }
            }
        }
        Ok(())
    }

    /// Dispatches the command registered under `name`: returns its handler's
    /// output, or `None` exactly when no command carries that name.
    pub fn dispatch(&self, name: &String) -> (r: Option<String>)
        requires
            self.wf(),
        ensures
            match r {
                Some(out) => self.spec_contains_name(name@) && out@ == spec_handler_output(
                    self.spec_handler_of(name@),
                ),
                None => !self.spec_contains_name(name@),
            },
    {
        let mut i: usize = 0;
        while i < self.entries.len()
            invariant
                self.wf(),
                0 <= i <= self.entries@.len(),
                forall|k: int| 0 <= k < i ==> self.entries@[k].name@ != name@,
            decreases self.entries@.len() - i,
        {
            if self.entries[i].name == *name {
                proof {
                    let j = choose|j: int|
                        0 <= j < self.entries@.len() && self.entries@[j].name@ == name@;
                    assert(self.entries@[j].name@ == name@);
                    assert(j == i);
                }
                return Some(run_handler(&self.entries[i].handler));
            }
            i = i + 1;
        }
        None
    }
}

/// Law: a table can never hold two commands under one name. Appending an
/// entry whose name is already present breaks the uniqueness invariant, so a
/// registration of a duplicate must be rejected — there is no well-formed
/// table in which it was silently accepted.
pub proof fn lemma_duplicate_breaks_uniqueness(s: Seq<CommandEntry>, e: CommandEntry)
    requires
        seq_contains_name(s, e.name@),
    ensures
        !entries_wf(s.push(e)),
{
    let i = choose|i: int| 0 <= i < s.len() && s[i].name@ == e.name@;
    assert(s.push(e)[i].name@ == e.name@);
    assert(s.push(e)[s.len() as int].name@ == e.name@);
}

} // verus!
