//! The module's registration table and its load-time initialization.
//!
//! The embedding runtime associates exported names with native callables.
//! What the module decides at load time — which name to claim, and that a
//! name already taken is a load failure — is modelled and verified here
//! over the names themselves; the callables they stand for live on the
//! runtime's side of the boundary. The table is written once, at load
//! time, and never mutated afterwards.

use vstd::prelude::*;

use crate::ModuleError;

verus! {

/// The name under which the module's one callable is exported.
pub open spec fn export_name() -> Seq<char> {
    "add_numbers"@
}

/// The names the module has exported, in registration order.
pub struct ExportTable {
    names: Vec<String>,
}

impl View for ExportTable {
    type V = Seq<Seq<char>>;

    closed spec fn view(&self) -> Seq<Seq<char>> {
        self.names@.map(|i: int, s: String| s@)
    }
}

impl ExportTable {
    /// Whether `name` is among the exported names.
    pub open spec fn spec_contains(&self, name: Seq<char>) -> bool {
        exists|i: int| 0 <= i < self@.len() && self@[i] == name
    }

    /// The table maps names to callables, so it never holds a name twice.
    pub open spec fn wf(&self) -> bool {
        forall|i: int, j: int| 0 <= i < j < self@.len() ==> self@[i] != self@[j]
    }

    /// An empty table: the state before the runtime loads the module.
    pub fn new() -> (t: ExportTable)
        ensures
            t@ == Seq::<Seq<char>>::empty(),
            t.wf(),
    {
        ExportTable { names: Vec::new() }
    }

    /// How many names are exported.
    pub fn len(&self) -> (n: usize)
        ensures
            n == self@.len(),
    {
        self.names.len()
    }

    /// Whether `name` is among the exported names.
    pub fn contains(&self, name: &String) -> (r: bool)
        ensures
            r == self.spec_contains(name@),
    {
        let mut i: usize = 0;
        while i < self.names.len()
            invariant
                0 <= i <= self.names.len(),
                forall|j: int| 0 <= j < i ==> self@[j] != name@,
            decreases self.names.len() - i,
        {
            if self.names[i] == *name {
                proof {
                    assert(self@[i as int] == name@);
                }
                return true;
            }
            i += 1;
        }
        false
    }

    /// Register one exported name. Fails, and leaves the table unchanged,
    /// exactly when the name is already taken; this is the only source of
    /// [`ModuleError::Registration`].
    pub fn register(&mut self, name: String) -> (r: Result<(), ModuleError>)
        ensures
            !old(self).spec_contains(name@) ==> r == Ok::<(), ModuleError>(()) && final(self)@
                == old(self)@.push(name@),
            old(self).spec_contains(name@) ==> r == Err::<(), ModuleError>(
                ModuleError::Registration,
            ) && final(self)@ == old(self)@,
            old(self).wf() ==> final(self).wf(),
    {
        if self.contains(&name) {
            return Err(ModuleError::Registration);
        }
        self.names.push(name);
        proof {
            assert(self@ =~= old(self)@.push(name@));
        }
        Ok(())
    }
}

/// Module initialization: claim the name `"add_numbers"` for the module's
/// one callable in the runtime's export table. Triggered once, when the
/// runtime loads the module; a registration failure (the name was already
/// taken) is surfaced as a module-load error, never swallowed, and the
/// table is left as it was.
pub fn initialize_module(table: &mut ExportTable) -> (r: Result<(), ModuleError>)
    ensures
        !old(table).spec_contains(export_name()) ==> r == Ok::<(), ModuleError>(())
            && final(table)@ == old(table)@.push(export_name())
            && final(table).spec_contains(export_name()),
        old(table).spec_contains(export_name()) ==> r == Err::<(), ModuleError>(
            ModuleError::Registration,
        ) && final(table)@ == old(table)@,
        old(table).wf() ==> final(table).wf(),
{
    let r = table.register(String::from_str("add_numbers"));
    proof {
        if !old(table).spec_contains(export_name()) {
            assert(table@[table@.len() - 1] == export_name());
        }
    }
    r
}

} // verus!
