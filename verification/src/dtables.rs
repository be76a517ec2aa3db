//! Descriptor tables: one interrupt table shared by all cores, and a task
//! state segment and a global table per core, each set up once.

use lazyinit::LazyInit;
use vstd::prelude::*;

verus! {

/// `lazyinit::LazyInit`, a cell that is written at most once. It is carried
/// as an opaque value; what it holds is named by `lazy_contents`.
#[verifier::external_type_specification]
#[verifier::external_body]
#[verifier::reject_recursive_types(T)]
pub struct ExLazyInit<T>(LazyInit<T>);

/// What a once-initialised cell holds: nothing, or the one value it was given.
pub uninterp spec fn lazy_contents(cell: LazyInit<usize>) -> Seq<usize>;

/// The value of a cell, if it holds one.
pub open spec fn lazy_value(cell: LazyInit<usize>) -> Option<usize> {
    if lazy_contents(cell).len() == 0 {
        None
    } else {
        Some(lazy_contents(cell)[0])
    }
}

/// `LazyInit::new` of `lazyinit`: a cell that holds nothing yet.
#[verifier::external_body]
fn lazy_new() -> (cell: LazyInit<usize>)
    ensures
        lazy_contents(cell) == Seq::<usize>::empty(),
{
    LazyInit::new()
}

/// `LazyInit::get` of `lazyinit`: the value the cell holds, if it was
/// initialised; the cell is not changed.
#[verifier::external_body]
fn lazy_get(cell: &LazyInit<usize>) -> (v: Option<usize>)
    ensures
        v is None <==> lazy_contents(*cell).len() == 0,
        v is Some ==> lazy_contents(*cell) == seq![v->Some_0],
{
    cell.get().copied()
}

/// `LazyInit::init_once` of `lazyinit`, on a cell that holds nothing (it
/// panics on any other): afterwards the cell holds `value`.
#[verifier::external_body]
fn lazy_init_once(cell: &mut LazyInit<usize>, value: usize)
    requires
        lazy_contents(*old(cell)).len() == 0,
    ensures
        lazy_contents(*final(cell)) == seq![value],
{
    cell.init_once(value);
}

/// Number of vectors in the shared interrupt table.
pub const IDT_ENTRIES: usize = 256;

/// Why a descriptor setup was refused.
#[derive(Clone, Copy, Debug, PartialEq, Eq)]
pub enum TableError {
    /// The shared interrupt table is not set up yet.
    NoInterruptTable,
    /// The table was set up before; a second setup is refused.
    AlreadySetUp,
}

/// The interrupt table that all cores load.
pub struct SharedTables {
    /// Number of vectors of the table, once it is built.
    pub idt: LazyInit<usize>,
}

/// The descriptor state owned by one core.
pub struct PerCpuState {
    /// The core that owns this state.
    pub cpu_id: usize,
    /// The core whose stacks the task state segment describes, once built.
    pub tss: LazyInit<usize>,
    /// The core whose segment the global table names, once built.
    pub gdt: LazyInit<usize>,
}

impl SharedTables {
    /// Whether the interrupt table is built.
    pub open spec fn ready(&self) -> bool {
        lazy_value(self.idt) == Some(IDT_ENTRIES)
    }

    /// Tables of which nothing is built yet.
    pub fn new() -> (t: SharedTables)
        ensures
            lazy_value(t.idt) == None::<usize>,
    {
        SharedTables { idt: lazy_new() }
    }

    /// Whether the interrupt table is built.
    pub fn is_ready(&self) -> (r: bool)
        ensures
            r == (lazy_value(self.idt) != None::<usize>),
    {
        lazy_get(&self.idt).is_some()
    }
}

impl PerCpuState {
    /// Whether both tables of the core are built, and for this core.
    pub open spec fn ready(&self) -> bool {
        lazy_value(self.tss) == Some(self.cpu_id) && lazy_value(self.gdt) == Some(self.cpu_id)
    }

    /// Whether neither table of the core is built.
    pub open spec fn fresh(&self) -> bool {
        lazy_value(self.tss) == None::<usize> && lazy_value(self.gdt) == None::<usize>
    }

    /// The state of core `cpu_id` before its setup.
    pub fn new(cpu_id: usize) -> (pc: PerCpuState)
        ensures
            pc.cpu_id == cpu_id,
            pc.fresh(),
    {
        PerCpuState { cpu_id, tss: lazy_new(), gdt: lazy_new() }
    }

    /// Whether both tables of the core are built.
    pub fn is_ready(&self) -> (r: bool)
        ensures
            r == (lazy_value(self.tss) != None::<usize> && lazy_value(self.gdt) != None::<usize>),
    {
        lazy_get(&self.tss).is_some() && lazy_get(&self.gdt).is_some()
    }

    /// The core whose segment the global table names, if it is built.
    pub fn gdt_owner(&self) -> (v: Option<usize>)
        ensures
            v == lazy_value(self.gdt),
    {
        lazy_get(&self.gdt)
    }
}

/// Which setups of one core's tables are refused, and why.
pub open spec fn percpu_refusal(idt: LazyInit<usize>, pc: PerCpuState) -> Option<TableError> {
    if lazy_value(idt) == None::<usize> {
        Some(TableError::NoInterruptTable)
    } else if !pc.fresh() {
        Some(TableError::AlreadySetUp)
    } else {
        None
    }
}

/// Builds the task state segment and the global table of the core that owns
/// `pc`, once: the shared interrupt table must be there, and neither table of
/// the core may exist. A refused setup changes nothing.
pub fn init_percpu(shared: &SharedTables, pc: &mut PerCpuState) -> (r: Result<(), TableError>)
    ensures
        final(pc).cpu_id == old(pc).cpu_id,
        match percpu_refusal(shared.idt, *old(pc)) {
            Some(e) => r == Err::<(), TableError>(e) && *final(pc) == *old(pc),
            None => r == Ok::<(), TableError>(()) && final(pc).ready(),
        },
{
    if lazy_get(&shared.idt).is_none() {
        return Err(TableError::NoInterruptTable);
    }
    if lazy_get(&pc.tss).is_some() || lazy_get(&pc.gdt).is_some() {
        return Err(TableError::AlreadySetUp);
    }
    let owner: usize = pc.cpu_id;
    lazy_init_once(&mut pc.tss, owner);
    lazy_init_once(&mut pc.gdt, owner);
    Ok(())
}

/// Builds the shared interrupt table and the primary core's own tables. It
/// is refused, and nothing changes, where the interrupt table or one of the
/// core's tables exists already.
pub fn init_primary(shared: &mut SharedTables, pc: &mut PerCpuState) -> (r: Result<(), TableError>)
    ensures
        final(pc).cpu_id == old(pc).cpu_id,
        if lazy_value(old(shared).idt) == None::<usize> && old(pc).fresh() {
            r == Ok::<(), TableError>(()) && final(shared).ready() && final(pc).ready()
        } else {
            r == Err::<(), TableError>(TableError::AlreadySetUp) && *final(pc) == *old(pc)
                && *final(shared) == *old(shared)
        },
{
    if lazy_get(&shared.idt).is_some() || lazy_get(&pc.tss).is_some() || lazy_get(&pc.gdt).is_some() {
        return Err(TableError::AlreadySetUp);
    }
    lazy_init_once(&mut shared.idt, IDT_ENTRIES);
    init_percpu(shared, pc)
}

/// Builds a secondary core's own tables; the shared interrupt table is the
/// one that the primary core built.
pub fn init_secondary(shared: &SharedTables, pc: &mut PerCpuState) -> (r: Result<(), TableError>)
    ensures
        final(pc).cpu_id == old(pc).cpu_id,
        match percpu_refusal(shared.idt, *old(pc)) {
            Some(e) => r == Err::<(), TableError>(e) && *final(pc) == *old(pc),
            None => r == Ok::<(), TableError>(()) && final(pc).ready(),
        },
{
    init_percpu(shared, pc)
}

} // verus!
