//! Virtual CPUs: their life cycle and their binding to physical CPUs.
//!
//! A virtual CPU is `Ready` while no physical CPU runs it and `Running` while
//! exactly one does. All virtual CPUs live in one [`Arena`] and are known by
//! their handle, the index in the arena. Beside them the arena keeps, for
//! each physical CPU, the handle of the virtual CPU that it runs.

use crate::realm::context::{Context, SystemRegister};
use crate::realm::rd::Rd;
use crate::realm::registers::{vmpidr, vmpidr_of, vttbr, vttbr_of};
use crate::realm::registry::{removal, VmidSet};
use crate::rmi::error::Error;
use vstd::prelude::*;

verus! {

/// Where a virtual CPU is in its life.
#[derive(Debug, Copy, Clone, PartialEq, Eq, Structural)]
pub enum State {
    /// Not initialised, or torn down.
    Null,
    /// The context is valid and no physical CPU runs it.
    Ready,
    /// One physical CPU runs it.
    Running,
}

impl State {
    pub open spec fn spec_value(self) -> usize {
        match self {
            State::Null => 0,
            State::Ready => 1,
            State::Running => 2,
        }
    }

    /// The number that stands for the state.
    #[verifier::when_used_as_spec(spec_value)]
    pub fn value(self) -> (value: usize)
        ensures
            value == self.spec_value(),
    {
        match self {
            State::Null => 0,
            State::Ready => 1,
            State::Running => 2,
        }
    }
}

/// One virtual CPU of a realm.
#[derive(Debug)]
pub struct VCPU {
    /// The saved registers.
    pub context: Context,
    pub state: State,
    /// The physical CPU that runs this virtual CPU, while one does.
    pub pcpu: Option<usize>,
    /// The handle of this virtual CPU in its arena.
    pub me: usize,
}

impl VCPU {
    /// This virtual CPU while physical CPU `cpu` runs it.
    pub open spec fn running_on(self, cpu: usize) -> VCPU {
        VCPU { state: State::Running, pcpu: Some(cpu), ..self }
    }

    /// This virtual CPU once no physical CPU runs it any more.
    pub open spec fn parked(self) -> VCPU {
        VCPU { state: State::Ready, pcpu: None, ..self }
    }

    /// This virtual CPU once it is torn down.
    pub open spec fn retired(self) -> VCPU {
        VCPU { state: State::Null, ..self }
    }

    /// A virtual CPU that has never run, as the arena holds it under
    /// `handle`.
    pub open spec fn fresh(handle: usize) -> VCPU {
        VCPU { context: Context::fresh(), state: State::Ready, pcpu: None, me: handle }
    }

    /// Adds a virtual CPU to `arena` and returns its handle. It is `Ready`,
    /// its context is fresh, and no physical CPU is bound to it.
    pub fn new(arena: &mut Arena) -> (handle: usize)
        requires
            old(arena).wf(),
        ensures
            handle == old(arena).vcpus().len(),
            final(arena).vcpus() == old(arena).vcpus().push(VCPU::fresh(handle)),
            final(arena).bindings() == old(arena).bindings(),
            final(arena).wf(),
    {
        let handle = arena.vcpus.len();
        arena.vcpus.push(VCPU { context: Context::new(), state: State::Ready, pcpu: None, me: handle });
        handle
    }

    /// Puts this virtual CPU on physical CPU `cpu`, whose binding register is
    /// `binding`: the register then designates this virtual CPU, which is
    /// `Running`. The virtual CPU must be `Ready` and the register unbound.
    pub fn into_current(&mut self, cpu: usize, binding: &mut Option<usize>)
        requires
            old(self).state == State::Ready,
            *old(binding) is None,
        ensures
            *final(self) == old(self).running_on(cpu),
            *final(binding) == Some(old(self).me),
    {
        self.pcpu = Some(cpu);
        *binding = Some(self.me);
        self.state = State::Running;
    }

    /// Takes this virtual CPU off the physical CPU that runs it, whose
    /// binding register is `binding`: the register is cleared and the
    /// virtual CPU is `Ready` again. It must be `Running`, and the register
    /// must designate it.
    pub fn from_current(&mut self, binding: &mut Option<usize>)
        requires
            old(self).state == State::Running,
            *old(binding) == Some(old(self).me),
        ensures
            *final(self) == old(self).parked(),
            *final(binding) is None,
    {
        self.pcpu = None;
        *binding = None;
        self.state = State::Ready;
    }

    /// Whether the realm of this virtual CPU is gone. The monitor does not
    /// track the liveness of realms: every realm is reported as alive.
    pub fn is_realm_dead(&self) -> (dead: bool)
        ensures
            !dead,
    {
        false
    }
}

/// What holds between the virtual CPUs and the binding registers of the
/// physical CPUs at all times: each virtual CPU sits under its own handle; a
/// register designates only a `Running` virtual CPU that names this physical
/// CPU; a virtual CPU names a physical CPU exactly while it is `Running`,
/// and that CPU's register then designates it.
pub open spec fn consistent(vcpus: Seq<VCPU>, bindings: Seq<Option<usize>>) -> bool {
    &&& forall|h: usize| h < vcpus.len() ==> (#[trigger] vcpus[h as int]).me == h
    &&& forall|cpu: usize|
        cpu < bindings.len() ==> (#[trigger] bindings[cpu as int] matches Some(h) ==> {
            &&& h < vcpus.len()
            &&& vcpus[h as int].state == State::Running
            &&& vcpus[h as int].pcpu == Some(cpu)
        })
    &&& forall|h: usize|
        h < vcpus.len() ==> match (#[trigger] vcpus[h as int]).pcpu {
            Some(cpu) => {
                &&& vcpus[h as int].state == State::Running
                &&& cpu < bindings.len()
                &&& bindings[cpu as int] == Some(h)
            },
            None => vcpus[h as int].state != State::Running,
        }
}

/// Putting a `Ready` virtual CPU on an unbound physical CPU keeps the
/// arena consistent: the virtual CPU is then `Running` and the physical
/// CPU's register designates it.
pub proof fn lemma_lifecycle_bind(
    vcpus: Seq<VCPU>,
    bindings: Seq<Option<usize>>,
    handle: usize,
    cpu: usize,
)
    requires
        consistent(vcpus, bindings),
        handle < vcpus.len(),
        vcpus[handle as int].state == State::Ready,
        cpu < bindings.len(),
        bindings[cpu as int] is None,
    ensures
        consistent(
            vcpus.update(handle as int, vcpus[handle as int].running_on(cpu)),
            bindings.update(cpu as int, Some(handle)),
        ),
        vcpus.update(handle as int, vcpus[handle as int].running_on(cpu))[handle as int].state
            == State::Running,
        bindings.update(cpu as int, Some(handle))[cpu as int] == Some(handle),
{
}

/// Taking a `Running` virtual CPU off its physical CPU keeps the arena
/// consistent: the virtual CPU is then `Ready` and the physical CPU's
/// register designates nothing.
pub proof fn lemma_lifecycle_release(vcpus: Seq<VCPU>, bindings: Seq<Option<usize>>, handle: usize)
    requires
        consistent(vcpus, bindings),
        handle < vcpus.len(),
        vcpus[handle as int].state == State::Running,
    ensures
        vcpus[handle as int].pcpu matches Some(cpu) && {
            &&& cpu < bindings.len()
            &&& bindings[cpu as int] == Some(handle)
            &&& consistent(
                vcpus.update(handle as int, vcpus[handle as int].parked()),
                bindings.update(cpu as int, None),
            )
            &&& vcpus.update(handle as int, vcpus[handle as int].parked())[handle as int].state
                == State::Ready
            &&& bindings.update(cpu as int, None)[cpu as int] is None
        },
{
}

/// Putting a virtual CPU on a physical CPU and taking it off again leaves
/// the arena as it was.
pub proof fn lemma_lifecycle_round_trip(
    vcpus: Seq<VCPU>,
    bindings: Seq<Option<usize>>,
    handle: usize,
    cpu: usize,
)
    requires
        consistent(vcpus, bindings),
        handle < vcpus.len(),
        vcpus[handle as int].state == State::Ready,
        cpu < bindings.len(),
        bindings[cpu as int] is None,
    ensures
        vcpus.update(handle as int, vcpus[handle as int].running_on(cpu)).update(
            handle as int,
            vcpus[handle as int].running_on(cpu).parked(),
        ) == vcpus,
        bindings.update(cpu as int, Some(handle)).update(cpu as int, None) == bindings,
{
}

/// A virtual CPU is `Running` exactly when the binding register of some
/// physical CPU designates it, and no two physical CPUs are bound to the
/// same virtual CPU.
pub proof fn lemma_running_iff_bound(vcpus: Seq<VCPU>, bindings: Seq<Option<usize>>, handle: usize)
    requires
        consistent(vcpus, bindings),
        handle < vcpus.len(),
    ensures
        vcpus[handle as int].state == State::Running <==> exists|cpu: usize|
            cpu < bindings.len() && #[trigger] bindings[cpu as int] == Some(handle),
        forall|a: usize, b: usize|
            a < bindings.len() && b < bindings.len() && #[trigger] bindings[a as int] == Some(
                handle,
            ) && #[trigger] bindings[b as int] == Some(handle) ==> a == b,
{
}

/// All virtual CPUs of the monitor and, for each physical CPU, the virtual
/// CPU that it runs.
#[derive(Debug)]
pub struct Arena {
    vcpus: Vec<VCPU>,
    current: Vec<Option<usize>>,
}

impl Arena {
    /// The virtual CPUs, each at the index that is its handle.
    pub closed spec fn vcpus(&self) -> Seq<VCPU> {
        self.vcpus@
    }

    /// For each physical CPU, the handle of the virtual CPU that it runs.
    pub closed spec fn bindings(&self) -> Seq<Option<usize>> {
        self.current@
    }

    /// The arena is [`consistent`].
    pub open spec fn wf(&self) -> bool {
        consistent(self.vcpus(), self.bindings())
    }

    /// An arena for a machine of `cpus` physical CPUs: no virtual CPU yet,
    /// and no physical CPU bound.
    pub fn new(cpus: usize) -> (arena: Arena)
        ensures
            arena.wf(),
            arena.vcpus() == Seq::<VCPU>::empty(),
            arena.bindings() == Seq::new(cpus as nat, |cpu: int| None::<usize>),
    {
        let mut current: Vec<Option<usize>> = Vec::new();
        while current.len() < cpus
            invariant
                current@.len() <= cpus,
                forall|cpu: int| 0 <= cpu < current@.len() ==> current@[cpu] is None,
            decreases cpus - current@.len(),
        {
            current.push(None);
        }
        Arena { vcpus: Vec::new(), current }
    }

    /// How many virtual CPUs the arena holds.
    pub fn len(&self) -> (n: usize)
        ensures
            n == self.vcpus().len(),
    {
        self.vcpus.len()
    }

    /// How many physical CPUs the machine has.
    pub fn cpus(&self) -> (n: usize)
        ensures
            n == self.bindings().len(),
    {
        self.current.len()
    }

    /// The virtual CPU under `handle`, if there is one.
    pub fn get(&self, handle: usize) -> (vcpu: Option<&VCPU>)
        ensures
            match vcpu {
                Some(v) => handle < self.vcpus().len() && *v == self.vcpus()[handle as int],
                None => handle >= self.vcpus().len(),
            },
    {
        if handle < self.vcpus.len() {
            Some(&self.vcpus[handle])
        } else {
            None
        }
    }

    /// Replaces the saved registers of the virtual CPU under `handle`.
    pub fn set_context(&mut self, handle: usize, context: Context)
        requires
            old(self).wf(),
            handle < old(self).vcpus().len(),
        ensures
            final(self).wf(),
            final(self).vcpus() == old(self).vcpus().update(
                handle as int,
                VCPU { context, ..old(self).vcpus()[handle as int] },
            ),
            final(self).bindings() == old(self).bindings(),
    {
        self.vcpus[handle].context = context;
    }

    /// Tears down the virtual CPU under `handle`: it becomes `Null` and never
    /// runs again. A `Running` virtual CPU must be taken off its physical
    /// CPU first.
    pub fn teardown(&mut self, handle: usize)
        requires
            old(self).wf(),
            handle < old(self).vcpus().len(),
            old(self).vcpus()[handle as int].state != State::Running,
        ensures
            final(self).wf(),
            final(self).vcpus() == old(self).vcpus().update(
                handle as int,
                old(self).vcpus()[handle as int].retired(),
            ),
            final(self).bindings() == old(self).bindings(),
    {
        self.vcpus[handle].state = State::Null;
    }

    /// Puts the virtual CPU under `handle` on physical CPU `cpu`. The
    /// virtual CPU must be `Ready` and the physical CPU unbound.
    pub fn into_current(&mut self, handle: usize, cpu: usize)
        requires
            old(self).wf(),
            handle < old(self).vcpus().len(),
            old(self).vcpus()[handle as int].state == State::Ready,
            cpu < old(self).bindings().len(),
            old(self).bindings()[cpu as int] is None,
        ensures
            final(self).wf(),
            final(self).vcpus() == old(self).vcpus().update(
                handle as int,
                old(self).vcpus()[handle as int].running_on(cpu),
            ),
            final(self).bindings() == old(self).bindings().update(cpu as int, Some(handle)),
    {
        self.vcpus[handle].into_current(cpu, &mut self.current[cpu]);
    }

    /// Takes the virtual CPU under `handle`, which must be `Running`, off
    /// the physical CPU that runs it.
    pub fn from_current(&mut self, handle: usize)
        requires
            old(self).wf(),
            handle < old(self).vcpus().len(),
            old(self).vcpus()[handle as int].state == State::Running,
        ensures
            final(self).wf(),
            old(self).vcpus()[handle as int].pcpu matches Some(cpu) && final(self).bindings()
                == old(self).bindings().update(cpu as int, None),
            final(self).vcpus() == old(self).vcpus().update(
                handle as int,
                old(self).vcpus()[handle as int].parked(),
            ),
    {
        let cpu = self.vcpus[handle].pcpu.unwrap();
        self.vcpus[handle].from_current(&mut self.current[cpu]);
    }
}

/// The virtual CPU that physical CPU `cpu` runs, if its binding register
/// designates one.
pub fn current(arena: &Arena, cpu: usize) -> (vcpu: Option<&VCPU>)
    requires
        arena.wf(),
    ensures
        match vcpu {
            Some(v) => {
                &&& cpu < arena.bindings().len()
                &&& arena.bindings()[cpu as int] == Some(v.me)
                &&& *v == arena.vcpus()[v.me as int]
            },
            None => cpu >= arena.bindings().len() || arena.bindings()[cpu as int] is None,
        },
{
    if cpu < arena.current.len() {
        match arena.current[cpu] {
            Some(handle) => Some(&arena.vcpus[handle]),
            None => None,
        }
    } else {
        None
    }
}

/// The virtual CPU that [`create_vcpu`] makes for a realm: fresh, but for
/// its translation register, which names the realm and its table, and its
/// identity register.
pub open spec fn programmed(handle: usize, rd: Rd, mpidr: u64) -> VCPU {
    VCPU {
        context: Context {
            sys_regs: SystemRegister {
                vttbr: vttbr_of(rd.id as u64, rd.s2_table),
                vmpidr: vmpidr_of(mpidr),
            },
        },
        ..VCPU::fresh(handle)
    }
}

/// What creating a virtual CPU reports, given its index in the realm and
/// what the set-up of its timer and of its interrupt controller reported:
/// the first error, or else the index.
pub open spec fn creation(index: usize, timer: Result<(), Error>, gic: Result<(), Error>) -> Result<
    usize,
    Error,
> {
    match timer {
        Err(e) => Err(e),
        Ok(()) => match gic {
            Err(e) => Err(e),
            Ok(()) => Ok(index),
        },
    }
}

/// Creates a virtual CPU for the realm `rd` with the identity `mpidr`:
/// adds it to the arena, programs its translation and identity registers,
/// has `init_timer` and then `init_gic` set up its devices, appends its
/// handle to the realm's virtual CPUs, and returns its index among them.
/// Where the set-up of the timer fails, the interrupt controller is not set
/// up. Where either fails, its error is returned, and neither the arena nor
/// the realm has changed.
pub fn create_vcpu<T, G>(
    arena: &mut Arena,
    rd: &mut Rd,
    mpidr: u64,
    init_timer: T,
    init_gic: G,
) -> (r: Result<usize, Error>) where
    T: FnOnce(&VCPU, &Rd) -> Result<(), Error>,
    G: FnOnce(&VCPU, &Rd) -> Result<(), Error>,

    requires
        old(arena).wf(),
        call_requires(
            init_timer,
            (&programmed(old(arena).vcpus().len() as usize, *old(rd), mpidr), &*old(rd)),
        ),
        call_requires(
            init_gic,
            (&programmed(old(arena).vcpus().len() as usize, *old(rd), mpidr), &*old(rd)),
        ),
    ensures
        final(arena).wf(),
        final(arena).bindings() == old(arena).bindings(),
        final(rd).id == old(rd).id,
        final(rd).s2_table == old(rd).s2_table,
        exists|timer: Result<(), Error>, gic: Result<(), Error>|
            {
                &&& call_ensures(
                    init_timer,
                    (&programmed(old(arena).vcpus().len() as usize, *old(rd), mpidr), &*old(rd)),
                    timer,
                )
                &&& timer is Ok ==> call_ensures(
                    init_gic,
                    (&programmed(old(arena).vcpus().len() as usize, *old(rd), mpidr), &*old(rd)),
                    gic,
                )
                &&& r == #[trigger] creation(old(rd).vcpus@.len() as usize, timer, gic)
            },
        r is Ok ==> {
            &&& final(arena).vcpus() == old(arena).vcpus().push(
                programmed(old(arena).vcpus().len() as usize, *old(rd), mpidr),
            )
            &&& final(rd).vcpus@ == old(rd).vcpus@.push(old(arena).vcpus().len() as usize)
        },
        r is Err ==> {
            &&& final(arena).vcpus() == old(arena).vcpus()
            &&& final(rd).vcpus@ == old(rd).vcpus@
        },
{
    let page_table = rd.s2_table();
    let vttbr = vttbr(rd.id() as u64, page_table);
    let vmpidr = vmpidr(mpidr);

    let handle = VCPU::new(arena);
    arena.vcpus[handle].context.sys_regs.vttbr = vttbr;
    arena.vcpus[handle].context.sys_regs.vmpidr = vmpidr;

    let timer = init_timer(&arena.vcpus[handle], rd);
    let gic = match timer {
        Ok(()) => init_gic(&arena.vcpus[handle], rd),
        Err(e) => Err(e),
    };
    match gic {
        Ok(()) => {
            rd.vcpus.push(handle);
            let vcpuid = rd.vcpus.len() - 1;
            Ok(vcpuid)
        },
        Err(e) => {
            arena.vcpus.pop();
            assert(Err::<usize, Error>(e) == creation(old(rd).vcpus@.len() as usize, timer, gic));
            Err(e)
        },
    }
}

/// Removes the realm identifier `id` from the registry. An identifier that
/// is not registered is refused as invalid input.
pub fn remove(vmids: &mut VmidSet, id: usize) -> (r: Result<(), Error>)
    ensures
        r == removal(old(vmids)@, id),
        final(vmids)@ == old(vmids)@.remove(id),
{
    vmids.remove(id)
}

} // verus!
