//! Driver model of an ARM Generic Interrupt Controller v2: the handler table,
//! the set of enabled interrupts, and the dispatch of a pending interrupt.
//!
//! Register access stays with the caller: this module decides, from the value
//! the CPU interface acknowledged, which handler runs and whether completion
//! is to be signalled.

use vstd::prelude::*;
use crate::irq::{BoundedUsize, IRQHandler, IRQHandlerDescriptor};
use crate::sync::{InitStateLock, Phase, PhaseError};

verus! {

/// The largest interrupt number the controller serves.
pub const MAX_IRQ_NUMBER: usize = 300;

/// The core that brings up the distributor.
pub const BOOT_CORE_ID: u64 = 0;

/// An interrupt number the controller serves.
pub type IRQNumber = BoundedUsize<MAX_IRQ_NUMBER>;

/// A handler descriptor keyed by an [`IRQNumber`].
pub type HandlerDescriptor<H> = IRQHandlerDescriptor<IRQNumber, H>;

/// One slot per interrupt number.
pub type HandlerTable<H> = Vec<Option<HandlerDescriptor<H>>>;

/// Why an interrupt operation failed.
#[derive(PartialEq, Eq, Clone, Copy, Debug)]
pub enum IrqError {
    /// A handler already serves that number.
    AlreadyRegistered,
    /// The handler table no longer accepts registrations.
    TableFrozen,
    /// An interrupt arrived for which no handler is registered.
    NoHandler { number: usize },
    /// The handler reported a failure.
    HandlerFailed { number: usize, reason: &'static str },
}

/// What became of an acknowledged interrupt.
#[derive(PartialEq, Eq, Structural, Clone, Copy, Debug)]
pub enum Dispatch {
    /// The acknowledged value names no interrupt: nothing ran and no
    /// completion is to be signalled.
    Spurious,
    /// The handler ran; completion is to be signalled for `number`.
    Handled { number: usize },
}

/// Which halves of the controller a core brings up.
#[derive(PartialEq, Eq, Structural, Clone, Copy, Debug)]
pub struct GicInitPlan {
    /// One-time distributor bring-up, done by the boot core only.
    pub distributor: bool,
    /// The banked CPU interface, brought up by every core.
    pub cpu_interface: bool,
}

/// The table a registration leaves behind, and its result.
pub open spec fn register_outcome<H>(
    before: Seq<Option<HandlerDescriptor<H>>>,
    frozen: bool,
    d: HandlerDescriptor<H>,
    after: Seq<Option<HandlerDescriptor<H>>>,
    r: Result<(), IrqError>,
) -> bool {
    let n = d.number_spec().value() as int;
    if frozen {
        r == Err::<(), IrqError>(IrqError::TableFrozen) && after == before
    } else if before[n] is Some {
        r == Err::<(), IrqError>(IrqError::AlreadyRegistered) && after == before
    } else {
        r == Ok::<(), IrqError>(()) && after == before.update(n, Some(d))
    }
}

/// The result of dispatching `number` once its handler reported `outcome`.
pub open spec fn dispatch_spec(number: usize, outcome: Result<(), &'static str>) -> Result<
    Dispatch,
    IrqError,
> {
    match outcome {
        Ok(()) => Ok(Dispatch::Handled { number }),
        Err(reason) => Err(IrqError::HandlerFailed { number, reason }),
    }
}

/// The numbers and labels of the registered handlers, from slot `from` on,
/// in ascending order.
pub open spec fn listing<H>(handlers: Seq<Option<HandlerDescriptor<H>>>, from: int) -> Seq<
    (usize, &'static str),
>
    decreases handlers.len() - from,
{
    if from >= handlers.len() || from < 0 {
        Seq::empty()
    } else {
        let rest = listing(handlers, from + 1);
        match handlers[from] {
            Some(d) => seq![(from as usize, d.name_spec())] + rest,
            None => rest,
        }
    }
}

/// What dispatching the acknowledged value `irq_number` may return, given the
/// handler table: spurious above [`MAX_IRQ_NUMBER`], a missing handler for an
/// empty slot, and otherwise what the slot's handler returned when called.
pub open spec fn dispatched<H: IRQHandler>(
    handlers: Seq<Option<HandlerDescriptor<H>>>,
    irq_number: usize,
    r: Result<Dispatch, IrqError>,
) -> bool {
    if irq_number > MAX_IRQ_NUMBER {
        r == Ok::<Dispatch, IrqError>(Dispatch::Spurious)
    } else if handlers[irq_number as int] is None {
        r == Err::<Dispatch, IrqError>(IrqError::NoHandler { number: irq_number })
    } else {
        exists|outcome: Result<(), &'static str>|
            r == #[trigger] dispatch_spec(irq_number, outcome)
                && handlers[irq_number as int]->Some_0.handler_spec().handle_ensures(outcome)
    }
}

/// The result of dispatching `number` once its handler reported `outcome`.
pub fn dispatch_outcome(number: usize, outcome: Result<(), &'static str>) -> (r: Result<
    Dispatch,
    IrqError,
>)
    ensures
        r == dispatch_spec(number, outcome),
{
    match outcome {
        Ok(()) => Ok(Dispatch::Handled { number }),
        Err(reason) => Err(IrqError::HandlerFailed { number, reason }),
    }
}

/// The interrupt number in a value read from the CPU interface's acknowledge
/// register: its interrupt ID field, bits 9 to 0.
pub fn acknowledged_irq_number(iar: u32) -> (r: usize)
    ensures
        r == iar % 1024,
{
    (iar % 1024) as usize
}

/// Where the distributor's set-enable bit for `irq_number` lies: the index of
/// its 32-bit set-enable register, and the bit within it.
pub fn enable_bit(irq_number: &IRQNumber) -> (r: (usize, u32))
    ensures
        r.0 == irq_number.value() / 32,
        r.1 == 1u32 << (irq_number.value() % 32) as u32,
{
    let n = irq_number.get();
    (n / 32, 1u32 << (n % 32) as u32)
}

/// The interrupt controller.
pub struct GICv2<H> {
    gicd_mmio_start_addr: usize,
    gicc_mmio_start_addr: usize,
    handler_table: InitStateLock<HandlerTable<H>>,
    enabled: Vec<bool>,
}

impl<H: IRQHandler> GICv2<H> {
    /// The registered handlers, one slot per interrupt number.
    pub closed spec fn handlers(&self) -> Seq<Option<HandlerDescriptor<H>>> {
        self.handler_table.data()@
    }

    /// Whether the handler table has become read-only.
    pub closed spec fn frozen(&self) -> bool {
        self.handler_table.phase() == Phase::Frozen
    }

    /// Which interrupt numbers are enabled at the distributor.
    pub closed spec fn enabled(&self) -> Seq<bool> {
        self.enabled@
    }

    /// Base address of the distributor's registers.
    pub closed spec fn gicd_base(&self) -> usize {
        self.gicd_mmio_start_addr
    }

    /// Base address of the CPU interface's registers.
    pub closed spec fn gicc_base(&self) -> usize {
        self.gicc_mmio_start_addr
    }

    /// One slot per interrupt number, each filled slot keyed by its own number.
    pub closed spec fn wf(&self) -> bool {
        &&& self.handler_table.wf()
        &&& self.handlers().len() == MAX_IRQ_NUMBER + 1
        &&& self.enabled@.len() == MAX_IRQ_NUMBER + 1
        &&& forall|i: int|
            0 <= i < self.handlers().len() && (#[trigger] self.handlers()[i]) is Some
                ==> self.handlers()[i]->Some_0.number_spec().value() == i
    }

    /// A controller with no handlers and no interrupt enabled, open for registration.
    pub fn new(gicd_mmio_start_addr: usize, gicc_mmio_start_addr: usize) -> (r: Self)
        ensures
            r.wf(),
            !r.frozen(),
            r.gicd_base() == gicd_mmio_start_addr,
            r.gicc_base() == gicc_mmio_start_addr,
            r.handlers().len() == MAX_IRQ_NUMBER + 1,
            r.enabled().len() == MAX_IRQ_NUMBER + 1,
            forall|i: int| 0 <= i <= MAX_IRQ_NUMBER ==> #[trigger] r.handlers()[i] is None,
            forall|i: int| 0 <= i <= MAX_IRQ_NUMBER ==> !#[trigger] r.enabled()[i],
    {
        let mut table: HandlerTable<H> = Vec::new();
        let mut enabled: Vec<bool> = Vec::new();
        let mut i: usize = 0;
        while i <= MAX_IRQ_NUMBER
            invariant
                i <= MAX_IRQ_NUMBER + 1,
                table@.len() == i,
                enabled@.len() == i,
                forall|j: int| 0 <= j < i ==> #[trigger] table@[j] is None,
                forall|j: int| 0 <= j < i ==> !#[trigger] enabled@[j],
            decreases MAX_IRQ_NUMBER + 1 - i,
        {
            table.push(None);
            enabled.push(false);
            i = i + 1;
        }
        GICv2 {
            gicd_mmio_start_addr,
            gicc_mmio_start_addr,
            handler_table: InitStateLock::new(table),
            enabled,
        }
    }

    /// The driver's compatible name.
    pub fn compatible(&self) -> (r: &'static str)
        ensures
            r@ == "GICv2 (ARM Generic Interrupt Controller v2)"@,
    {
        "GICv2 (ARM Generic Interrupt Controller v2)"
    }

    /// Base address of the distributor's registers.
    pub fn gicd_mmio_start_addr(&self) -> (r: usize)
        ensures
            r == self.gicd_base(),
    {
        self.gicd_mmio_start_addr
    }

    /// Base address of the CPU interface's registers.
    pub fn gicc_mmio_start_addr(&self) -> (r: usize)
        ensures
            r == self.gicc_base(),
    {
        self.gicc_mmio_start_addr
    }

    /// What the core `core_id` brings up: the distributor only on the boot
    /// core, its own CPU interface on every core.
    pub fn init_plan(&self, core_id: u64) -> (r: GicInitPlan)
        ensures
            r.distributor == (core_id == BOOT_CORE_ID),
            r.cpu_interface,
    {
        GicInitPlan { distributor: core_id == BOOT_CORE_ID, cpu_interface: true }
    }

    /// Whether the handler table has become read-only.
    pub fn is_frozen(&self) -> (r: bool)
        ensures
            r == self.frozen(),
    {
        self.handler_table.is_frozen()
    }

    /// Ends kernel initialization for the handler table: it is read-only from now on.
    pub fn freeze(&mut self)
        requires
            old(self).wf(),
        ensures
            final(self).wf(),
            final(self).frozen(),
            final(self).handlers() == old(self).handlers(),
            final(self).enabled() == old(self).enabled(),
            final(self).gicd_base() == old(self).gicd_base(),
            final(self).gicc_base() == old(self).gicc_base(),
    {
        self.handler_table.freeze();
    }

    /// Registers `descriptor` in the slot of its number: once per number, and
    /// only while the table is open.
    pub fn register_handler(&mut self, descriptor: HandlerDescriptor<H>) -> (r: Result<
        (),
        IrqError,
    >)
        requires
            old(self).wf(),
        ensures
            final(self).wf(),
            final(self).frozen() == old(self).frozen(),
            final(self).enabled() == old(self).enabled(),
            final(self).gicd_base() == old(self).gicd_base(),
            final(self).gicc_base() == old(self).gicc_base(),
            descriptor.number_spec().value() <= MAX_IRQ_NUMBER,
            register_outcome(
                old(self).handlers(),
                old(self).frozen(),
                descriptor,
                final(self).handlers(),
                r,
            ),
    {
        let number = descriptor.number().get();
        let ghost d = descriptor;
        let fill_slot = move |table: HandlerTable<H>| -> (out: (HandlerTable<H>, Result<(), IrqError>))
                requires
                    table@.len() > number,
                ensures
                    table@[number as int] is Some ==> out.0@ == table@ && out.1 == Err::<(), IrqError>(IrqError::AlreadyRegistered),
                    table@[number as int] is None ==> out.0@ == table@.update(
                        number as int,
                        Some(d),
                    ) && out.1 == Ok::<(), IrqError>(()),
                {
                    let mut table = table;
                    if table[number].is_some() {
                        return (table, Err(IrqError::AlreadyRegistered));
                    }
                    table.set(number, Some(descriptor));
                    (table, Ok(()))
                };
        let res = self.handler_table.write(fill_slot);
        match res {
            Ok(r) => r,
            Err(PhaseError::WriteAfterFreeze) => Err(IrqError::TableFrozen),
        }
    }

    /// Whether interrupt `irq_number` is enabled at the distributor.
    pub fn is_enabled(&self, irq_number: &IRQNumber) -> (r: bool)
        requires
            self.wf(),
        ensures
            r == self.enabled()[irq_number.value() as int],
    {
        self.enabled[irq_number.get()]
    }

    /// Allows interrupt `irq_number` to be asserted; enabling twice is harmless.
    pub fn enable(&mut self, irq_number: &IRQNumber)
        requires
            old(self).wf(),
        ensures
            final(self).wf(),
            final(self).frozen() == old(self).frozen(),
            final(self).handlers() == old(self).handlers(),
            final(self).gicd_base() == old(self).gicd_base(),
            final(self).gicc_base() == old(self).gicc_base(),
            irq_number.value() <= MAX_IRQ_NUMBER,
            final(self).enabled() == old(self).enabled().update(irq_number.value() as int, true),
    {
        let n = irq_number.get();
        self.enabled.set(n, true);
    }

    /// Dispatches the interrupt whose number the CPU interface acknowledged.
    ///
    /// A number above [`MAX_IRQ_NUMBER`] is spurious: nothing runs and no
    /// completion is due. A number without a handler is a configuration error.
    /// Otherwise the handler runs and its outcome decides, as
    /// [`dispatch_outcome`] states. The table is only read.
    pub fn handle_pending_irqs(&self, irq_number: usize) -> (r: Result<Dispatch, IrqError>)
        requires
            self.wf(),
        ensures
            dispatched(self.handlers(), irq_number, r),
    {
        if irq_number > MAX_IRQ_NUMBER {
            return Ok(Dispatch::Spurious);
        }
        let run_handler = |table: &HandlerTable<H>| -> (r: Result<Dispatch, IrqError>)
            requires
                table@.len() > irq_number,
            ensures
                table@[irq_number as int] is None ==> r == Err::<Dispatch, IrqError>(
                    IrqError::NoHandler { number: irq_number },
                ),
                table@[irq_number as int] is Some ==> exists|outcome: Result<(), &'static str>|
                    r == #[trigger] dispatch_spec(irq_number, outcome)
                        && table@[irq_number as int]->Some_0.handler_spec().handle_ensures(outcome),
            {
                match &table[irq_number] {
                    None => Err(IrqError::NoHandler { number: irq_number }),
                    Some(descriptor) => {
                        let outcome = descriptor.handler().handle();
                        dispatch_outcome(irq_number, outcome)
                    },
                }
            };
        self.handler_table.read(run_handler)
    }

    /// The numbers and labels of all registered handlers, in ascending order
    /// of number.
    pub fn registered_handlers(&self) -> (r: Vec<(usize, &'static str)>)
        requires
            self.wf(),
        ensures
            r@ == listing(self.handlers(), 0),
    {
        let collect = |table: &HandlerTable<H>| -> (r: Vec<(usize, &'static str)>)
            ensures
                r@ == listing(table@, 0),
            {
                let mut out: Vec<(usize, &'static str)> = Vec::new();
                let mut i: usize = table.len();
                while i > 0
                    invariant
                        i <= table@.len(),
                        out@ == listing(table@, i as int),
                    decreases i,
                {
                    i = i - 1;
                    match &table[i] {
                        Some(d) => {
                            let mut front: Vec<(usize, &'static str)> = Vec::new();
                            front.push((i, d.name()));
                            front.append(&mut out);
                            out = front;
                        },
                        None => {},
                    }
                }
                out
            };
        self.handler_table.read(collect)
    }
}

/// A well-formed controller has one handler slot and one enable flag per
/// interrupt number.
pub proof fn lemma_table_lengths<H: IRQHandler>(g: GICv2<H>)
    requires
        g.wf(),
    ensures
        g.handlers().len() == MAX_IRQ_NUMBER + 1,
        g.enabled().len() == MAX_IRQ_NUMBER + 1,
{
}

/// Registering a handler at a free number of an open table succeeds, and a
/// second registration at that number fails as already registered and leaves
/// the table as the first one left it.
pub proof fn lemma_register_once<H>(
    table: Seq<Option<HandlerDescriptor<H>>>,
    first: HandlerDescriptor<H>,
    after_first: Seq<Option<HandlerDescriptor<H>>>,
    r_first: Result<(), IrqError>,
    second: HandlerDescriptor<H>,
    after_second: Seq<Option<HandlerDescriptor<H>>>,
    r_second: Result<(), IrqError>,
)
    requires
        table.len() == MAX_IRQ_NUMBER + 1,
        first.number_spec().value() <= MAX_IRQ_NUMBER,
        table[first.number_spec().value() as int] is None,
        second.number_spec().value() == first.number_spec().value(),
        register_outcome(table, false, first, after_first, r_first),
        register_outcome(after_first, false, second, after_second, r_second),
    ensures
        r_first == Ok::<(), IrqError>(()),
        after_first[first.number_spec().value() as int] == Some(first),
        r_second == Err::<(), IrqError>(IrqError::AlreadyRegistered),
        after_second == after_first,
{
}

/// A registration fills at most the one empty slot of its number: a filled
/// slot keeps its handler, and no slot is ever cleared.
pub proof fn lemma_filled_slots_stay<H>(
    table: Seq<Option<HandlerDescriptor<H>>>,
    frozen: bool,
    d: HandlerDescriptor<H>,
    after: Seq<Option<HandlerDescriptor<H>>>,
    r: Result<(), IrqError>,
)
    requires
        table.len() == MAX_IRQ_NUMBER + 1,
        d.number_spec().value() <= MAX_IRQ_NUMBER,
        register_outcome(table, frozen, d, after, r),
    ensures
        after.len() == table.len(),
        forall|i: int| 0 <= i < table.len() && (#[trigger] table[i]) is Some ==> after[i] == table[i],
        forall|i: int|
            0 <= i < table.len() && i != d.number_spec().value() ==> #[trigger] after[i] == table[i],
{
}

/// Once the table is read-only, every registration fails and leaves it as it
/// was.
pub proof fn lemma_frozen_table_is_stable<H>(
    table: Seq<Option<HandlerDescriptor<H>>>,
    d: HandlerDescriptor<H>,
    after: Seq<Option<HandlerDescriptor<H>>>,
    r: Result<(), IrqError>,
)
    requires
        register_outcome(table, true, d, after, r),
    ensures
        r == Err::<(), IrqError>(IrqError::TableFrozen),
        after == table,
{
}

/// Two dispatches of the same acknowledged value against the same table look
/// up the same slot: they agree on a spurious value and on a missing handler,
/// and otherwise both report on that number.
pub proof fn lemma_dispatch_consistent<H: IRQHandler>(
    handlers: Seq<Option<HandlerDescriptor<H>>>,
    irq_number: usize,
    r1: Result<Dispatch, IrqError>,
    r2: Result<Dispatch, IrqError>,
)
    requires
        handlers.len() == MAX_IRQ_NUMBER + 1,
        dispatched(handlers, irq_number, r1),
        dispatched(handlers, irq_number, r2),
    ensures
        irq_number > MAX_IRQ_NUMBER || handlers[irq_number as int] is None ==> r1 == r2,
        irq_number <= MAX_IRQ_NUMBER && handlers[irq_number as int] is Some ==> (match r1 {
            Ok(Dispatch::Handled { number }) => number == irq_number,
            Err(IrqError::HandlerFailed { number, .. }) => number == irq_number,
            _ => false,
        }) && (match r2 {
            Ok(Dispatch::Handled { number }) => number == irq_number,
            Err(IrqError::HandlerFailed { number, .. }) => number == irq_number,
            _ => false,
        }),
{
}

} // verus!
