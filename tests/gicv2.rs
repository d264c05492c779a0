use std::cell::RefCell;

use kernel_core::gicv2::{
    acknowledged_irq_number, dispatch_outcome, enable_bit, Dispatch, GICv2, IRQNumber, IrqError, BOOT_CORE_ID, MAX_IRQ_NUMBER,
};
use kernel_core::irq::{IRQHandler, IRQHandlerDescriptor};

struct Recorder<'l> {
    label: &'static str,
    fail: Option<&'static str>,
    log: &'l RefCell<Vec<&'static str>>,
}

impl<'l> IRQHandler for Recorder<'l> {
    fn handle_ensures(&self, r: Result<(), &'static str>) -> bool {
        r == self.fail.map_or(Ok(()), Err)
    }

    fn handle(&self) -> Result<(), &'static str> {
        self.log.borrow_mut().push(self.label);
        match self.fail {
            Some(e) => Err(e),
            None => Ok(()),
        }
    }
}

fn recorder<'l>(label: &'static str, log: &'l RefCell<Vec<&'static str>>) -> Recorder<'l> {
    Recorder { label, fail: None, log }
}

fn descriptor<'l>(
    number: usize,
    name: &'static str,
    log: &'l RefCell<Vec<&'static str>>,
) -> IRQHandlerDescriptor<IRQNumber, Recorder<'l>> {
    IRQHandlerDescriptor::new(IRQNumber::new(number), name, recorder(name, log))
}

#[test]
fn irq_number_bounds() {
    assert_eq!(IRQNumber::new(0).get(), 0);
    assert_eq!(IRQNumber::new(MAX_IRQ_NUMBER).get(), 300);
    assert!(IRQNumber::try_new(MAX_IRQ_NUMBER).is_some());
    assert!(IRQNumber::try_new(MAX_IRQ_NUMBER + 1).is_none());
}

#[test]
fn register_once_then_already_registered() {
    let log = RefCell::new(Vec::new());
    let mut gic = GICv2::new(0xFF84_1000, 0xFF84_2000);
    for n in [0usize, 33, 153, MAX_IRQ_NUMBER] {
        assert_eq!(gic.register_handler(descriptor(n, "first", &log)), Ok(()));
        assert_eq!(
            gic.register_handler(descriptor(n, "second", &log)),
            Err(IrqError::AlreadyRegistered)
        );
    }
    // The failed attempts left the first handlers in place.
    assert_eq!(gic.handle_pending_irqs(153), Ok(Dispatch::Handled { number: 153 }));
    assert_eq!(*log.borrow(), vec!["first"]);
    assert_eq!(
        gic.registered_handlers(),
        vec![(0, "first"), (33, "first"), (153, "first"), (300, "first")]
    );
}

#[test]
fn registration_refused_after_freeze() {
    let log = RefCell::new(Vec::new());
    let mut gic = GICv2::new(0, 0);
    gic.register_handler(descriptor(40, "net", &log)).unwrap();
    gic.freeze();
    assert!(gic.is_frozen());
    assert_eq!(
        gic.register_handler(descriptor(41, "late", &log)),
        Err(IrqError::TableFrozen)
    );
    assert_eq!(gic.registered_handlers(), vec![(40, "net")]);
}

#[test]
fn dispatch_after_freeze_is_repeatable() {
    let log = RefCell::new(Vec::new());
    let mut gic = GICv2::new(0, 0);
    gic.register_handler(descriptor(64, "dma", &log)).unwrap();
    gic.freeze();
    for _ in 0..3 {
        assert_eq!(gic.handle_pending_irqs(64), Ok(Dispatch::Handled { number: 64 }));
    }
    assert_eq!(*log.borrow(), vec!["dma", "dma", "dma"]);
    assert_eq!(gic.registered_handlers(), vec![(64, "dma")]);
}

#[test]
fn unhandled_irq_is_an_error() {
    let log = RefCell::new(Vec::new());
    let mut gic = GICv2::new(0, 0);
    gic.register_handler(descriptor(33, "timer", &log)).unwrap();
    gic.freeze();
    assert_eq!(gic.handle_pending_irqs(34), Err(IrqError::NoHandler { number: 34 }));
    assert!(log.borrow().is_empty());
}

#[test]
fn timer_and_uart_dispatch_only_the_pending_one() {
    let log = RefCell::new(Vec::new());
    let mut gic = GICv2::new(0, 0);
    gic.register_handler(descriptor(33, "timer", &log)).unwrap();
    gic.register_handler(descriptor(153, "uart", &log)).unwrap();
    let timer = IRQNumber::new(33);
    let uart = IRQNumber::new(153);
    gic.enable(&timer);
    gic.enable(&uart);
    assert!(gic.is_enabled(&timer));
    assert!(gic.is_enabled(&uart));
    gic.freeze();
    let r = gic.handle_pending_irqs(153);
    // Completion is due for 153 alone.
    assert_eq!(r, Ok(Dispatch::Handled { number: 153 }));
    assert_eq!(*log.borrow(), vec!["uart"]);
}

#[test]
fn spurious_value_runs_nothing_and_completes_nothing() {
    let log = RefCell::new(Vec::new());
    let mut gic = GICv2::new(0, 0);
    gic.register_handler(descriptor(MAX_IRQ_NUMBER, "last", &log)).unwrap();
    gic.freeze();
    assert_eq!(gic.handle_pending_irqs(MAX_IRQ_NUMBER + 1), Ok(Dispatch::Spurious));
    assert_eq!(gic.handle_pending_irqs(1023), Ok(Dispatch::Spurious));
    assert!(log.borrow().is_empty());
}

#[test]
fn handler_failure_is_reported() {
    let log = RefCell::new(Vec::new());
    let mut gic = GICv2::new(0, 0);
    let failing = Recorder { label: "disk", fail: Some("bad status"), log: &log };
    gic.register_handler(IRQHandlerDescriptor::new(IRQNumber::new(90), "disk", failing))
        .unwrap();
    assert_eq!(
        gic.handle_pending_irqs(90),
        Err(IrqError::HandlerFailed { number: 90, reason: "bad status" })
    );
    assert_eq!(*log.borrow(), vec!["disk"]);
}

#[test]
fn dispatch_outcome_maps_handler_result() {
    assert_eq!(dispatch_outcome(7, Ok(())), Ok(Dispatch::Handled { number: 7 }));
    assert_eq!(
        dispatch_outcome(7, Err("x")),
        Err(IrqError::HandlerFailed { number: 7, reason: "x" })
    );
}

#[test]
fn enable_is_idempotent() {
    let mut gic: GICv2<Recorder> = GICv2::new(0, 0);
    let n = IRQNumber::new(200);
    assert!(!gic.is_enabled(&n));
    gic.enable(&n);
    gic.enable(&n);
    assert!(gic.is_enabled(&n));
    assert!(!gic.is_enabled(&IRQNumber::new(201)));
}

#[test]
fn init_plan_depends_on_core() {
    let gic: GICv2<Recorder> = GICv2::new(0xFF84_1000, 0xFF84_2000);
    let boot = gic.init_plan(BOOT_CORE_ID);
    assert!(boot.distributor && boot.cpu_interface);
    let other = gic.init_plan(2);
    assert!(!other.distributor && other.cpu_interface);
    assert_eq!(gic.gicd_mmio_start_addr(), 0xFF84_1000);
    assert_eq!(gic.gicc_mmio_start_addr(), 0xFF84_2000);
    assert_eq!(gic.compatible(), "GICv2 (ARM Generic Interrupt Controller v2)");
}

#[test]
fn descriptor_accessors() {
    let log = RefCell::new(Vec::new());
    let d = descriptor(77, "spi", &log);
    assert_eq!(d.number().get(), 77);
    assert_eq!(d.name(), "spi");
    assert_eq!(d.handler().handle(), Ok(()));
}

#[test]
fn acknowledge_and_enable_positions() {
    assert_eq!(acknowledged_irq_number(0x0000_1c99), 0x099);
    assert_eq!(acknowledged_irq_number(1023), 1023);
    assert_eq!(enable_bit(&IRQNumber::new(153)), (4, 1 << 25));
    assert_eq!(enable_bit(&IRQNumber::new(31)), (0, 1 << 31));
    assert_eq!(enable_bit(&IRQNumber::new(32)), (1, 1));
}

#[test]
fn listing_includes_private_interrupts() {
    let log = RefCell::new(Vec::new());
    let mut gic = GICv2::new(0, 0);
    assert!(gic.registered_handlers().is_empty());
    gic.register_handler(descriptor(5, "sgi", &log)).unwrap();
    gic.register_handler(descriptor(33, "timer", &log)).unwrap();
    assert_eq!(gic.registered_handlers(), vec![(5, "sgi"), (33, "timer")]);
}
