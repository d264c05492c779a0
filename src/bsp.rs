//! Board support for the Raspberry Pi 3 and 4: names, the peripheral memory
//! map, and the one-time registration of the board's drivers.

use vstd::prelude::*;
use crate::driver::{
    registration,
    DeviceDriver,
    DeviceDriverDescriptor,
    DriverManager,
    RegisterError,
};

verus! {

/// The supported boards.
#[derive(PartialEq, Eq, Structural, Clone, Copy, Debug)]
pub enum Board {
    RaspberryPi3,
    RaspberryPi4,
}

/// Offset of the GPIO block from the peripheral base.
pub const GPIO_OFFSET: usize = 0x0020_0000;

/// Offset of the PL011 UART from the peripheral base.
pub const UART_OFFSET: usize = 0x0020_1000;

/// Peripheral base of the Raspberry Pi 3.
pub const RPI3_MMIO_START: usize = 0x3F00_0000;

/// Peripheral base of the Raspberry Pi 4.
pub const RPI4_MMIO_START: usize = 0xFE00_0000;

/// The peripheral base of `board`.
pub open spec fn mmio_start_spec(board: Board) -> usize {
    match board {
        Board::RaspberryPi3 => RPI3_MMIO_START,
        Board::RaspberryPi4 => RPI4_MMIO_START,
    }
}

/// The board's name.
pub fn board_name(board: Board) -> (r: &'static str)
    ensures
        board == Board::RaspberryPi3 ==> r@ == "Raspberry Pi 3"@,
        board == Board::RaspberryPi4 ==> r@ == "Raspberry Pi 4"@,
{
    match board {
        Board::RaspberryPi3 => "Raspberry Pi 3",
        Board::RaspberryPi4 => "Raspberry Pi 4",
    }
}

/// The peripheral base of `board`.
pub fn mmio_start(board: Board) -> (r: usize)
    ensures
        r == mmio_start_spec(board),
{
    match board {
        Board::RaspberryPi3 => RPI3_MMIO_START,
        Board::RaspberryPi4 => RPI4_MMIO_START,
    }
}

/// Where the GPIO block of `board` starts.
pub fn gpio_start(board: Board) -> (r: usize)
    ensures
        r == mmio_start_spec(board) + GPIO_OFFSET,
{
    mmio_start(board) + GPIO_OFFSET
}

/// Where the PL011 UART of `board` starts.
pub fn pl011_uart_start(board: Board) -> (r: usize)
    ensures
        r == mmio_start_spec(board) + UART_OFFSET,
{
    mmio_start(board) + UART_OFFSET
}

/// Registers the board's drivers with `manager`, once: the UART, then the
/// GPIO. A second call, or a full registry, fails; the first registration
/// stands even when the second fails.
pub fn init<'a, D: DeviceDriver, C: Fn() -> Result<(), &'static str>>(
    init_done: &mut bool,
    manager: &mut DriverManager<'a, D, C>,
    uart: DeviceDriverDescriptor<'a, D, C>,
    gpio: DeviceDriverDescriptor<'a, D, C>,
) -> (r: Result<(), &'static str>)
    requires
        old(manager).wf(),
    ensures
        final(manager).wf(),
        *old(init_done) ==> r == Err::<(), &'static str>("Init already done"),
        *old(init_done) ==> *final(init_done),
        *old(init_done) ==> final(manager).descriptors() == old(manager).descriptors(),
        !*old(init_done) ==> (r is Ok <==> old(manager).descriptors().len() + 2 <= crate::driver::NUM_DRIVERS),
        r is Ok ==> *final(init_done),
        r is Err ==> *final(init_done) == *old(init_done),
        !*old(init_done) && old(manager).descriptors().len() >= crate::driver::NUM_DRIVERS
            ==> final(manager).descriptors() == old(manager).descriptors(),
        !*old(init_done) && old(manager).descriptors().len() + 1 == crate::driver::NUM_DRIVERS
            ==> final(manager).descriptors() == old(manager).descriptors().push(uart),
        r is Ok ==> final(manager).descriptors() == old(manager).descriptors().push(uart).push(gpio),
{
    if *init_done {
        return Err("Init already done");
    }
    if let Err(e) = driver_register(manager, uart) {
        return Err(e);
    }
    if let Err(e) = driver_register(manager, gpio) {
        return Err(e);
    }
    *init_done = true;
    Ok(())
}

/// Registers one driver, naming the failure as the board code reports it.
fn driver_register<'a, D: DeviceDriver, C: Fn() -> Result<(), &'static str>>(
    manager: &mut DriverManager<'a, D, C>,
    descriptor: DeviceDriverDescriptor<'a, D, C>,
) -> (r: Result<(), &'static str>)
    requires
        old(manager).wf(),
    ensures
        final(manager).wf(),
        registration(
            old(manager).descriptors(),
            descriptor,
            final(manager).descriptors(),
            match r {
                Ok(()) => Ok::<(), RegisterError>(()),
                Err(_) => Err::<(), RegisterError>(RegisterError::CapacityExceeded),
            },
        ),
{
    match manager.register_driver(descriptor) {
        Ok(()) => Ok(()),
        Err(RegisterError::CapacityExceeded) => Err("Driver registry full"),
    }
}

} // verus!
