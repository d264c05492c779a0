use std::cell::RefCell;

use kernel_core::driver::{
    DeviceDriver, DeviceDriverDescriptor, DriverInitError, DriverManager, DriverManagerInner,
    InitCall, InitStage, InitStep, RegisterError, NUM_DRIVERS,
};

struct Mock<'l> {
    name: &'static str,
    fail_init: Option<&'static str>,
    log: &'l RefCell<Vec<String>>,
}

impl<'l> DeviceDriver for Mock<'l> {
    fn compatible_spec(&self) -> &'static str {
        self.name
    }

    fn compatible(&self) -> &'static str {
        self.name
    }

    fn init_ensures(&self, r: Result<(), &'static str>) -> bool {
        r == self.fail_init.map_or(Ok(()), Err)
    }

    fn init(&self) -> Result<(), &'static str> {
        self.log.borrow_mut().push(format!("{}.init", self.name));
        match self.fail_init {
            Some(e) => Err(e),
            None => Ok(()),
        }
    }
}

type Callback<'l> = Box<dyn Fn() -> Result<(), &'static str> + 'l>;

fn callback<'l>(
    log: &'l RefCell<Vec<String>>,
    name: &'static str,
    result: Result<(), &'static str>,
) -> Option<Callback<'l>> {
    Some(Box::new(move || {
        log.borrow_mut().push(format!("{}.post_init", name));
        result
    }))
}

fn mock<'l>(name: &'static str, log: &'l RefCell<Vec<String>>) -> Mock<'l> {
    Mock { name, fail_init: None, log }
}

#[test]
fn enumerate_lists_names_in_registration_order() {
    let log = RefCell::new(Vec::new());
    let a = mock("BCM PL011 UART", &log);
    let b = mock("BCM GPIO", &log);
    let c = mock("GICv2", &log);
    let mut m: DriverManager<Mock, Callback> = DriverManager::new();
    assert!(m.enumerate().is_empty());
    m.register_driver(DeviceDriverDescriptor::new(&a, None)).unwrap();
    m.register_driver(DeviceDriverDescriptor::new(&b, None)).unwrap();
    m.register_driver(DeviceDriverDescriptor::new(&c, None)).unwrap();
    assert_eq!(m.len(), 3);
    assert_eq!(m.enumerate(), vec!["BCM PL011 UART", "BCM GPIO", "GICv2"]);
    assert!(log.borrow().is_empty());
}

#[test]
fn register_beyond_capacity_fails_and_keeps_registry() {
    let log = RefCell::new(Vec::new());
    let names = ["d0", "d1", "d2", "d3", "d4"];
    let drivers: Vec<Mock> = names.iter().map(|n| mock(n, &log)).collect();
    let extra = mock("extra", &log);
    let mut m: DriverManager<Mock, Callback> = DriverManager::new();
    for d in drivers.iter() {
        assert_eq!(m.register_driver(DeviceDriverDescriptor::new(d, None)), Ok(()));
    }
    assert_eq!(m.len(), NUM_DRIVERS);
    let r = m.register_driver(DeviceDriverDescriptor::new(&extra, None));
    assert_eq!(r, Err(RegisterError::CapacityExceeded));
    assert_eq!(m.len(), NUM_DRIVERS);
    assert_eq!(m.enumerate(), names.to_vec());
}

#[test]
fn init_drivers_runs_init_then_post_init_in_order() {
    let log = RefCell::new(Vec::new());
    let a = mock("A", &log);
    let b = mock("B", &log);
    let mut m: DriverManager<Mock, Callback> = DriverManager::new();
    m.register_driver(DeviceDriverDescriptor::new(&a, callback(&log, "A", Ok(())))).unwrap();
    m.register_driver(DeviceDriverDescriptor::new(&b, callback(&log, "B", Ok(())))).unwrap();
    assert_eq!(m.init_drivers(), Ok(()));
    assert_eq!(
        *log.borrow(),
        vec!["A.init", "A.post_init", "B.init", "B.post_init"]
    );
}

#[test]
fn init_drivers_skips_missing_callback() {
    let log = RefCell::new(Vec::new());
    let a = mock("A", &log);
    let b = mock("B", &log);
    let mut m: DriverManager<Mock, Callback> = DriverManager::new();
    m.register_driver(DeviceDriverDescriptor::new(&a, None)).unwrap();
    m.register_driver(DeviceDriverDescriptor::new(&b, callback(&log, "B", Ok(())))).unwrap();
    assert_eq!(m.init_drivers(), Ok(()));
    assert_eq!(*log.borrow(), vec!["A.init", "B.init", "B.post_init"]);
}

#[test]
fn init_failure_halts_and_names_driver() {
    let log = RefCell::new(Vec::new());
    let a = Mock { name: "A", fail_init: Some("no clock"), log: &log };
    let b = mock("B", &log);
    let mut m: DriverManager<Mock, Callback> = DriverManager::new();
    m.register_driver(DeviceDriverDescriptor::new(&a, callback(&log, "A", Ok(())))).unwrap();
    m.register_driver(DeviceDriverDescriptor::new(&b, callback(&log, "B", Ok(())))).unwrap();
    assert_eq!(
        m.init_drivers(),
        Err(DriverInitError { driver: "A", stage: InitStage::Init, reason: "no clock" })
    );
    assert_eq!(*log.borrow(), vec!["A.init"]);
}

#[test]
fn post_init_failure_halts_and_names_driver() {
    let log = RefCell::new(Vec::new());
    let a = mock("A", &log);
    let b = mock("B", &log);
    let mut m: DriverManager<Mock, Callback> = DriverManager::new();
    m.register_driver(DeviceDriverDescriptor::new(&a, callback(&log, "A", Err("pins busy"))))
        .unwrap();
    m.register_driver(DeviceDriverDescriptor::new(&b, callback(&log, "B", Ok(())))).unwrap();
    assert_eq!(
        m.init_drivers(),
        Err(DriverInitError { driver: "A", stage: InitStage::PostInit, reason: "pins busy" })
    );
    assert_eq!(*log.borrow(), vec!["A.init", "A.post_init"]);
}

#[test]
fn init_steps_follow_registration_order() {
    let log = RefCell::new(Vec::new());
    let a = mock("A", &log);
    let b = mock("B", &log);
    let mut m: DriverManager<Mock, Callback> = DriverManager::new();
    assert_eq!(m.first_init_step(), InitStep::Done);
    m.register_driver(DeviceDriverDescriptor::new(&a, callback(&log, "A", Ok(())))).unwrap();
    m.register_driver(DeviceDriverDescriptor::new(&b, None)).unwrap();
    let init_a = InitCall { index: 0, stage: InitStage::Init };
    let post_a = InitCall { index: 0, stage: InitStage::PostInit };
    let init_b = InitCall { index: 1, stage: InitStage::Init };
    assert_eq!(m.first_init_step(), InitStep::Call(init_a));
    assert_eq!(m.next_init_step(init_a, Ok(())), InitStep::Call(post_a));
    assert_eq!(m.next_init_step(post_a, Ok(())), InitStep::Call(init_b));
    assert_eq!(m.next_init_step(init_b, Ok(())), InitStep::Done);
    assert_eq!(
        m.next_init_step(init_b, Err("timeout")),
        InitStep::Failed(DriverInitError {
            driver: "B",
            stage: InitStage::Init,
            reason: "timeout"
        })
    );
    assert!(log.borrow().is_empty());
}

#[test]
fn plain_driver_with_fn_pointer_callbacks() {
    struct Plain;
    impl DeviceDriver for Plain {
        fn compatible_spec(&self) -> &'static str {
            "plain"
        }

        fn compatible(&self) -> &'static str {
            "plain"
        }

        fn init_ensures(&self, r: Result<(), &'static str>) -> bool {
            r.is_ok()
        }

        fn init(&self) -> Result<(), &'static str> {
            Ok(())
        }
    }
    let p = Plain;
    assert_eq!(p.init(), Ok(()));
    let mut m: DriverManager<Plain, fn() -> Result<(), &'static str>> = DriverManager::new();
    m.register_driver(DeviceDriverDescriptor::new(&p, None)).unwrap();
    assert_eq!(m.init_drivers(), Ok(()));
}

#[test]
fn inner_registry_starts_empty() {
    let log = RefCell::new(Vec::new());
    let a = mock("A", &log);
    let _inner: DriverManagerInner<Mock, Callback> = DriverManagerInner::new();
    let d: DeviceDriverDescriptor<Mock, Callback> = DeviceDriverDescriptor::new(&a, None);
    assert_eq!(d.device_driver().compatible(), "A");
}

#[test]
fn descriptor_takes_note_of_name() {
    let log = RefCell::new(Vec::new());
    let a = mock("BCM GPIO", &log);
    let d: DeviceDriverDescriptor<Mock, Callback> = DeviceDriverDescriptor::new(&a, None);
    assert_eq!(d.compatible(), "BCM GPIO");
}
