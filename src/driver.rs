//! Driver support: the capability every driver offers, descriptors pairing a
//! driver with an optional post-init callback, and a bounded registry that
//! brings the registered drivers up in registration order.

use vstd::prelude::*;

verus! {

/// How many drivers the registry holds.
pub const NUM_DRIVERS: usize = 5;

/// What every device driver offers the kernel.
pub trait DeviceDriver {
    /// The compatible string that [`DeviceDriver::compatible`] returns.
    spec fn compatible_spec(&self) -> &'static str;

    /// The compatible string that identifies the driver.
    fn compatible(&self) -> (r: &'static str)
        ensures
            r == self.compatible_spec(),
    ;

    /// What the driver promises of a result `r` of [`DeviceDriver::init`].
    spec fn init_ensures(&self, r: Result<(), &'static str>) -> bool;

    /// Brings the device up. Drivers may touch system-wide state here, so the
    /// kernel calls it while one core runs with interrupts masked.
    fn init(&self) -> (r: Result<(), &'static str>)
        ensures
            self.init_ensures(r),
    ;
}

/// A driver together with the callback to run once it is initialized, and
/// the compatible name the driver reported when the descriptor was made.
pub struct DeviceDriverDescriptor<'a, D, C> {
    device_driver: &'a D,
    post_init_callback: Option<C>,
    compatible: &'static str,
}

impl<'a, D, C> DeviceDriverDescriptor<'a, D, C> {
    /// The driver.
    pub closed spec fn driver_spec(&self) -> &'a D {
        self.device_driver
    }

    /// The driver's compatible name.
    pub closed spec fn name_spec(&self) -> &'static str {
        self.compatible
    }

    /// The callback to run after the driver's init.
    pub closed spec fn callback_spec(&self) -> Option<C> {
        self.post_init_callback
    }

    /// The driver's compatible name.
    pub fn compatible(&self) -> (r: &'static str)
        ensures
            r == self.name_spec(),
    {
        self.compatible
    }

    /// The driver.
    pub fn device_driver(&self) -> (r: &'a D)
        ensures
            r == self.driver_spec(),
    {
        self.device_driver
    }
}

impl<'a, D: DeviceDriver, C> DeviceDriverDescriptor<'a, D, C> {
    /// Pairs `device_driver` with `post_init_callback`, taking note of the
    /// driver's compatible name.
    pub fn new(device_driver: &'a D, post_init_callback: Option<C>) -> (r: Self)
        ensures
            r.driver_spec() == device_driver,
            r.callback_spec() == post_init_callback,
            r.name_spec() == device_driver.compatible_spec(),
    {
        let compatible = device_driver.compatible();
        DeviceDriverDescriptor { device_driver, post_init_callback, compatible }
    }
}

/// The registry was full.
#[derive(PartialEq, Eq, Structural, Clone, Copy, Debug)]
pub enum RegisterError {
    CapacityExceeded,
}

/// Which of a driver's two bring-up calls is meant.
#[derive(PartialEq, Eq, Structural, Clone, Copy, Debug)]
pub enum InitStage {
    /// The driver's own init.
    Init,
    /// The post-init callback of its descriptor.
    PostInit,
}

/// One bring-up call: a stage of the driver registered at `index`.
#[derive(PartialEq, Eq, Structural, Clone, Copy, Debug)]
pub struct InitCall {
    pub index: usize,
    pub stage: InitStage,
}

/// A bring-up call failed: the driver's name, the stage, and the reason given.
#[derive(PartialEq, Eq, Clone, Copy, Debug)]
pub struct DriverInitError {
    pub driver: &'static str,
    pub stage: InitStage,
    pub reason: &'static str,
}

/// What bring-up does next.
#[derive(PartialEq, Eq, Clone, Copy, Debug)]
pub enum InitStep {
    /// Make this call.
    Call(InitCall),
    /// Every driver is up.
    Done,
    /// A call failed; nothing more is called.
    Failed(DriverInitError),
}

/// The bring-up calls for the descriptor at index `i` of `descs`: its
/// driver's init, then its callback if it has one.
pub open spec fn own_calls<'a, D, C>(descs: Seq<DeviceDriverDescriptor<'a, D, C>>, i: int) -> Seq<
    InitCall,
> {
    if descs[i].callback_spec() is Some {
        seq![
            call_of(i, InitStage::Init),
            call_of(i, InitStage::PostInit),
        ]
    } else {
        seq![call_of(i, InitStage::Init)]
    }
}

/// The bring-up calls for `descs`, in order: each driver's init, then its
/// callback if it has one, driver after driver in registration order.
#[verifier::opaque]
pub open spec fn init_schedule<'a, D, C>(descs: Seq<DeviceDriverDescriptor<'a, D, C>>) -> Seq<
    InitCall,
>
    decreases descs.len(),
{
    if descs.len() == 0 {
        Seq::empty()
    } else {
        init_schedule(descs.drop_last()) + own_calls(descs, descs.len() - 1)
    }
}

/// The call of `stage` for the driver registered at `index`.
pub open spec fn call_of(index: int, stage: InitStage) -> InitCall {
    InitCall { index: index as usize, stage }
}

/// The first call of bring-up over `descs`.
pub open spec fn first_step<'a, D, C>(descs: Seq<DeviceDriverDescriptor<'a, D, C>>) -> InitStep {
    if descs.len() == 0 {
        InitStep::Done
    } else {
        InitStep::Call(InitCall { index: 0, stage: InitStage::Init })
    }
}

/// The call that follows a successful `call` during bring-up over `descs`.
pub open spec fn step_after<'a, D, C>(
    descs: Seq<DeviceDriverDescriptor<'a, D, C>>,
    call: InitCall,
) -> InitStep {
    if call.stage == InitStage::Init && descs[call.index as int].callback_spec() is Some {
        InitStep::Call(InitCall { index: call.index, stage: InitStage::PostInit })
    } else if call.index + 1 < descs.len() {
        InitStep::Call(InitCall { index: (call.index + 1) as usize, stage: InitStage::Init })
    } else {
        InitStep::Done
    }
}

/// The call is one of bring-up's over `descs`.
pub open spec fn valid_call<'a, D, C>(descs: Seq<DeviceDriverDescriptor<'a, D, C>>, call: InitCall) -> bool {
    &&& call.index < descs.len()
    &&& call.stage == InitStage::PostInit ==> descs[call.index as int].callback_spec() is Some
}

/// The registry `after` and the result that registering `d` into `before` leaves.
pub open spec fn registration<'a, D, C>(
    before: Seq<DeviceDriverDescriptor<'a, D, C>>,
    d: DeviceDriverDescriptor<'a, D, C>,
    after: Seq<DeviceDriverDescriptor<'a, D, C>>,
    r: Result<(), RegisterError>,
) -> bool {
    if before.len() < NUM_DRIVERS {
        r == Ok::<(), RegisterError>(()) && after == before.push(d)
    } else {
        r == Err::<(), RegisterError>(RegisterError::CapacityExceeded) && after == before
    }
}

/// The registry behind [`DriverManager`]: a fixed number of slots filled in
/// registration order.
pub struct DriverManagerInner<'a, D, C> {
    next_index: usize,
    descriptors: Vec<Option<DeviceDriverDescriptor<'a, D, C>>>,
}

impl<'a, D, C> DriverManagerInner<'a, D, C> {
    /// The registered descriptors, in registration order.
    pub closed spec fn registered(&self) -> Seq<DeviceDriverDescriptor<'a, D, C>> {
        self.descriptors@.take(self.next_index as int).map_values(
            |o: Option<DeviceDriverDescriptor<'a, D, C>>| o->Some_0,
        )
    }

    /// `NUM_DRIVERS` slots, the first `next_index` filled and the rest empty.
    pub closed spec fn wf(&self) -> bool {
        &&& self.descriptors@.len() == NUM_DRIVERS
        &&& self.next_index <= NUM_DRIVERS
        &&& forall|i: int|
            0 <= i < NUM_DRIVERS ==> ((#[trigger] self.descriptors@[i]) is Some <==> i
                < self.next_index)
    }

    /// An empty registry.
    pub fn new() -> (r: Self)
        ensures
            r.wf(),
            r.registered() == Seq::<DeviceDriverDescriptor<'a, D, C>>::empty(),
    {
        let mut descriptors: Vec<Option<DeviceDriverDescriptor<'a, D, C>>> = Vec::new();
        let mut i: usize = 0;
        while i < NUM_DRIVERS
            invariant
                i <= NUM_DRIVERS,
                descriptors@.len() == i,
                forall|j: int| 0 <= j < i ==> (#[trigger] descriptors@[j]) is None,
            decreases NUM_DRIVERS - i,
        {
            descriptors.push(None);
            i = i + 1;
        }
        let r = DriverManagerInner { next_index: 0, descriptors };
        assert(r.registered() =~= Seq::<DeviceDriverDescriptor<'a, D, C>>::empty());
        r
    }
}

/// Holds the registered drivers and brings them up.
pub struct DriverManager<'a, D, C> {
    inner: DriverManagerInner<'a, D, C>,
}

impl<'a, D: DeviceDriver, C: Fn() -> Result<(), &'static str>> DriverManager<'a, D, C> {
    /// The registered descriptors, in registration order.
    pub closed spec fn descriptors(&self) -> Seq<DeviceDriverDescriptor<'a, D, C>> {
        self.inner.registered()
    }

    /// The registry's slots are consistent.
    pub closed spec fn wf(&self) -> bool {
        self.inner.wf()
    }

    /// A manager with no driver registered.
    pub fn new() -> (r: Self)
        ensures
            r.wf(),
            r.descriptors() == Seq::<DeviceDriverDescriptor<'a, D, C>>::empty(),
    {
        DriverManager { inner: DriverManagerInner::new() }
    }

    /// How many drivers are registered.
    pub fn len(&self) -> (r: usize)
        requires
            self.wf(),
        ensures
            r == self.descriptors().len(),
    {
        self.inner.next_index
    }

    /// Appends `descriptor` to the registry; fails, leaving the registry as
    /// it was, when all `NUM_DRIVERS` slots are taken.
    pub fn register_driver(&mut self, descriptor: DeviceDriverDescriptor<'a, D, C>) -> (r: Result<
        (),
        RegisterError,
    >)
        requires
            old(self).wf(),
        ensures
            final(self).wf(),
            registration(old(self).descriptors(), descriptor, final(self).descriptors(), r),
    {
        let n = self.inner.next_index;
        if n >= NUM_DRIVERS {
            return Err(RegisterError::CapacityExceeded);
        }
        let ghost before = self.descriptors();
        self.inner.descriptors.set(n, Some(descriptor));
        self.inner.next_index = n + 1;
        assert(self.descriptors() =~= before.push(descriptor));
        Ok(())
    }

    /// The compatible names of the registered drivers, in registration order.
    pub fn enumerate(&self) -> (r: Vec<&'static str>)
        requires
            self.wf(),
        ensures
            r@.len() == self.descriptors().len(),
            forall|i: int|
                0 <= i < r@.len() ==> #[trigger] r@[i]
                    == self.descriptors()[i].name_spec(),
    {
        let mut names: Vec<&'static str> = Vec::new();
        let mut i: usize = 0;
        while i < self.inner.next_index
            invariant
                self.wf(),
                i <= self.inner.next_index,
                names@.len() == i,
                forall|j: int|
                    0 <= j < i ==> #[trigger] names@[j]
                        == self.descriptors()[j].name_spec(),
            decreases self.inner.next_index - i,
        {
            let d = self.inner.descriptors[i].as_ref().unwrap();
            names.push(d.compatible);
            i = i + 1;
        }
        names
    }

    /// The first step of bring-up.
    pub fn first_init_step(&self) -> (r: InitStep)
        requires
            self.wf(),
        ensures
            r == first_step(self.descriptors()),
    {
        if self.inner.next_index == 0 {
            InitStep::Done
        } else {
            InitStep::Call(InitCall { index: 0, stage: InitStage::Init })
        }
    }

    /// The step that follows `call` once it returned `outcome`: on failure,
    /// bring-up stops with the driver's name, the stage and the reason; on
    /// success it goes on as [`step_after`] states.
    pub fn next_init_step(&self, call: InitCall, outcome: Result<(), &'static str>) -> (r: InitStep)
        requires
            self.wf(),
            valid_call(self.descriptors(), call),
        ensures
            match outcome {
                Ok(()) => r == step_after(self.descriptors(), call),
                Err(reason) => r == InitStep::Failed(
                    DriverInitError {
                        driver: self.descriptors()[call.index as int].name_spec(),
                        stage: call.stage,
                        reason,
                    },
                ),
            },
    {
        let d = self.inner.descriptors[call.index].as_ref().unwrap();
        match outcome {
            Err(reason) => InitStep::Failed(
                DriverInitError { driver: d.compatible, stage: call.stage, reason },
            ),
            Ok(()) => {
                if call.stage == InitStage::Init && d.post_init_callback.is_some() {
                    InitStep::Call(InitCall { index: call.index, stage: InitStage::PostInit })
                } else if call.index + 1 < self.inner.next_index {
                    InitStep::Call(InitCall { index: call.index + 1, stage: InitStage::Init })
                } else {
                    InitStep::Done
                }
            },
        }
    }

    /// Makes one bring-up call: the driver's init, or its descriptor's callback.
    fn perform_init_call(&self, call: InitCall) -> (r: Result<(), &'static str>)
        requires
            self.wf(),
            valid_call(self.descriptors(), call),
            callbacks_callable(self.descriptors()),
        ensures
            call_result(self.descriptors(), call, r),
    {
        let d = self.inner.descriptors[call.index].as_ref().unwrap();
        match call.stage {
            InitStage::Init => d.device_driver.init(),
            InitStage::PostInit => {
                let callback = d.post_init_callback.as_ref().unwrap();
                callback()
            },
        }
    }

    /// Brings every registered driver up, in registration order: its init,
    /// then its callback if it has one. The first failure ends bring-up and is
    /// returned with the driver's name, the stage and the reason.
    pub fn init_drivers(&self) -> (r: Result<(), DriverInitError>)
        requires
            self.wf(),
            callbacks_callable(self.descriptors()),
        ensures
            match r {
                Ok(()) => {
                    &&& calls_succeeded(
                        self.descriptors(),
                        init_schedule(self.descriptors()).len() as int,
                    )
                    &&& forall|i: int|
                        0 <= i < self.descriptors().len() ==> (#[trigger] self.descriptors()[i]).driver_spec().init_ensures(
                            Ok(()),
                        )
                    &&& forall|i: int|
                        0 <= i < self.descriptors().len() && (#[trigger] self.descriptors()[i]).callback_spec() is Some
                            ==> self.descriptors()[i].callback_spec()->Some_0.ensures((), Ok(()))
                },
                Err(e) => exists|k: int|
                    0 <= k < init_schedule(self.descriptors()).len()
                    && #[trigger] failed_at(self.descriptors(), k, e),
            },
    {
        let ghost descs = self.descriptors();
        let ghost sched = init_schedule(descs);
        proof {
            lemma_schedule_walk(descs);
        }
        let mut step = self.first_init_step();
        let ghost mut k: int = 0;
        loop
            invariant
                self.wf(),
                descs == self.descriptors(),
                sched == init_schedule(descs),
                callbacks_callable(descs),
                0 <= k <= sched.len(),
                step == (if k < sched.len() { InitStep::Call(sched[k]) } else { InitStep::Done }),
                forall|j: int| 0 <= j < sched.len() ==> valid_call(descs, #[trigger] sched[j]),
                forall|j: int|
                    0 <= j < sched.len() - 1 ==> #[trigger] step_after(descs, sched[j])
                        == InitStep::Call(sched[j + 1]),
                sched.len() > 0 ==> step_after(descs, sched[sched.len() - 1]) == InitStep::Done,
                calls_succeeded(descs, k),
            decreases sched.len() - k,
        {
            match step {
                InitStep::Call(call) => {
                    let outcome = self.perform_init_call(call);
                    step = self.next_init_step(call, outcome);
                    if let InitStep::Failed(e) = step {
                        assert(failed_at(descs, k, e));
                        return Err(e);
                    }
                    proof {
                        assert forall|j: int| 0 <= j < k + 1 implies call_result(
                            descs,
                            #[trigger] sched[j],
                            Ok(()),
                        ) by {
                            if j < k {
                                assert(calls_succeeded(descs, k));
                            } else {
                                assert(call == sched[k]);
                                assert(outcome->Ok_0 == ());
                                assert(outcome == Ok::<(), &'static str>(()));
                            }
                        }
                        k = k + 1;
                    }
                },
                InitStep::Done => {
                    proof {
                        lemma_schedule_order(descs);
                        assert forall|i: int| 0 <= i < descs.len() implies (#[trigger] descs[i]).driver_spec().init_ensures(
                            Ok(()),
                        ) by {
                            let c = call_of(i, InitStage::Init);
                            assert(exists|j: int| 0 <= j < sched.len() && sched[j] == c);
                            let j = choose|j: int| 0 <= j < sched.len() && sched[j] == c;
                            assert(call_result(descs, sched[j], Ok(())));
                        }
                        assert forall|i: int|
                            0 <= i < descs.len() && (#[trigger] descs[i]).callback_spec() is Some implies descs[i].callback_spec()->Some_0.ensures(
                            (),
                            Ok(()),
                        ) by {
                            let c = call_of(i, InitStage::PostInit);
                            assert(exists|j: int| 0 <= j < sched.len() && sched[j] == c);
                            let j = choose|j: int| 0 <= j < sched.len() && sched[j] == c;
                            assert(call_result(descs, sched[j], Ok(())));
                        }
                    }
                    return Ok(());
                },
                InitStep::Failed(e) => {
                    return Err(e);
                },
            }
        }
    }
}

/// Every callback of `descs` may be called.
pub open spec fn callbacks_callable<'a, D, C: Fn() -> Result<(), &'static str>>(
    descs: Seq<DeviceDriverDescriptor<'a, D, C>>,
) -> bool {
    forall|i: int|
        0 <= i < descs.len() && (#[trigger] descs[i]).callback_spec() is Some
            ==> descs[i].callback_spec()->Some_0.requires(())
}

/// What the driver or callback that `call` names promises of its result `r`.
pub open spec fn call_result<'a, D: DeviceDriver, C: Fn() -> Result<(), &'static str>>(
    descs: Seq<DeviceDriverDescriptor<'a, D, C>>,
    call: InitCall,
    r: Result<(), &'static str>,
) -> bool {
    match call.stage {
        InitStage::Init => descs[call.index as int].driver_spec().init_ensures(r),
        InitStage::PostInit => descs[call.index as int].callback_spec()->Some_0.ensures((), r),
    }
}

/// The first `k` bring-up calls over `descs` were made and returned success.
pub open spec fn calls_succeeded<'a, D: DeviceDriver, C: Fn() -> Result<(), &'static str>>(
    descs: Seq<DeviceDriverDescriptor<'a, D, C>>,
    k: int,
) -> bool {
    let sched = init_schedule(descs);
    forall|j: int| 0 <= j < k ==> call_result(descs, #[trigger] sched[j], Ok(()))
}

/// Bring-up over `descs` stopped at its `k`-th call with `e`: every call
/// before it went through, that call returned `e`'s reason, and `e` names
/// its driver and stage.
pub open spec fn failed_at<'a, D: DeviceDriver, C: Fn() -> Result<(), &'static str>>(
    descs: Seq<DeviceDriverDescriptor<'a, D, C>>,
    k: int,
    e: DriverInitError,
) -> bool {
    let call = init_schedule(descs)[k];
    &&& calls_succeeded(descs, k)
    &&& e.driver == descs[call.index as int].name_spec()
    &&& e.stage == call.stage
    &&& call_result(descs, call, Err(e.reason))
}

/// Bring-up walks its schedule call by call: it starts at the schedule's
/// first call, each successful call is followed by the next one, and the
/// last is followed by the end. Every call names a registered driver, and a
/// callback stage only for a descriptor that has a callback.
pub proof fn lemma_schedule_walk<'a, D, C>(descs: Seq<DeviceDriverDescriptor<'a, D, C>>)
    requires
        descs.len() <= usize::MAX,
    ensures
        init_schedule(descs).len() >= descs.len(),
        first_step(descs) == (if init_schedule(descs).len() > 0 {
            InitStep::Call(init_schedule(descs)[0])
        } else {
            InitStep::Done
        }),
        forall|j: int|
            0 <= j < init_schedule(descs).len() ==> valid_call(
                descs,
                #[trigger] init_schedule(descs)[j],
            ),
        forall|j: int|
            0 <= j < init_schedule(descs).len() - 1 ==> #[trigger] step_after(
                descs,
                init_schedule(descs)[j],
            ) == InitStep::Call(init_schedule(descs)[j + 1]),
        init_schedule(descs).len() > 0 ==> step_after(
            descs,
            init_schedule(descs)[init_schedule(descs).len() - 1],
        ) == InitStep::Done,
    decreases descs.len(),
{
    reveal_with_fuel(init_schedule, 1);
    if descs.len() > 0 {
        let p = descs.drop_last();
        let n = descs.len() - 1;
        lemma_schedule_walk(p);
        let sp = init_schedule(p);
        let own = own_calls(descs, n);
        let sched = init_schedule(descs);
        assert(sched == sp + own);
        assert(forall|i: int| 0 <= i < n ==> p[i] == descs[i]);
        assert forall|j: int| 0 <= j < sched.len() implies valid_call(descs, #[trigger] sched[j]) by {
            if j < sp.len() {
                assert(sched[j] == sp[j]);
                assert(valid_call(p, sp[j]));
            } else {
                assert(sched[j] == own[j - sp.len()]);
            }
        }
        assert forall|j: int| 0 <= j < sched.len() - 1 implies #[trigger] step_after(
            descs,
            sched[j],
        ) == InitStep::Call(sched[j + 1]) by {
            if j + 1 < sp.len() {
                assert(sched[j] == sp[j]);
                assert(sched[j + 1] == sp[j + 1]);
                assert(valid_call(p, sp[j]));
                assert(step_after(p, sp[j]) == InitStep::Call(sp[j + 1]));
            } else if j + 1 == sp.len() {
                assert(sched[j] == sp[j]);
                assert(sched[j + 1] == own[0]);
                assert(valid_call(p, sp[j]));
                assert(step_after(p, sp[j]) == InitStep::Done);
            } else {
                assert(sched[j] == own[j - sp.len()]);
                assert(sched[j + 1] == own[j + 1 - sp.len()]);
            }
        }
        if sp.len() > 0 {
            assert(sched[0] == sp[0]);
        }
        assert(sched[sched.len() - 1] == own[own.len() - 1]);
    }
}

/// Bring-up handles the drivers one after the other in registration order,
/// and a driver's callback comes right after its init: of two calls in the
/// schedule, the earlier one is for the same or an earlier driver, and for
/// the same driver the earlier one is its init and the later one its callback.
/// No driver is left out, nor any callback.
pub proof fn lemma_schedule_order<'a, D, C>(descs: Seq<DeviceDriverDescriptor<'a, D, C>>)
    requires
        descs.len() <= usize::MAX,
    ensures
        forall|j1: int, j2: int|
            0 <= j1 < j2 < init_schedule(descs).len() ==> {
                let c1 = #[trigger] init_schedule(descs)[j1];
                let c2 = #[trigger] init_schedule(descs)[j2];
                &&& c1.index <= c2.index
                &&& c1.index == c2.index ==> c1.stage == InitStage::Init && c2.stage
                    == InitStage::PostInit
            },
        forall|i: int|
            0 <= i < descs.len() ==> exists|j: int|
                0 <= j < init_schedule(descs).len() && init_schedule(descs)[j] == #[trigger] call_of(
                    i,
                    InitStage::Init,
                ),
        forall|i: int|
            0 <= i < descs.len() && descs[i].callback_spec() is Some ==> exists|j: int|
                0 <= j < init_schedule(descs).len() && init_schedule(descs)[j] == #[trigger] call_of(
                    i,
                    InitStage::PostInit,
                ),
    decreases descs.len(),
{
    reveal_with_fuel(init_schedule, 1);
    if descs.len() > 0 {
        let p = descs.drop_last();
        let n = descs.len() - 1;
        lemma_schedule_order(p);
        lemma_schedule_walk(p);
        let sp = init_schedule(p);
        let own = own_calls(descs, n);
        let sched = init_schedule(descs);
        assert(sched == sp + own);
        assert forall|j1: int, j2: int| 0 <= j1 < j2 < sched.len() implies {
            let c1 = #[trigger] sched[j1];
            let c2 = #[trigger] sched[j2];
            &&& c1.index <= c2.index
            &&& c1.index == c2.index ==> c1.stage == InitStage::Init && c2.stage
                == InitStage::PostInit
        } by {
            if j2 < sp.len() {
                assert(sched[j1] == sp[j1] && sched[j2] == sp[j2]);
            } else if j1 < sp.len() {
                assert(sched[j1] == sp[j1]);
                assert(valid_call(p, sp[j1]));
                assert(sched[j2] == own[j2 - sp.len()]);
            } else {
                assert(sched[j1] == own[j1 - sp.len()]);
                assert(sched[j2] == own[j2 - sp.len()]);
            }
        }
        assert forall|i: int| 0 <= i < descs.len() implies exists|j: int|
            0 <= j < sched.len() && sched[j] == #[trigger] call_of(i, InitStage::Init) by {
            if i < n {
                let j = choose|j: int|
                    0 <= j < sp.len() && sp[j] == call_of(i, InitStage::Init);
                assert(sched[j] == sp[j]);
            } else {
                assert(sched[sp.len() as int] == own[0]);
            }
        }
        assert forall|i: int|
            0 <= i < descs.len() && descs[i].callback_spec() is Some implies exists|j: int|
            0 <= j < sched.len() && sched[j] == #[trigger] call_of(i, InitStage::PostInit) by {
            if i < n {
                assert(p[i] == descs[i]);
                let j = choose|j: int|
                    0 <= j < sp.len() && sp[j] == call_of(i, InitStage::PostInit);
                assert(sched[j] == sp[j]);
            } else {
                assert(sched[sp.len() + 1int] == own[1]);
            }
        }
    }
}

/// Registering descriptors one by one into an empty registry, no more than
/// it holds, succeeds each time and leaves them in registration order, so
/// that [`DriverManager::enumerate`] lists their drivers' compatible names in
/// that order.
pub proof fn lemma_registration_order<'a, D: DeviceDriver, C>(
    ds: Seq<DeviceDriverDescriptor<'a, D, C>>,
    states: Seq<Seq<DeviceDriverDescriptor<'a, D, C>>>,
    results: Seq<Result<(), RegisterError>>,
)
    requires
        ds.len() <= NUM_DRIVERS,
        states.len() == ds.len() + 1,
        results.len() == ds.len(),
        states[0] == Seq::<DeviceDriverDescriptor<'a, D, C>>::empty(),
        forall|i: int|
            0 <= i < ds.len() ==> (#[trigger] ds[i]).name_spec()
                == ds[i].driver_spec().compatible_spec(),
        forall|i: int|
            0 <= i < ds.len() ==> registration(
                #[trigger] states[i],
                ds[i],
                states[i + 1],
                results[i],
            ),
    ensures
        forall|i: int| 0 <= i < ds.len() ==> #[trigger] results[i] == Ok::<(), RegisterError>(()),
        states[ds.len() as int] == ds,
        forall|i: int|
            0 <= i < ds.len() ==> (#[trigger] states[ds.len() as int][i]).name_spec()
                == ds[i].driver_spec().compatible_spec(),
{
    assert forall|i: int| 0 <= i <= ds.len() implies #[trigger] states[i] == ds.take(i) by {
        lemma_registration_prefix(ds, states, results, i);
    }
    assert(ds.take(ds.len() as int) =~= ds);
}

proof fn lemma_registration_prefix<'a, D, C>(
    ds: Seq<DeviceDriverDescriptor<'a, D, C>>,
    states: Seq<Seq<DeviceDriverDescriptor<'a, D, C>>>,
    results: Seq<Result<(), RegisterError>>,
    i: int,
)
    requires
        ds.len() <= NUM_DRIVERS,
        states.len() == ds.len() + 1,
        results.len() == ds.len(),
        states[0] == Seq::<DeviceDriverDescriptor<'a, D, C>>::empty(),
        forall|j: int|
            0 <= j < ds.len() ==> registration(
                #[trigger] states[j],
                ds[j],
                states[j + 1],
                results[j],
            ),
        0 <= i <= ds.len(),
    ensures
        states[i] == ds.take(i),
        i < ds.len() ==> results[i] == Ok::<(), RegisterError>(()),
    decreases i,
{
    if i == 0 {
        assert(ds.take(0) =~= Seq::<DeviceDriverDescriptor<'a, D, C>>::empty());
        if ds.len() > 0 {
            assert(registration(states[0], ds[0], states[1], results[0]));
        }
    } else {
        lemma_registration_prefix(ds, states, results, i - 1);
        assert(registration(states[i - 1], ds[i - 1], states[i], results[i - 1]));
        assert(ds.take(i) =~= ds.take(i - 1).push(ds[i - 1]));
        if i < ds.len() {
            assert(registration(states[i], ds[i], states[i + 1], results[i]));
        }
    }
}

} // verus!
