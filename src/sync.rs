//! Synchronization primitives for the single-core, pre-scheduler phase.

use vstd::prelude::*;

verus! {

/// Exclusive access to a wrapped value, granted to one closure at a time.
///
/// The closure receives the current value and hands back the value to keep,
/// together with a result for the caller.
pub trait Mutex {
    type Data;

    /// The lock holds a value.
    spec fn wf(&self) -> bool;

    /// The value held by the lock.
    spec fn data(&self) -> Self::Data;

    /// Runs `f` on the held value, keeps what `f` hands back and returns `f`'s result.
    fn lock<R>(&mut self, f: impl FnOnce(Self::Data) -> (Self::Data, R)) -> (r: R)
        requires
            old(self).wf(),
            f.requires((old(self).data(),)),
        ensures
            final(self).wf(),
            f.ensures((old(self).data(),), (final(self).data(), r)),
    ;
}

/// A lock that does not arbitrate: it is sound only while one core runs with
/// interrupts masked, so that at most one holder exists at any instant.
///
/// The value sits in an `Option` so that a holder can take it by value; it is
/// present whenever no holder runs.
pub struct NullLock<T> {
    data: Option<T>,
}

impl<T> NullLock<T> {
    /// Wraps `data`.
    pub fn new(data: T) -> (r: Self)
        ensures
            r.wf(),
            r.data() == data,
    {
        NullLock { data: Some(data) }
    }

    /// Runs `f` on a shared view of the held value and returns its result.
    pub fn read<R>(&self, f: impl FnOnce(&T) -> R) -> (r: R)
        requires
            self.wf(),
            f.requires((&self.data(),)),
        ensures
            f.ensures((&self.data(),), r),
    {
        f(self.data.as_ref().unwrap())
    }
}

impl<T> Mutex for NullLock<T> {
    type Data = T;

    closed spec fn wf(&self) -> bool {
        self.data is Some
    }

    closed spec fn data(&self) -> T {
        self.data.unwrap()
    }

    fn lock<R>(&mut self, f: impl FnOnce(T) -> (T, R)) -> (r: R) {
        let v = self.data.take().unwrap();
        let (n, r) = f(v);
        self.data = Some(n);
        r
    }
}

/// A write through the lock followed by a later, separate read through it
/// yields exactly the value written: `write` stores `v` whatever it is given,
/// `read` keeps the value and returns it, and the two acquisitions follow each
/// other as `lock` states.
pub proof fn lemma_lock_round_trip<T, W: FnOnce(T) -> (T, ()), Rd: FnOnce(T) -> (T, T)>(
    first: NullLock<T>,
    second: NullLock<T>,
    third: NullLock<T>,
    v: T,
    write: W,
    read: Rd,
    out: T,
)
    requires
        first.wf(),
        forall|x: T, y: (T, ())| #[trigger] write.ensures((x,), y) ==> y.0 == v,
        forall|x: T, y: (T, T)| #[trigger] read.ensures((x,), y) ==> y.0 == x && y.1 == x,
        write.ensures((first.data(),), (second.data(), ())),
        read.ensures((second.data(),), (third.data(), out)),
    ensures
        out == v,
        third.data() == v,
{
}

/// The phase of an [`InitStateLock`].
#[derive(PartialEq, Eq, Structural, Clone, Copy, Debug)]
pub enum Phase {
    Init,
    Frozen,
}

/// A write was attempted after the lock was frozen.
#[derive(PartialEq, Eq, Structural, Clone, Copy, Debug)]
pub enum PhaseError {
    WriteAfterFreeze,
}

/// State that may be written during kernel initialization and only read after.
pub struct InitStateLock<T> {
    data: Option<T>,
    phase: Phase,
}

impl<T> InitStateLock<T> {
    /// The lock holds a value.
    pub closed spec fn wf(&self) -> bool {
        self.data is Some
    }

    /// The value held by the lock.
    pub closed spec fn data(&self) -> T {
        self.data.unwrap()
    }

    /// The lock's phase.
    pub closed spec fn phase(&self) -> Phase {
        self.phase
    }

    /// Wraps `data`, in the init phase.
    pub fn new(data: T) -> (r: Self)
        ensures
            r.wf(),
            r.data() == data,
            r.phase() == Phase::Init,
    {
        InitStateLock { data: Some(data), phase: Phase::Init }
    }

    /// Whether the lock has been frozen.
    pub fn is_frozen(&self) -> (r: bool)
        ensures
            r == (self.phase() == Phase::Frozen),
    {
        self.phase == Phase::Frozen
    }

    /// Ends the init phase: from now on the value can only be read.
    pub fn freeze(&mut self)
        ensures
            final(self).wf() == old(self).wf(),
            final(self).data() == old(self).data(),
            final(self).phase() == Phase::Frozen,
    {
        self.phase = Phase::Frozen;
    }

    /// In the init phase, runs `f` on the held value, keeps what `f` hands back
    /// and returns `f`'s result; once frozen, fails and leaves the lock as it was.
    pub fn write<R>(&mut self, f: impl FnOnce(T) -> (T, R)) -> (r: Result<R, PhaseError>)
        requires
            old(self).wf(),
            old(self).phase() == Phase::Init ==> f.requires((old(self).data(),)),
        ensures
            final(self).wf(),
            final(self).phase() == old(self).phase(),
            r is Ok <==> old(self).phase() == Phase::Init,
            match r {
                Ok(v) => f.ensures((old(self).data(),), (final(self).data(), v)),
                Err(e) => e == PhaseError::WriteAfterFreeze && final(self).data() == old(self).data(),
            },
    {
        if self.phase == Phase::Frozen {
            return Err(PhaseError::WriteAfterFreeze);
        }
        let v = self.data.take().unwrap();
        let (n, res) = f(v);
        self.data = Some(n);
        Ok(res)
    }

    /// Runs `f` on the held value and returns its result, in either phase.
    pub fn read<R>(&self, f: impl FnOnce(&T) -> R) -> (r: R)
        requires
            self.wf(),
            f.requires((&self.data(),)),
        ensures
            f.ensures((&self.data(),), r),
    {
        f(self.data.as_ref().unwrap())
    }
}

} // verus!
