//! Coroutines: work that is carried on a little with every poll, until it
//! yields a value. Useful for loading assets over several frames.

use vstd::prelude::*;
use crate::context::Context;

verus! {

/// What one resumption of a routine comes to.
#[derive(Debug, Clone, Copy, PartialEq, Eq)]
pub enum Progress<T> {
    /// The routine has finished with this value.
    Ready(T),
    /// The routine has more to do.
    Pending,
}

/// Work that can be resumed until it is done.
pub trait Routine: Sized {
    /// What the routine yields when it is done.
    type Output;

    /// Carries the work on. The routine may use the context while it runs.
    fn resume(&mut self, ctx: &mut Context) -> (progress: Progress<Self::Output>)
        requires
            old(ctx).wf(),
        ensures
            final(ctx).wf(),
    ;
}

enum CoroutineState<R> {
    Future(R),
    Finished,
}

/// A routine together with the knowledge of whether it has finished. Once it
/// has, it is never resumed again.
pub struct Coroutine<R: Routine> {
    state: CoroutineState<R>,
}

impl<R: Routine> View for Coroutine<R> {
    type V = Option<R>;

    /// The routine if it is still running, and nothing once it has finished.
    closed spec fn view(&self) -> Option<R> {
        match self.state {
            CoroutineState::Future(fut) => Some(fut),
            CoroutineState::Finished => None,
        }
    }
}

/// What a poll leaves behind and returns for each outcome of the resumption:
/// a routine that is ready is finished and yields its value, one that is
/// pending goes on as `after` and yields nothing.
pub open spec fn settled<R: Routine>(after: R, progress: Progress<R::Output>) -> (
    Option<R>,
    Option<R::Output>,
) {
    match progress {
        Progress::Ready(v) => (None, Some(v)),
        Progress::Pending => (Some(after), None),
    }
}

impl<R: Routine> Coroutine<R> {
    /// A coroutine that runs `fut`.
    pub fn new(fut: R) -> (coroutine: Coroutine<R>)
        ensures
            coroutine@ == Some(fut),
    {
        Coroutine { state: CoroutineState::Future(fut) }
    }

    /// Whether the routine has finished.
    pub fn is_finished(&self) -> (finished: bool)
        ensures
            finished == (self@ is None),
    {
        match &self.state {
            CoroutineState::Future(_) => false,
            CoroutineState::Finished => true,
        }
    }

    /// What becomes of a coroutine whose routine was resumed, came out as
    /// `after` and reported `progress`, and what the poll returns.
    pub fn settle(after: R, progress: Progress<R::Output>) -> (r: (Coroutine<R>, Option<R::Output>))
        ensures
            (r.0@, r.1) == settled(after, progress),
    {
        match progress {
            Progress::Ready(v) => (Coroutine { state: CoroutineState::Finished }, Some(v)),
            Progress::Pending => (Coroutine { state: CoroutineState::Future(after) }, None),
        }
    }

    /// Advances the coroutine and returns its value if it finished with this
    /// poll. A coroutine that has finished is left alone and yields nothing,
    /// and the context is not touched.
    ///
    /// One that is running is resumed exactly once: there is a call of
    /// `Routine::resume` that found the routine and the context as the poll
    /// found them. The context is left as that call left it, and what the
    /// call reported decides, as [`settled`] says, whether the coroutine is
    /// finished or goes on with the routine as the call left it, and what the
    /// poll returns.
    pub fn poll(&mut self, ctx: &mut Context) -> (r: Option<R::Output>)
        requires
            old(ctx).wf(),
        ensures
            final(ctx).wf(),
            old(self)@ is None ==> r is None && final(self)@ is None && *final(ctx) == *old(ctx),
            old(self)@ is Some ==> (r is Some <==> final(self)@ is None),
            old(self)@ is Some ==> (exists|fut: &mut R, c: &mut Context, progress: Progress<R::Output>|
                mut_ref_current(fut) == old(self)@->Some_0 && mut_ref_current(c) == *old(ctx)
                    && #[trigger] call_ensures(R::resume, (fut, c), progress) && mut_ref_future(c)
                    == *final(ctx) && (final(self)@, r) == settled(mut_ref_future(fut), progress)),
    {
        let mut state = CoroutineState::Finished;
        std::mem::swap(&mut state, &mut self.state);
        match state {
            CoroutineState::Future(fut) => {
                let mut fut = fut;
                let progress = fut.resume(ctx);
                let (next, result) = Coroutine::settle(fut, progress);
                *self = next;
                result
            },
            CoroutineState::Finished => None,
        }
    }
}

/// A routine that is pending once and ready from then on.
#[derive(Debug, Clone, Copy, PartialEq, Eq, Structural)]
pub struct YieldOp(pub bool);

impl Routine for YieldOp {
    type Output = ();

    /// Pending the first time, ready ever after. The context is not touched.
    fn resume(&mut self, ctx: &mut Context) -> (progress: Progress<()>)
        ensures
            *final(ctx) == *old(ctx),
            !old(self).0 ==> final(self).0 && progress is Pending,
            old(self).0 ==> *final(self) == *old(self) && progress == Progress::Ready(()),
    {
        if !self.0 {
            self.0 = true;
            return Progress::Pending;
        }
        Progress::Ready(())
    }
}

/// Waits one poll before finishing. A routine that resumes this between its
/// steps never keeps a poll from returning.
pub fn yield_now() -> (op: YieldOp)
    ensures
        op == YieldOp(false),
{
    YieldOp(false)
}

} // verus!
