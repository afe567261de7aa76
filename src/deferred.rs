use vstd::layout::{align_of, size_of};
use vstd::prelude::*;

use crate::callback::Callback;

verus! {

/// Bytes of captured state that a `Deferred` keeps inline.
pub const INLINE_CAPACITY: usize = 32;

/// Alignment that inline storage provides: one machine word.
pub const INLINE_ALIGN: usize = 8;

/// Whether a computation of type `F` is small and loosely aligned enough to
/// be kept inline. Both bounds are inclusive.
pub open spec fn fits_inline<F>() -> bool {
    size_of::<F>() <= INLINE_CAPACITY && align_of::<F>() <= INLINE_ALIGN
}

/// A computation stored inline, in a slot that is emptied when it runs.
pub struct InlineObject<F> {
    data: Option<F>,
}

impl<F> InlineObject<F> {
    /// The computation still waiting in the slot, if any.
    pub closed spec fn slot(self) -> Option<F> {
        self.data
    }
}

/// A one-shot computation, kept inline if small, or otherwise boxed on the heap.
pub enum Deferred<F> {
    OnStack(InlineObject<F>),
    OnHeap(Option<Box<F>>),
}

/// Reported by `Deferred::call` when the computation has already run.
#[derive(Debug, Clone, Copy, PartialEq, Eq, Structural)]
pub struct AlreadyInvoked;

/// What a `Deferred` amounts to: where it keeps its computation, and the
/// computation itself while it has not run.
pub struct DeferredView<F> {
    pub inline: bool,
    pub pending: Option<F>,
}

impl<F> View for Deferred<F> {
    type V = DeferredView<F>;

    open spec fn view(&self) -> DeferredView<F> {
        match self {
            Deferred::OnStack(obj) => DeferredView { inline: true, pending: obj.slot() },
            Deferred::OnHeap(cell) => DeferredView {
                inline: false,
                pending: match cell {
                    Some(b) => Some(**b),
                    None => None,
                },
            },
        }
    }
}

/// The state of a `Deferred` just built from `f`.
pub open spec fn constructed<F>(f: F) -> DeferredView<F> {
    DeferredView { inline: fits_inline::<F>(), pending: Some(f) }
}

impl<F> DeferredView<F> {
    /// The state that a call leaves behind: same storage, nothing left to run.
    pub open spec fn invoked(self) -> DeferredView<F> {
        DeferredView { inline: self.inline, pending: None }
    }

    /// What a call reports from this state.
    pub open spec fn outcome(self) -> Result<(), AlreadyInvoked> {
        if self.pending is Some {
            Ok(())
        } else {
            Err(AlreadyInvoked)
        }
    }
}

impl<F: FnOnce() + Send + 'static> Deferred<F> {
    /// Takes ownership of `f`, inline when its size and alignment allow, on
    /// the heap otherwise.
    pub fn new(f: F) -> (r: Self)
        ensures
            r@ == constructed(f),
    {
        let size: usize = core::mem::size_of::<F>();
        let align: usize = core::mem::align_of::<F>();
        if size <= INLINE_CAPACITY && align <= INLINE_ALIGN {
            Deferred::OnStack(InlineObject { data: Some(f) })
        } else {
            Deferred::OnHeap(Some(Box::new(f)))
        }
    }

    /// Runs the computation and releases what it captured, or reports
    /// `AlreadyInvoked` if it has run before. The slot is emptied before the
    /// computation starts.
    pub fn call(&mut self) -> (r: Result<(), AlreadyInvoked>)
        requires
            old(self)@.pending matches Some(g) ==> call_requires(g, ()),
        ensures
            final(self)@ == old(self)@.invoked(),
            r == old(self)@.outcome(),
            old(self)@.pending matches Some(g) ==> call_ensures(g, (), ()),
    {
        match self {
            Deferred::OnStack(obj) => match obj.data.take() {
                Some(f) => {
                    f.copy_and_call();
                    Ok(())
                },
                None => Err(AlreadyInvoked),
            },
            Deferred::OnHeap(cell) => match cell.take() {
                Some(b) => {
                    b.call_box();
                    Ok(())
                },
                None => Err(AlreadyInvoked),
            },
        }
    }

    /// Whether the computation is kept inline rather than on the heap.
    pub fn is_inline(&self) -> (r: bool)
        ensures
            r == self@.inline,
    {
        match self {
            Deferred::OnStack(_) => true,
            Deferred::OnHeap(_) => false,
        }
    }
}

/// A computation that fits inline is stored inline, exactly as given; the
/// first call runs it and reports success, and leaves nothing captured.
pub proof fn lemma_inline_runs_once<F>(f: F)
    requires
        fits_inline::<F>(),
    ensures
        constructed(f).inline,
        constructed(f).pending == Some(f),
        constructed(f).outcome() == Ok::<(), AlreadyInvoked>(()),
        constructed(f).invoked().pending is None,
        constructed(f).invoked().inline,
{
}

/// A computation too large or too strictly aligned for inline storage is
/// boxed on the heap, exactly as given; the first call runs it and reports
/// success, and leaves nothing captured.
pub proof fn lemma_heap_runs_once<F>(f: F)
    requires
        !fits_inline::<F>(),
    ensures
        !constructed(f).inline,
        constructed(f).pending == Some(f),
        constructed(f).outcome() == Ok::<(), AlreadyInvoked>(()),
        constructed(f).invoked().pending is None,
        !constructed(f).invoked().inline,
{
}

/// After a successful call, on either storage path, every further call
/// reports `AlreadyInvoked`, has nothing left to run, and changes nothing.
pub proof fn lemma_second_call_refused<F>(d: Deferred<F>)
    requires
        d@.outcome() is Ok,
    ensures
        d@.invoked().outcome() == Err::<(), AlreadyInvoked>(AlreadyInvoked),
        d@.invoked().pending is None,
        d@.invoked().invoked() == d@.invoked(),
        d@.invoked().inline == d@.inline,
{
}

/// A computation of zero size (whose alignment inline storage can provide)
/// is stored inline, and its first call succeeds and leaves nothing behind.
pub proof fn lemma_zero_sized_inline<F>(f: F)
    requires
        size_of::<F>() == 0,
        align_of::<F>() <= INLINE_ALIGN,
    ensures
        constructed(f).inline,
        constructed(f).outcome() == Ok::<(), AlreadyInvoked>(()),
        constructed(f).invoked().pending is None,
{
}

/// Whatever its storage, a `Deferred` holds the very value it was built
/// from, and a call releases it, so that nothing remains to be run or
/// released a second time.
pub proof fn lemma_capture_moved_intact<F>(f: F)
    ensures
        constructed(f).pending == Some(f),
        constructed(f).invoked().pending is None,
        constructed(f).invoked().invoked().pending is None,
{
}

} // verus!
