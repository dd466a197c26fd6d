use vstd::prelude::*;
use crate::graph::{Graph, Receiver, SignalShared};
use crate::stream::Intake;

verus! {

/// A value that can be read at any time.
pub trait Sampled: Sized {
    /// The type of the values sampled.
    type Value;

    /// Whether sampling may be attempted.
    spec fn ready(&self) -> bool;

    /// Whether `r` is a value that one sample may produce.
    spec fn produces(&self, r: Self::Value) -> bool;

    /// Sample by value.
    fn sample(&self) -> (r: Self::Value)
        requires
            self.ready(),
        ensures
            self.produces(r);

    /// Sample by reference: hands a sampled value to `cb` and returns its result.
    fn sample_with<R, C: FnOnce(&Self::Value) -> R>(&self, cb: C) -> (r: R)
        requires
            self.ready(),
            forall|x: &Self::Value| cb.requires((x,)),
        ensures
            exists|x: Self::Value| self.produces(x) && cb.ensures((&x,), r),
    {
        let v = self.sample();
        cb(&v)
    }

    /// Maps this signal through `f`; nothing is cached, every sample of the
    /// result samples this signal again.
    fn map<R, M: Fn(&Self::Value) -> R>(&self, f: M) -> (r: SignalMap<'_, Self, M>)
        ensures
            r.source == self,
            r.f == f,
    {
        SignalMap { source: self, f }
    }

    /// Reads through a signal of signals: every sample samples this signal,
    /// then the signal it produced.
    fn switch(self) -> (r: SignalNested<Self>)
        ensures
            r.outer == self,
    {
        SignalNested { outer: self }
    }
}

/// A signal with a constant value.
#[derive(Clone, Copy, Debug, PartialEq, Eq, Structural)]
pub struct SignalConst<T>(pub T);

impl<T: Clone> Sampled for SignalConst<T> {
    type Value = T;

    open spec fn ready(&self) -> bool {
        true
    }

    open spec fn produces(&self, r: T) -> bool {
        cloned(self.0, r)
    }

    fn sample(&self) -> (r: T) {
        self.0.clone()
    }
}

/// A signal that computes its value afresh at every sample.
pub struct SignalFn<F> {
    pub f: F,
}

impl<F> SignalFn<F> {
    /// Creates a signal that samples its values from `f`.
    pub fn new<T>(f: F) -> (r: Self)
        where F: Fn() -> T,
        ensures
            r.f == f,
    {
        SignalFn { f }
    }
}

impl<T, F: Fn() -> T> Sampled for SignalFn<F> {
    type Value = T;

    open spec fn ready(&self) -> bool {
        self.f.requires(())
    }

    open spec fn produces(&self, r: T) -> bool {
        self.f.ensures((), r)
    }

    fn sample(&self) -> (r: T) {
        (self.f)()
    }
}

/// A signal whose value is `f` applied to a sample of `source`.
pub struct SignalMap<'a, S, M> {
    pub source: &'a S,
    pub f: M,
}

impl<'a, R, S: Sampled, M: Fn(&S::Value) -> R> Sampled for SignalMap<'a, S, M> {
    type Value = R;

    open spec fn ready(&self) -> bool {
        self.source.ready() && forall|x: &S::Value| self.f.requires((x,))
    }

    open spec fn produces(&self, r: R) -> bool {
        exists|x: S::Value| self.source.produces(x) && self.f.ensures((&x,), r)
    }

    fn sample(&self) -> (r: R) {
        let x = self.source.sample();
        (self.f)(&x)
    }
}

/// A signal of signals read through: each sample samples the outer signal,
/// then the signal it produced.
pub struct SignalNested<S> {
    pub outer: S,
}

impl<S: Sampled> Sampled for SignalNested<S> where S::Value: Sampled {
    type Value = <S::Value as Sampled>::Value;

    open spec fn ready(&self) -> bool {
        self.outer.ready() && forall|i: S::Value| self.outer.produces(i) ==> i.ready()
    }

    open spec fn produces(&self, r: Self::Value) -> bool {
        exists|i: S::Value| self.outer.produces(i) && i.produces(r)
    }

    fn sample(&self) -> (r: Self::Value) {
        let inner = self.outer.sample();
        inner.sample()
    }
}

/// A continuous value: constant, or held in a storage cell of a graph.
#[derive(Clone, Copy, Debug, PartialEq, Eq, Structural)]
pub enum Signal<T> {
    Constant(T),
    Shared(SignalShared),
}

impl<T> Signal<T> {
    /// Creates a signal with a constant value.
    pub fn constant(val: T) -> (r: SignalConst<T>)
        ensures
            r.0 == val,
    {
        SignalConst(val)
    }

    /// Creates a signal that samples its values from `f`.
    pub fn from_fn<F: Fn() -> T>(f: F) -> (r: SignalFn<F>)
        ensures
            r.f == f,
    {
        SignalFn::new(f)
    }
}


impl<T: Clone> Signal<T> {
    /// A signal that keeps the last item sent to the queue of `rx`: each
    /// sample takes in, without waiting, every item queued since the last one.
    pub fn from_channel<F: Fn(&T) -> Option<T>, G: Fn(T, &T) -> T, H: Fn(&T) -> Vec<T>>(g: &mut Graph<T, F, G, H>, initial: T, rx: Receiver) -> (r: SignalShared)
        requires
            rx.handle_ok(old(g)),
        ensures
            final(g).wf(),
            r.handle_ok(final(g)),
            r == (SignalShared { cell: old(g).cells@.len() as usize, source: None, queue: Some(rx.queue), intake: Intake::Last }),
            final(g).cells@ == old(g).cells@.push(initial),
            final(g).queues@ == old(g).queues@,
            final(g).edges@ == old(g).edges@,
            final(g).fns@ == old(g).fns@,
            final(g).folds@ == old(g).folds@,
            final(g).refs@ == old(g).refs@,
            final(g).sources@ == old(g).sources@,
            final(g).generation@ == old(g).generation@,
            final(g).queue_live@ == old(g).queue_live@,
            final(g).cell_live@ == old(g).cell_live@.push(true),
    {
        let cell = g.add_cell(initial);
        SignalShared { cell, source: None, queue: Some(rx.queue), intake: Intake::Last }
    }

    /// A signal that folds the items sent to the queue of `rx` with `f`: each
    /// sample folds, without waiting, every item queued since the last one
    /// onto the held value.
    pub fn fold_channel<F: Fn(&T) -> Option<T>, G: Fn(T, &T) -> T, H: Fn(&T) -> Vec<T>>(g: &mut Graph<T, F, G, H>, initial: T, rx: Receiver, f: G) -> (r: SignalShared)
        requires
            rx.handle_ok(old(g)),
            forall|a: T, x: &T| f.requires((a, x)),
        ensures
            final(g).wf(),
            r.handle_ok(final(g)),
            r == (SignalShared {
                cell: old(g).cells@.len() as usize,
                source: None,
                queue: Some(rx.queue),
                intake: Intake::Folded { op: old(g).folds@.len() as usize },
            }),
            final(g).cells@ == old(g).cells@.push(initial),
            final(g).folds@ == old(g).folds@.push(f),
            final(g).queues@ == old(g).queues@,
            final(g).edges@ == old(g).edges@,
            final(g).fns@ == old(g).fns@,
            final(g).refs@ == old(g).refs@,
            final(g).sources@ == old(g).sources@,
            final(g).generation@ == old(g).generation@,
            final(g).queue_live@ == old(g).queue_live@,
            final(g).cell_live@ == old(g).cell_live@.push(true),
    {
        let op = g.add_fold(f);
        let cell = g.add_cell(initial);
        SignalShared { cell, source: None, queue: Some(rx.queue), intake: Intake::Folded { op } }
    }

    pub open spec fn handle_ok<F: Fn(&T) -> Option<T>, G: Fn(T, &T) -> T, H: Fn(&T) -> Vec<T>>(&self, g: &Graph<T, F, G, H>) -> bool {
        match self {
            Signal::Constant(_) => g.wf(),
            Signal::Shared(s) => s.handle_ok(g),
        }
    }

    /// Samples the signal: a constant gives its value, a shared signal reads
    /// its cell as `SignalShared::sample` does.
    pub fn sample<F: Fn(&T) -> Option<T>, G: Fn(T, &T) -> T, H: Fn(&T) -> Vec<T>>(&self, g: &mut Graph<T, F, G, H>) -> (r: T)
        requires
            self.handle_ok(old(g)),
        ensures
            final(g).wf(),
            final(g).same_shape(old(g)),
            match self {
                Signal::Constant(c) => cloned(*c, r) && *final(g) == *old(g),
                Signal::Shared(s) => s.taken_in(old(g), final(g).cells@[s.cell as int])
                    && cloned(final(g).cells@[s.cell as int], r),
            },
    {
        match self {
            Signal::Constant(c) => c.clone(),
            Signal::Shared(s) => s.sample(g),
        }
    }

    /// Samples the signal and hands the value to `cb`, returning its result.
    pub fn sample_with<F: Fn(&T) -> Option<T>, G: Fn(T, &T) -> T, H: Fn(&T) -> Vec<T>, R, C: FnOnce(&T) -> R>(
        &self,
        g: &mut Graph<T, F, G, H>,
        cb: C,
    ) -> (r: R)
        requires
            self.handle_ok(old(g)),
            forall|x: &T| cb.requires((x,)),
        ensures
            final(g).wf(),
            exists|x: T| cb.ensures((&x,), r) && match self {
                Signal::Constant(c) => cloned(*c, x) && *final(g) == *old(g),
                Signal::Shared(s) => s.sampled(old(g), final(g), x),
            },
    {
        let x = match self {
            Signal::Constant(c) => c.clone(),
            Signal::Shared(s) => s.sample(g),
        };
        cb(&x)
    }
}

/// Any of the signals that need no graph to be read.
pub enum SignalAny<T, F> {
    Constant(SignalConst<T>),
    Dynamic(SignalFn<F>),
}

impl<T, F> SignalAny<T, F> {
    /// A constant signal.
    pub fn constant(val: T) -> (r: Self)
        ensures
            r == SignalAny::<T, F>::Constant(SignalConst(val)),
    {
        SignalAny::Constant(SignalConst(val))
    }

    /// A signal computed by `f` at every sample.
    pub fn from_fn(f: F) -> (r: Self)
        where F: Fn() -> T,
        ensures
            r == SignalAny::<T, F>::Dynamic(SignalFn { f }),
    {
        SignalAny::Dynamic(SignalFn::new(f))
    }
}

impl<T: Clone, F: Fn() -> T> Sampled for SignalAny<T, F> {
    type Value = T;

    open spec fn ready(&self) -> bool {
        match self {
            SignalAny::Constant(c) => c.ready(),
            SignalAny::Dynamic(d) => d.ready(),
        }
    }

    open spec fn produces(&self, r: T) -> bool {
        match self {
            SignalAny::Constant(c) => c.produces(r),
            SignalAny::Dynamic(d) => d.produces(r),
        }
    }

    fn sample(&self) -> (r: T) {
        match self {
            SignalAny::Constant(c) => c.sample(),
            SignalAny::Dynamic(d) => d.sample(),
        }
    }
}

} // verus!
