//! The decision logic of a Subsonic music client: the login screen, the
//! artists screen, the main screen that hosts it, and the top-level state
//! that switches from one to the other.
//!
//! Every screen is a state machine. `init` and `update` take plain values
//! (credentials, messages) and return the next state together with an
//! [`Action`]: nothing to do, a piece of work for the runtime to perform
//! (whose outcome comes back later as a message), or a value handed up to
//! the parent screen.
use vstd::prelude::*;

pub mod config;
pub mod decimal;
pub mod root;
pub mod screen;

verus! {

/// A type with no values: the `Emit` of a screen that never hands
/// anything up to its parent.
pub type Never = core::convert::Infallible;

/// What a screen asks for after `init` or `update`.
///
/// `T` describes work for the runtime to perform; `U` is a value handed up
/// to the parent screen.
#[derive(Debug)]
pub enum Action<T, U> {
    Nothing,
    Task(T),
    Emit(U),
}

/// A screen: a state machine started from `InitData` and driven by `Msg`.
/// It answers with an [`Action`]: work of type `Work` for the runtime, or a
/// value of type `Emit` handed up to the parent screen.
pub trait Screen: Sized {
    type Msg;

    type Emit;

    type InitData;

    type Work;

    fn init(data: Self::InitData) -> (Self, Action<Self::Work, Self::Emit>);

    fn update(&mut self, msg: Self::Msg) -> Action<Self::Work, Self::Emit>;
}

impl<T, U> Default for Action<T, U> {
    fn default() -> (r: Self)
        ensures
            r is Nothing,
    {
        Action::Nothing
    }
}

impl<T, U> Action<T, U> {
    pub fn none() -> (r: Self)
        ensures
            r is Nothing,
    {
        Action::Nothing
    }

    pub fn task(task: T) -> (r: Self)
        ensures
            r == Action::<T, U>::Task(task),
    {
        Action::Task(task)
    }

    pub fn emit(emit: U) -> (r: Self)
        ensures
            r == Action::<T, U>::Emit(emit),
    {
        Action::Emit(emit)
    }

    /// Turns the action into the parent's work: nothing stays nothing, a
    /// task goes through `map_msg`, an emitted value goes through `on_emit`
    /// (which may itself ask for nothing).
    pub fn handle<V>(self, map_msg: impl Fn(T) -> V, on_emit: impl Fn(U) -> Option<V>) -> (r:
        Option<V>)
        requires
            self matches Action::Task(t) ==> map_msg.requires((t,)),
            self matches Action::Emit(u) ==> on_emit.requires((u,)),
        ensures
            self is Nothing ==> r is None,
            self matches Action::Task(t) ==> r matches Some(v) && map_msg.ensures((t,), v),
            self matches Action::Emit(u) ==> on_emit.ensures((u,), r),
    {
        match self {
            Action::Nothing => None,
            Action::Task(task) => Some(map_msg(task)),
            Action::Emit(emit) => on_emit(emit),
        }
    }

    /// Hands the whole action to `mapper`.
    pub fn map_to_task<V>(self, mapper: impl Fn(Self) -> V) -> (r: V)
        requires
            mapper.requires((self,)),
        ensures
            mapper.ensures((self,), r),
    {
        mapper(self)
    }

    /// Maps the work of a task, keeping nothing and emitted values as they are.
    pub fn map_task<V>(self, mapper: impl Fn(T) -> V) -> (r: Action<V, U>)
        requires
            self matches Action::Task(t) ==> mapper.requires((t,)),
        ensures
            self.mapped_by(mapper, r),
    {
        match self {
            Action::Nothing => Action::Nothing,
            Action::Task(t) => Action::Task(mapper(t)),
            Action::Emit(u) => Action::Emit(u),
        }
    }

    /// Hands the whole action to `mapper`, which builds another action.
    pub fn map<V, W>(self, mapper: impl Fn(Self) -> Action<V, W>) -> (r: Action<V, W>)
        requires
            mapper.requires((self,)),
        ensures
            mapper.ensures((self,), r),
    {
        mapper(self)
    }
}

} // verus!

verus! {

/// `Clone` for `Result`, as std documents it: the clone holds a clone of
/// the value inside, `Ok` or `Err` as the original.
pub assume_specification<T, E>[ <Result<T, E> as Clone>::clone ](original: &Result<T, E>) -> (res: Result<
    T,
    E,
>) where E: Clone, T: Clone
    ensures
        res is Ok <==> original is Ok,
        res is Ok ==> cloned::<T>(original->Ok_0, res->Ok_0),
        res is Err ==> cloned::<E>(original->Err_0, res->Err_0),
;

impl<T, U> Action<T, U> {
    /// `r` is this action with its work mapped by the closure `mapper`:
    /// nothing stays nothing, an emitted value stays as it is, and a task
    /// becomes a task that `mapper` may return for it.
    pub open spec fn mapped_by<V, F: Fn(T) -> V>(self, mapper: F, r: Action<V, U>) -> bool {
        &&& self is Nothing ==> r is Nothing
        &&& self matches Action::Task(t) ==> r matches Action::Task(v) && mapper.ensures((t,), v)
        &&& self matches Action::Emit(u) ==> r == Action::<V, U>::Emit(u)
    }

    /// The action with its work mapped by `f`.
    pub open spec fn mapped<V>(self, f: spec_fn(T) -> V) -> Action<V, U> {
        match self {
            Action::Nothing => Action::Nothing,
            Action::Task(t) => Action::Task(f(t)),
            Action::Emit(u) => Action::Emit(u),
        }
    }
}

/// Mapping the work of an action by the identity gives the action back.
pub proof fn lemma_mapped_identity<T, U>(a: Action<T, U>)
    ensures
        a.mapped(|t: T| t) == a,
{
}

/// Mapping the work of an action twice is mapping it once by the
/// composition.
pub proof fn lemma_mapped_composition<T, U, V, W>(
    a: Action<T, U>,
    f: spec_fn(T) -> V,
    g: spec_fn(V) -> W,
)
    ensures
        a.mapped(f).mapped(g) == a.mapped(|t: T| g(f(t))),
{
}

/// The closure `f` computes the function `sf`: whatever it returns for `t`
/// is `sf(t)`.
pub open spec fn computes<T, V, F: Fn(T) -> V>(f: F, sf: spec_fn(T) -> V) -> bool {
    forall|t: T, v: V| #[trigger] f.ensures((t,), v) ==> v == sf(t)
}

/// `map_task` by a closure that computes `sf` maps the action by `sf`.
pub proof fn lemma_map_task_computes<T, U, V, F: Fn(T) -> V>(
    a: Action<T, U>,
    f: F,
    sf: spec_fn(T) -> V,
    r: Action<V, U>,
)
    requires
        a.mapped_by(f, r),
        computes(f, sf),
    ensures
        r == a.mapped(sf),
{
}

/// `map_task` by a closure that returns its argument gives the action back.
pub proof fn lemma_map_task_identity<T, U, F: Fn(T) -> T>(a: Action<T, U>, f: F, r: Action<T, U>)
    requires
        a.mapped_by(f, r),
        computes(f, |t: T| t),
    ensures
        r == a,
{
    lemma_map_task_computes(a, f, |t: T| t, r);
    lemma_mapped_identity(a);
}

/// `map_task` by `f` and then by `g` gives what `map_task` gives at once by
/// a closure that computes `g` after `f`.
pub proof fn lemma_map_task_composition<T, U, V, W, F: Fn(T) -> V, G: Fn(V) -> W, H: Fn(T) -> W>(
    a: Action<T, U>,
    f: F,
    g: G,
    h: H,
    sf: spec_fn(T) -> V,
    sg: spec_fn(V) -> W,
    r1: Action<V, U>,
    r2: Action<W, U>,
    r3: Action<W, U>,
)
    requires
        computes(f, sf),
        computes(g, sg),
        computes(h, |t: T| sg(sf(t))),
        a.mapped_by(f, r1),
        r1.mapped_by(g, r2),
        a.mapped_by(h, r3),
    ensures
        r2 == r3,
{
    lemma_map_task_computes(a, f, sf, r1);
    lemma_map_task_computes(r1, g, sg, r2);
    lemma_map_task_computes(a, h, |t: T| sg(sf(t)), r3);
    lemma_mapped_composition(a, sf, sg);
}

impl<T: View, U> View for Action<T, U> {
    type V = Action<T::V, U>;

    /// The action with its work seen through the work's own view.
    open spec fn view(&self) -> Action<T::V, U> {
        match self {
            Action::Nothing => Action::Nothing,
            Action::Task(t) => Action::Task(t@),
            Action::Emit(u) => Action::Emit(*u),
        }
    }
}

} // verus!
