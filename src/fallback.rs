//! The fallback executor: which input method to try next, remembering the
//! one that last worked. The attempts themselves are made by the caller, who
//! hands each outcome back; every decision and all bookkeeping live here.
use vstd::prelude::*;

verus! {

/// The ways of injecting input, in their default order of preference.
#[derive(Debug, Clone, Copy, PartialEq, Eq, Structural)]
pub enum InputMethod {
    Portal,
    CompositorIPC,
    Libei,
    Ydotool,
    XTest,
}

/// Mouse button for clicking.
#[derive(Debug, Clone, Copy, PartialEq, Eq, Structural)]
pub enum ClickButton {
    Left,
    Right,
    Middle,
}

/// The order in which input methods are probed.
pub struct InputMethodPriority {
    methods: Vec<InputMethod>,
}

/// The default order: portal, compositor channel, low-level injection,
/// injection daemon, legacy X protocol.
pub open spec fn default_methods() -> Seq<InputMethod> {
    seq![
        InputMethod::Portal,
        InputMethod::CompositorIPC,
        InputMethod::Libei,
        InputMethod::Ydotool,
        InputMethod::XTest,
    ]
}

impl InputMethodPriority {
    pub closed spec fn view(&self) -> Seq<InputMethod> {
        self.methods@
    }

    /// The default order of preference.
    pub fn default_order() -> (r: Self)
        ensures
            r.view() == default_methods(),
    {
        let methods = vec![
            InputMethod::Portal,
            InputMethod::CompositorIPC,
            InputMethod::Libei,
            InputMethod::Ydotool,
            InputMethod::XTest,
        ];
        assert(methods@ == default_methods());
        InputMethodPriority { methods }
    }

    /// An order chosen by the caller.
    pub fn custom(methods: Vec<InputMethod>) -> (r: Self)
        ensures
            r.view() == methods@,
    {
        InputMethodPriority { methods }
    }

    /// The methods, most preferred first.
    pub fn iter(&self) -> (r: std::slice::Iter<'_, InputMethod>)
        ensures
            vstd::std_specs::iter::IteratorSpec::remaining(&r) == self.view().as_ref(),
    {
        self.methods.as_slice().iter()
    }

    /// The methods, most preferred first, as a slice.
    pub fn methods(&self) -> (r: &[InputMethod])
        ensures
            r@ == self.view(),
    {
        self.methods.as_slice()
    }
}

/// What became of one attempt with one method.
#[derive(Debug, Clone, Copy, PartialEq, Eq, Structural)]
pub enum AttemptOutcome {
    /// The method did the operation.
    Succeeded,
    /// The method refused or failed this call; the next one may do better.
    Failed,
    /// The operation itself was cancelled or timed out: no method is tried after it.
    Fatal,
}

/// What the caller is to do next.
#[derive(Debug, Clone, Copy, PartialEq, Eq, Structural)]
pub enum Step {
    /// Attempt the operation with this method and report the outcome.
    Attempt(InputMethod),
    /// The operation succeeded with this method.
    Done(InputMethod),
    /// Every method was tried and none succeeded.
    Exhausted,
    /// A fatal outcome ended the operation.
    Aborted,
}

/// The state of one operation in progress.
pub struct Invocation {
    tried: Vec<InputMethod>,
    pending: Option<InputMethod>,
}

impl Invocation {
    /// The methods attempted so far, in order.
    pub closed spec fn tried_view(&self) -> Seq<InputMethod> {
        self.tried@
    }

    /// The method whose outcome is awaited.
    pub closed spec fn pending_view(&self) -> Option<InputMethod> {
        self.pending
    }

    /// The methods attempted so far, in order.
    pub fn tried(&self) -> (r: &[InputMethod])
        ensures
            r@ == self.tried_view(),
    {
        self.tried.as_slice()
    }
}

/// The first method of `prio` that is not in `tried`.
pub open spec fn first_untried(prio: Seq<InputMethod>, tried: Seq<InputMethod>) -> Option<InputMethod>
    decreases prio.len(),
{
    if prio.len() == 0 {
        None
    } else if tried.contains(prio[0]) {
        first_untried(prio.drop_first(), tried)
    } else {
        Some(prio[0])
    }
}

/// The step that follows when `tried` have failed: the next method in order
/// of preference that was not tried in this operation, or the end.
pub open spec fn probe_step(prio: Seq<InputMethod>, tried: Seq<InputMethod>) -> Step {
    match first_untried(prio, tried) {
        Some(m) => Step::Attempt(m),
        None => Step::Exhausted,
    }
}

proof fn lemma_first_untried_fresh(prio: Seq<InputMethod>, tried: Seq<InputMethod>)
    ensures
        first_untried(prio, tried) matches Some(m) ==> prio.contains(m) && !tried.contains(m),
        first_untried(prio, tried) is None ==> forall|i: int| 0 <= i < prio.len() ==> tried.contains(#[trigger] prio[i]),
    decreases prio.len(),
{
    if prio.len() > 0 {
        lemma_first_untried_fresh(prio.drop_first(), tried);
        if first_untried(prio, tried) is None {
            assert forall|i: int| 0 <= i < prio.len() implies tried.contains(#[trigger] prio[i]) by {
                if i > 0 {
                    assert(prio[i] == prio.drop_first()[i - 1]);
                }
            }
        }
        if let Some(m) = first_untried(prio.drop_first(), tried) {
            assert(prio.drop_first().contains(m));
            let k = choose|k: int| 0 <= k < prio.drop_first().len() && prio.drop_first()[k] == m;
            assert(prio[k + 1] == m);
        }
    }
}

/// The attempts of a probe through `prio`, skipping the methods in `tried`,
/// when `ok` tells which methods succeed; and the method found, if any.
pub open spec fn probe_from(
    prio: Seq<InputMethod>,
    tried: Seq<InputMethod>,
    ok: spec_fn(InputMethod) -> bool,
) -> (Seq<InputMethod>, Option<InputMethod>)
    decreases prio.len(),
{
    if prio.len() == 0 {
        (Seq::empty(), None)
    } else if tried.contains(prio[0]) {
        probe_from(prio.drop_first(), tried, ok)
    } else if ok(prio[0]) {
        (seq![prio[0]], Some(prio[0]))
    } else {
        let rest = probe_from(prio.drop_first(), tried.push(prio[0]), ok);
        (seq![prio[0]] + rest.0, rest.1)
    }
}

/// A whole operation when `ok` tells which methods succeed: the attempts, in
/// order, and the sticky method afterwards. The sticky method is tried first
/// and, when it works, alone; otherwise every other method is probed in order
/// of preference until one works.
pub open spec fn operation_run(
    sticky: Option<InputMethod>,
    prio: Seq<InputMethod>,
    ok: spec_fn(InputMethod) -> bool,
) -> (Seq<InputMethod>, Option<InputMethod>) {
    match sticky {
        Some(m) => if ok(m) {
            (seq![m], Some(m))
        } else {
            let rest = probe_from(prio, seq![m], ok);
            (seq![m] + rest.0, rest.1)
        },
        None => probe_from(prio, Seq::empty(), ok),
    }
}

/// The executor follows `operation_run`: after failures of `tried`, the next
/// step `advance` takes (`probe_step`) is the next attempt of `probe_from`,
/// or the end of the probe with no method found.
pub proof fn lemma_probe_step(prio: Seq<InputMethod>, tried: Seq<InputMethod>, ok: spec_fn(InputMethod) -> bool)
    ensures
        match probe_step(prio, tried) {
            Step::Attempt(x) => !tried.contains(x) && prio.contains(x) && probe_from(prio, tried, ok) == (if ok(x) {
                (seq![x], Some(x))
            } else {
                let rest = probe_from(prio, tried.push(x), ok);
                (seq![x] + rest.0, rest.1)
            }),
            _ => probe_from(prio, tried, ok) == (Seq::<InputMethod>::empty(), None::<InputMethod>),
        },
    decreases prio.len(),
{
    lemma_first_untried_fresh(prio, tried);
    if prio.len() > 0 {
        lemma_probe_step(prio.drop_first(), tried, ok);
        if tried.contains(prio[0]) {
            if let Some(x) = first_untried(prio, tried) {
                assert(tried.push(x).contains(prio[0])) by {
                    let k = choose|k: int| 0 <= k < tried.len() && tried[k] == prio[0];
                    assert(tried.push(x)[k] == prio[0]);
                }
            }
        } else {
            let x = prio[0];
            assert(tried.push(x).contains(x)) by {
                assert(tried.push(x)[tried.len() as int] == x);
            }
        }
    }
}

/// Starting an operation: with a sticky method, that method is attempted and
/// on success it is the only attempt; without one, the probe starts at the
/// most preferred method.
pub proof fn lemma_operation_start(
    sticky: Option<InputMethod>,
    prio: Seq<InputMethod>,
    ok: spec_fn(InputMethod) -> bool,
)
    ensures
        sticky matches Some(m) ==> (ok(m) ==> operation_run(sticky, prio, ok) == (seq![m], Some(m))),
        sticky matches Some(m) ==> (!ok(m) ==> operation_run(sticky, prio, ok).0 == seq![m] + probe_from(
            prio,
            seq![m],
            ok,
        ).0 && operation_run(sticky, prio, ok).1 == probe_from(prio, seq![m], ok).1),
        sticky is None ==> operation_run(sticky, prio, ok) == probe_from(prio, Seq::empty(), ok),
        probe_from(prio, Seq::empty(), ok).1 matches Some(m) ==> ok(m) && prio.contains(m),
{
    lemma_probe_finds(prio, Seq::empty(), ok);
}

proof fn lemma_probe_finds(prio: Seq<InputMethod>, tried: Seq<InputMethod>, ok: spec_fn(InputMethod) -> bool)
    ensures
        probe_from(prio, tried, ok).1 matches Some(m) ==> ok(m) && prio.contains(m),
    decreases prio.len(),
{
    if prio.len() > 0 {
        lemma_probe_finds(prio.drop_first(), tried, ok);
        lemma_probe_finds(prio.drop_first(), tried.push(prio[0]), ok);
        if let Some(m) = probe_from(prio, tried, ok).1 {
            if m != prio[0] {
                assert(prio.drop_first().contains(m));
                let k = choose|k: int| 0 <= k < prio.drop_first().len() && prio.drop_first()[k] == m;
                assert(prio[k + 1] == m);
            } else {
                assert(prio[0] == m);
            }
        }
    }
}

fn next_untried(prio: &Vec<InputMethod>, tried: &Vec<InputMethod>) -> (r: Option<InputMethod>)
    ensures
        r == first_untried(prio@, tried@),
{
    let mut i: usize = 0;
    assert(prio@.subrange(0, prio@.len() as int) == prio@);
    while i < prio.len()
        invariant
            i <= prio@.len(),
            first_untried(prio@, tried@) == first_untried(prio@.subrange(i as int, prio@.len() as int), tried@),
        decreases prio@.len() - i,
    {
        let ghost rest = prio@.subrange(i as int, prio@.len() as int);
        assert(rest.drop_first() == prio@.subrange(i + 1, prio@.len() as int));
        let m = prio[i];
        if !contains_method(tried, m) {
            return Some(m);
        }
        i = i + 1;
    }
    None
}

fn contains_method(v: &Vec<InputMethod>, m: InputMethod) -> (r: bool)
    ensures
        r == v@.contains(m),
{
    let mut i: usize = 0;
    while i < v.len()
        invariant
            i <= v@.len(),
            forall|j: int| 0 <= j < i ==> v@[j] != m,
        decreases v@.len() - i,
    {
        if v[i] == m {
            assert(v@[i as int] == m);
            return true;
        }
        i = i + 1;
    }
    false
}

/// Runs operations through the input methods in order of preference, first
/// with the method that worked last (the sticky method).
pub struct InputExecutor {
    priority: InputMethodPriority,
    working_method: Option<InputMethod>,
}

impl InputExecutor {
    pub closed spec fn priority_view(&self) -> Seq<InputMethod> {
        self.priority.view()
    }

    pub closed spec fn sticky_view(&self) -> Option<InputMethod> {
        self.working_method
    }

    /// An executor with no sticky method yet.
    pub fn new(priority: InputMethodPriority) -> (r: Self)
        ensures
            r.priority_view() == priority.view(),
            r.sticky_view() is None,
    {
        InputExecutor { priority, working_method: None }
    }

    /// The method believed to work, if any.
    pub fn working_method(&self) -> (r: Option<InputMethod>)
        ensures
            r == self.sticky_view(),
    {
        self.working_method
    }

    /// Starts an operation: the sticky method first, if there is one, else the
    /// most preferred method.
    pub fn begin(&self) -> (r: (Invocation, Step))
        ensures
            r.0.pending_view() == (match r.1 {
                Step::Attempt(m) => Some(m),
                _ => None,
            }),
            r.0.tried_view() == (match r.1 {
                Step::Attempt(m) => seq![m],
                _ => Seq::<InputMethod>::empty(),
            }),
            match self.sticky_view() {
                Some(m) => r.1 == Step::Attempt(m),
                None => r.1 == probe_step(self.priority_view(), Seq::<InputMethod>::empty()),
            },
    {
        let mut tried: Vec<InputMethod> = Vec::new();
        let first = match self.working_method {
            Some(m) => Some(m),
            None => next_untried(&self.priority.methods, &tried),
        };
        match first {
            Some(m) => {
                tried.push(m);
                assert(tried@ == seq![m]);
                (Invocation { tried, pending: Some(m) }, Step::Attempt(m))
            },
            None => (Invocation { tried, pending: None }, Step::Exhausted),
        }
    }

    /// Takes the outcome of the pending attempt and decides the next step.
    /// A success makes its method sticky. A failure forgets the failed method
    /// if it was sticky and moves on to the next method not yet tried in this
    /// operation, in order of preference. A fatal outcome ends the operation
    /// and leaves the sticky method as it is.
    pub fn advance(&mut self, inv: &mut Invocation, outcome: AttemptOutcome) -> (r: Step)
        requires
            old(inv).pending_view() is Some,
        ensures
            final(self).priority_view() == old(self).priority_view(),
            ({
                let m = old(inv).pending_view()->Some_0;
                match outcome {
                    AttemptOutcome::Succeeded => r == Step::Done(m) && final(self).sticky_view() == Some(m)
                        && final(inv).tried_view() == old(inv).tried_view() && final(inv).pending_view() is None,
                    AttemptOutcome::Fatal => r == Step::Aborted && final(self).sticky_view() == old(self).sticky_view()
                        && final(inv).tried_view() == old(inv).tried_view() && final(inv).pending_view() is None,
                    AttemptOutcome::Failed => r == probe_step(old(self).priority_view(), old(inv).tried_view())
                        && final(self).sticky_view() == (if old(self).sticky_view() == Some(m) {
                            None
                        } else {
                            old(self).sticky_view()
                        }) && final(inv).tried_view() == (match r {
                            Step::Attempt(n) => old(inv).tried_view().push(n),
                            _ => old(inv).tried_view(),
                        }) && final(inv).pending_view() == (match r {
                            Step::Attempt(n) => Some(n),
                            _ => None,
                        }),
                }
            }),
    {
        let m = match inv.pending {
            Some(m) => m,
            None => return Step::Aborted,
        };
        inv.pending = None;
        match outcome {
            AttemptOutcome::Succeeded => {
                self.working_method = Some(m);
                Step::Done(m)
            },
            AttemptOutcome::Fatal => Step::Aborted,
            AttemptOutcome::Failed => {
                if self.working_method == Some(m) {
                    self.working_method = None;
                }
                match next_untried(&self.priority.methods, &inv.tried) {
                    Some(n) => {
                        inv.tried.push(n);
                        inv.pending = Some(n);
                        Step::Attempt(n)
                    },
                    None => Step::Exhausted,
                }
            },
        }
    }
}

} // verus!
