//! A state machine in which each state has four hooks (start, execute, next,
//! end): each step runs `start` when a state is entered, then `execute` and
//! `next`, and `end` when `next` leaves the state. The machine `Foo` has the single state `A`.
//!
//! The hooks of `Foo` do no work of their own; every hook call is recorded in
//! a ghost trace so that the order in which a step runs them is stated and
//! proved.

use vstd::prelude::*;

verus! {

/// The states of `Foo`.
#[derive(PartialEq, Eq, Structural, Copy, Clone, Debug)]
pub enum FooStates {
    A,
}

/// A hook call, with the state whose hook ran.
#[derive(PartialEq, Eq, Structural, Copy, Clone, Debug)]
pub enum HookCall {
    Start(FooStates),
    Execute(FooStates),
    Next(FooStates),
    End(FooStates),
}

/// The state that the `next` hook of each state chooses: `A` stays in `A`.
pub open spec fn spec_next_state(state: FooStates) -> FooStates {
    match state {
        FooStates::A => FooStates::A,
    }
}

/// The hooks that one step runs, in order, from the current and the
/// previous state.
pub open spec fn step_calls(current: FooStates, prev: FooStates) -> Seq<HookCall> {
    let entered: Seq<HookCall> = if prev != current {
        seq![HookCall::Start(current)]
    } else {
        Seq::empty()
    };
    let left: Seq<HookCall> = if spec_next_state(current) != current {
        seq![HookCall::End(current)]
    } else {
        Seq::empty()
    };
    entered + seq![HookCall::Execute(current), HookCall::Next(current)] + left
}

/// The machine `Foo`.
pub struct Foo {
    current_state: FooStates,
    prev_state: FooStates,
    calls: Ghost<Seq<HookCall>>,
}

impl Foo {
    /// The state that the next step executes.
    pub closed spec fn spec_current(&self) -> FooStates {
        self.current_state
    }

    /// The state that the last step executed (the initial state before any step).
    pub closed spec fn spec_prev(&self) -> FooStates {
        self.prev_state
    }

    /// Every hook call so far, in order.
    pub closed spec fn spec_calls(&self) -> Seq<HookCall> {
        self.calls@
    }

    /// A machine in `initial`, with no hook run yet.
    pub fn new(initial: FooStates) -> (m: Foo)
        ensures
            m.spec_current() == initial,
            m.spec_prev() == initial,
            m.spec_calls() == Seq::<HookCall>::empty(),
    {
        Foo { current_state: initial, prev_state: initial, calls: Ghost(Seq::empty()) }
    }

    /// The state that the next step executes.
    pub fn current_state(&self) -> (s: FooStates)
        ensures
            s == self.spec_current(),
    {
        self.current_state
    }

    /// The state that the last step executed.
    pub fn prev_state(&self) -> (s: FooStates)
        ensures
            s == self.spec_prev(),
    {
        self.prev_state
    }

    #[allow(non_snake_case)]
    fn state_A_start(&mut self)
        ensures
            final(self).current_state == old(self).current_state,
            final(self).prev_state == old(self).prev_state,
            final(self).calls@ == old(self).calls@.push(HookCall::Start(FooStates::A)),
    {
        proof {
            self.calls@ = self.calls@.push(HookCall::Start(FooStates::A));
        }
    }

    #[allow(non_snake_case)]
    fn state_A_execute(&mut self)
        ensures
            final(self).current_state == old(self).current_state,
            final(self).prev_state == old(self).prev_state,
            final(self).calls@ == old(self).calls@.push(HookCall::Execute(FooStates::A)),
    {
        proof {
            self.calls@ = self.calls@.push(HookCall::Execute(FooStates::A));
        }
    }

    #[allow(non_snake_case)]
    fn state_A_next(&mut self) -> (next: FooStates)
        ensures
            next == spec_next_state(FooStates::A),
            final(self).current_state == old(self).current_state,
            final(self).prev_state == old(self).prev_state,
            final(self).calls@ == old(self).calls@.push(HookCall::Next(FooStates::A)),
    {
        proof {
            self.calls@ = self.calls@.push(HookCall::Next(FooStates::A));
        }
        FooStates::A
    }

    #[allow(non_snake_case)]
    fn state_A_end(&mut self)
        ensures
            final(self).current_state == old(self).current_state,
            final(self).prev_state == old(self).prev_state,
            final(self).calls@ == old(self).calls@.push(HookCall::End(FooStates::A)),
    {
        proof {
            self.calls@ = self.calls@.push(HookCall::End(FooStates::A));
        }
    }

    /// Runs one step: `start` of the current state if the machine has just
    /// entered it, then its `execute` and `next`, and its `end` if `next`
    /// chose another state.
    pub fn step(&mut self)
        ensures
            final(self).spec_prev() == old(self).spec_current(),
            final(self).spec_current() == spec_next_state(old(self).spec_current()),
            final(self).spec_calls() == old(self).spec_calls() + step_calls(
                old(self).spec_current(),
                old(self).spec_prev(),
            ),
            final(self).spec_calls() == old(self).spec_calls() + seq![
                HookCall::Execute(FooStates::A),
                HookCall::Next(FooStates::A),
            ],
    {
        let ghost before = self.calls@;
        if self.prev_state != self.current_state {
            match self.current_state {
                FooStates::A => self.state_A_start(),
            }
            self.prev_state = self.current_state;
        }
        match self.current_state {
            FooStates::A => {
                self.state_A_execute();
                self.current_state = self.state_A_next();
                if self.current_state != self.prev_state {
                    self.state_A_end();
                }
            },
        }
        assert(self.calls@ =~= before + step_calls(old(self).current_state, old(self).prev_state));
        proof {
            lemma_foo_step_runs_execute_then_next(old(self).current_state, old(self).prev_state);
        }
    }
}

/// A step runs `start` exactly when the machine has just entered its state,
/// runs `execute` and `next` of that state, and runs `end` exactly when
/// `next` leaves the state.
pub proof fn lemma_hooks_of_a_step(current: FooStates, prev: FooStates)
    ensures
        step_calls(current, prev).contains(HookCall::Start(current)) <==> prev != current,
        step_calls(current, prev).contains(HookCall::Execute(current)),
        step_calls(current, prev).contains(HookCall::Next(current)),
        step_calls(current, prev).contains(HookCall::End(current)) <==> spec_next_state(current)
            != current,
{
    let calls = step_calls(current, prev);
    if prev != current {
        assert(calls[0] == HookCall::Start(current));
    }
    let k: int = if prev != current { 1 } else { 0 };
    assert(calls[k] == HookCall::Execute(current));
    assert(calls[k + 1] == HookCall::Next(current));
}

/// `start` and `end` pair up across steps: the step after one that ran `end`
/// (because `next` chose another state) runs `start` of the new state, and
/// the step after one that stayed in its state runs no `start`.
pub proof fn lemma_end_then_start(current: FooStates, prev: FooStates)
    ensures
        step_calls(spec_next_state(current), current).contains(
            HookCall::Start(spec_next_state(current)),
        ) <==> step_calls(current, prev).contains(HookCall::End(current)),
{
    lemma_hooks_of_a_step(current, prev);
    lemma_hooks_of_a_step(spec_next_state(current), current);
}

/// The hooks of one step, exactly and in order: `start` first when the state
/// was just entered, then one `execute` and one `next`, and `end` last when
/// `next` leaves the state; nothing else.
pub proof fn lemma_step_runs_each_hook_once(current: FooStates, prev: FooStates)
    ensures
        ({
            let calls = step_calls(current, prev);
            let k: int = if prev != current { 1 } else { 0 };
            let e: int = if spec_next_state(current) != current { 1 } else { 0 };
            &&& calls.len() == k + 2 + e
            &&& prev != current ==> calls[0] == HookCall::Start(current)
            &&& calls[k] == HookCall::Execute(current)
            &&& calls[k + 1] == HookCall::Next(current)
            &&& spec_next_state(current) != current ==> calls[k + 2] == HookCall::End(current)
        }),
{
}

/// `Foo` stays in `A`, and each of its steps runs exactly `execute` and then
/// `next` of `A`: no `start`, no `end`, and no hook twice.
pub proof fn lemma_foo_step_runs_execute_then_next(current: FooStates, prev: FooStates)
    ensures
        spec_next_state(current) == FooStates::A,
        step_calls(current, prev) == seq![HookCall::Execute(FooStates::A), HookCall::Next(FooStates::A)],
{
    lemma_step_runs_each_hook_once(current, prev);
    assert(step_calls(current, prev) =~= seq![
        HookCall::Execute(FooStates::A),
        HookCall::Next(FooStates::A),
    ]);
}

} // verus!
