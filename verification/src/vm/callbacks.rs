//! The hooks that observe a machine while it runs.

use crate::vm::instructions::opcodes::Opcode;
use crate::vm::machine::{Machine, MachineView};
use vstd::prelude::*;

verus! {

/// The slot of a step at which a hook is called.
#[derive(Clone, Copy, Debug, PartialEq, Eq, Structural)]
pub enum Event {
    /// Before the opcode is fetched.
    BeforeFetch,
    /// After the opcode is decoded, before its handler runs.
    BeforeExec(Opcode),
    /// After the handler has run.
    AfterExec(Opcode),
}

/// A hook. It gets the machine as it is at its slot of the step and may
/// change it in any way, stopping it in particular. It must not run a step
/// of the machine itself.
pub trait Callback {
    /// Whether the hook, called at `event` with the machine `before`, may
    /// leave the machine `after`. A hook that says nothing of itself may
    /// leave any machine. What a hook says more is proved of it only where
    /// its `call` is verified; of any other hook it is taken on trust.
    open spec fn may_leave(&self, before: MachineView, event: Event, after: MachineView) -> bool {
        true
    }

    /// Calls the hook. It leaves a machine that it may leave.
    fn call(&mut self, machine: &mut Machine, event: Event)
        ensures
            old(self).may_leave(old(machine)@, event, final(machine)@),
    ;
}

/// A hook that is called for every opcode.
pub struct Global {
    pub callback: Box<dyn Callback>,
}

/// A hook that is called only for one opcode.
pub struct Registered {
    pub opcode: Opcode,
    pub callback: Box<dyn Callback>,
}

/// Five collections of hooks. Each keeps its hooks in the order in which
/// they were registered and calls them in that order.
pub struct Callbacks {
    before_instruction_fetch: Vec<Global>,
    before_instruction_exec: Vec<Global>,
    after_instruction_exec: Vec<Global>,
    before_instruction_exec_match: Vec<Registered>,
    after_instruction_exec_match: Vec<Registered>,
}

/// The model of a registry: its five collections as sequences, each in the
/// order of registration.
#[verifier::ext_equal]
pub struct CallbacksView {
    pub before_instruction_fetch: Seq<Global>,
    pub before_instruction_exec: Seq<Global>,
    pub after_instruction_exec: Seq<Global>,
    pub before_instruction_exec_match: Seq<Registered>,
    pub after_instruction_exec_match: Seq<Registered>,
}

/// The opcodes of a list of registered hooks.
pub open spec fn opcodes_of(list: Seq<Registered>) -> Seq<Opcode> {
    list.map_values(|entry: Registered| entry.opcode)
}

/// Whether the machine `after` may be left when every hook of `list` is
/// called once at `event`, in the order of the list: the first hook gets the
/// machine `before`, each later one the machine that the hook before it
/// left. Without hooks the machine stays.
pub open spec fn called_in_turn(
    list: Seq<Global>,
    before: MachineView,
    event: Event,
    after: MachineView,
) -> bool
    decreases list.len(),
{
    if list.len() == 0 {
        after == before
    } else {
        exists|middle: MachineView|
            called_in_turn(list.drop_last(), before, event, middle)
                && #[trigger] list.last().callback.may_leave(middle, event, after)
    }
}

/// The same for the hooks of `list` that are registered for `opcode`: they
/// are called once each, in the order of the list, and the others are
/// passed over.
pub open spec fn matching_called_in_turn(
    list: Seq<Registered>,
    opcode: Opcode,
    before: MachineView,
    event: Event,
    after: MachineView,
) -> bool
    decreases list.len(),
{
    if list.len() == 0 {
        after == before
    } else if list.last().opcode == opcode {
        exists|middle: MachineView|
            matching_called_in_turn(list.drop_last(), opcode, before, event, middle)
                && #[trigger] list.last().callback.may_leave(middle, event, after)
    } else {
        matching_called_in_turn(list.drop_last(), opcode, before, event, after)
    }
}

impl CallbacksView {
    /// Whether the registry holds no hook at all.
    pub open spec fn is_empty(self) -> bool {
        &&& self.before_instruction_fetch.len() == 0
        &&& self.before_instruction_exec.len() == 0
        &&& self.after_instruction_exec.len() == 0
        &&& self.before_instruction_exec_match.len() == 0
        &&& self.after_instruction_exec_match.len() == 0
    }

    /// Whether no hook is called in a step that executes `opcode`.
    pub open spec fn is_silent_for(self, opcode: Opcode) -> bool {
        &&& self.before_instruction_fetch.len() == 0
        &&& self.before_instruction_exec.len() == 0
        &&& self.after_instruction_exec.len() == 0
        &&& !opcodes_of(self.before_instruction_exec_match).contains(opcode)
        &&& !opcodes_of(self.after_instruction_exec_match).contains(opcode)
    }

    /// Whether two registries hold as many hooks in each collection, for
    /// the same opcodes in the same order. A hook may change when it is
    /// called; the shape of its registry stays.
    pub open spec fn same_shape(self, other: CallbacksView) -> bool {
        &&& self.before_instruction_fetch.len() == other.before_instruction_fetch.len()
        &&& self.before_instruction_exec.len() == other.before_instruction_exec.len()
        &&& self.after_instruction_exec.len() == other.after_instruction_exec.len()
        &&& opcodes_of(self.before_instruction_exec_match) == opcodes_of(
            other.before_instruction_exec_match,
        )
        &&& opcodes_of(self.after_instruction_exec_match) == opcodes_of(
            other.after_instruction_exec_match,
        )
    }
}

impl CallbacksView {
    /// Whether a step with these hooks may lead from `before` to `after`
    /// through the machines named: the hooks before the fetch leave
    /// `fetching`, whose opcode is fetched and decoded; the hooks registered
    /// for that opcode leave `matched`, and those for every opcode leave
    /// `ready`, on which the handler runs; then the hooks for every opcode
    /// leave `noticed`, and those for this opcode leave `after`.
    pub open spec fn steps_through(
        self,
        before: MachineView,
        fetching: MachineView,
        matched: MachineView,
        ready: MachineView,
        noticed: MachineView,
        after: MachineView,
    ) -> bool {
        let instruction = fetching.next_opcode();
        &&& called_in_turn(self.before_instruction_fetch, before, Event::BeforeFetch, fetching)
        &&& matching_called_in_turn(
            self.before_instruction_exec_match,
            instruction,
            fetching.after_fetch(),
            Event::BeforeExec(instruction),
            matched,
        )
        &&& called_in_turn(
            self.before_instruction_exec,
            matched,
            Event::BeforeExec(instruction),
            ready,
        )
        &&& called_in_turn(
            self.after_instruction_exec,
            ready.dispatch(instruction),
            Event::AfterExec(instruction),
            noticed,
        )
        &&& matching_called_in_turn(
            self.after_instruction_exec_match,
            instruction,
            noticed,
            Event::AfterExec(instruction),
            after,
        )
    }

    /// Whether a step with these hooks may lead from `before` to `after`.
    pub open spec fn may_step(self, before: MachineView, after: MachineView) -> bool {
        exists|
            fetching: MachineView,
            matched: MachineView,
            ready: MachineView,
            noticed: MachineView,
        | #[trigger]
            self.steps_through(before, fetching, matched, ready, noticed, after)
    }

    /// Registries of the same shape call hooks in the same steps: both are
    /// empty or neither is, and both are silent for an opcode or neither is.
    pub proof fn lemma_same_shape(self, other: CallbacksView, opcode: Opcode)
        requires
            self.same_shape(other),
        ensures
            self.is_empty() == other.is_empty(),
            self.is_silent_for(opcode) == other.is_silent_for(opcode),
            other.same_shape(self),
    {
        assert(opcodes_of(self.before_instruction_exec_match).len()
            == self.before_instruction_exec_match.len());
        assert(opcodes_of(self.after_instruction_exec_match).len()
            == self.after_instruction_exec_match.len());
        assert(opcodes_of(other.before_instruction_exec_match).len()
            == other.before_instruction_exec_match.len());
        assert(opcodes_of(other.after_instruction_exec_match).len()
            == other.after_instruction_exec_match.len());
    }
}

impl View for Callbacks {
    type V = CallbacksView;

    closed spec fn view(&self) -> CallbacksView {
        CallbacksView {
            before_instruction_fetch: self.before_instruction_fetch@,
            before_instruction_exec: self.before_instruction_exec@,
            after_instruction_exec: self.after_instruction_exec@,
            before_instruction_exec_match: self.before_instruction_exec_match@,
            after_instruction_exec_match: self.after_instruction_exec_match@,
        }
    }
}

/// A hook registered for an opcode puts that opcode behind the opcodes of
/// the hooks that were there.
pub proof fn lemma_opcodes_of_push(list: Seq<Registered>, entry: Registered)
    ensures
        opcodes_of(list.push(entry)) == opcodes_of(list).push(entry.opcode),
{
    assert(opcodes_of(list.push(entry)) =~= opcodes_of(list).push(entry.opcode));
}

/// Calls every hook of a list once, in the order of the list, each with the
/// machine as the hook before it left it. A hook may change itself; the list
/// keeps its length.
fn call_all(list: &mut Vec<Global>, machine: &mut Machine, event: Event)
    ensures
        final(list)@.len() == old(list)@.len(),
        called_in_turn(old(list)@, old(machine)@, event, final(machine)@),
        old(list)@.len() == 0 ==> final(machine)@ == old(machine)@,
{
    let count: usize = list.len();
    let mut i: usize = 0;
    while i < count
        invariant
            i <= count,
            list@.len() == count,
            old(list)@.len() == count,
            forall|k: int| i <= k < count ==> list@[k] == old(list)@[k],
            called_in_turn(old(list)@.take(i as int), old(machine)@, event, machine@),
        decreases count - i,
    {
        let ghost middle = machine@;
        list[i].callback.call(machine, event);
        proof {
            let done = old(list)@.take(i + 1);
            assert(done.drop_last() =~= old(list)@.take(i as int));
            assert(done.last() == old(list)@[i as int]);
            assert(done.last().callback.may_leave(middle, event, machine@));
        }
        i = i + 1;
    }
    proof {
        assert(old(list)@.take(count as int) =~= old(list)@);
    }
}

/// Calls, once each and in the order of the list, the hooks of a list that
/// are registered for `opcode`, each with the machine as the hook before it
/// left it. A hook may change itself; the opcodes of the list stay.
fn call_matching(list: &mut Vec<Registered>, machine: &mut Machine, opcode: Opcode, event: Event)
    ensures
        opcodes_of(final(list)@) == opcodes_of(old(list)@),
        matching_called_in_turn(old(list)@, opcode, old(machine)@, event, final(machine)@),
        !opcodes_of(old(list)@).contains(opcode) ==> final(machine)@ == old(machine)@,
{
    let count: usize = list.len();
    let mut i: usize = 0;
    while i < count
        invariant
            i <= count,
            list@.len() == count,
            old(list)@.len() == count,
            opcodes_of(list@) == opcodes_of(old(list)@),
            forall|k: int| i <= k < count ==> list@[k] == old(list)@[k],
            matching_called_in_turn(
                old(list)@.take(i as int),
                opcode,
                old(machine)@,
                event,
                machine@,
            ),
            !opcodes_of(old(list)@).contains(opcode) ==> machine@ == old(machine)@,
        decreases count - i,
    {
        let ghost before = list@;
        let ghost middle = machine@;
        assert(opcodes_of(before)[i as int] == before[i as int].opcode);
        if list[i].opcode == opcode {
            list[i].callback.call(machine, event);
        }
        proof {
            let done = old(list)@.take(i + 1);
            assert(done.drop_last() =~= old(list)@.take(i as int));
            assert(done.last() == old(list)@[i as int]);
            if done.last().opcode == opcode {
                assert(done.last().callback.may_leave(middle, event, machine@));
            }
        }
        assert(opcodes_of(list@) =~= opcodes_of(before));
        i = i + 1;
    }
    proof {
        assert(old(list)@.take(count as int) =~= old(list)@);
    }
}

impl Callbacks {
    /// A registry without hooks.
    pub fn new() -> (callbacks: Callbacks)
        ensures
            callbacks@.is_empty(),
            callbacks@ == (CallbacksView {
                before_instruction_fetch: Seq::empty(),
                before_instruction_exec: Seq::empty(),
                after_instruction_exec: Seq::empty(),
                before_instruction_exec_match: Seq::empty(),
                after_instruction_exec_match: Seq::empty(),
            }),
    {
        Callbacks {
            before_instruction_fetch: Vec::new(),
            before_instruction_exec: Vec::new(),
            after_instruction_exec: Vec::new(),
            before_instruction_exec_match: Vec::new(),
            after_instruction_exec_match: Vec::new(),
        }
    }

    /// Registers a hook that is called before every fetch.
    pub fn on_before_instruction_fetch(&mut self, callback: Box<dyn Callback>)
        ensures
            final(self)@ == (CallbacksView {
                before_instruction_fetch: old(self)@.before_instruction_fetch.push(Global { callback }),
                ..old(self)@
            }),
    {
        self.before_instruction_fetch.push(Global { callback });
    }

    /// Calls the hooks registered for the slot before the fetch, once each
    /// and in the order of registration. The other collections stay.
    pub fn do_before_instruction_fetch(&mut self, machine: &mut Machine)
        ensures
            called_in_turn(
                old(self)@.before_instruction_fetch,
                old(machine)@,
                Event::BeforeFetch,
                final(machine)@,
            ),
            old(self)@.before_instruction_fetch.len() == 0 ==> final(machine)@ == old(machine)@,
            final(self)@.before_instruction_fetch.len() == old(self)@.before_instruction_fetch.len(),
            final(self)@.before_instruction_exec == old(self)@.before_instruction_exec,
            final(self)@.after_instruction_exec == old(self)@.after_instruction_exec,
            final(self)@.before_instruction_exec_match == old(self)@.before_instruction_exec_match,
            final(self)@.after_instruction_exec_match == old(self)@.after_instruction_exec_match,
            final(self)@.same_shape(old(self)@),
    {
        call_all(&mut self.before_instruction_fetch, machine, Event::BeforeFetch);
    }

    /// Registers a hook that is called before every handler, with the
    /// decoded opcode.
    pub fn on_before_instruction_exec(&mut self, callback: Box<dyn Callback>)
        ensures
            final(self)@ == (CallbacksView {
                before_instruction_exec: old(self)@.before_instruction_exec.push(Global { callback }),
                ..old(self)@
            }),
    {
        self.before_instruction_exec.push(Global { callback });
    }

    /// Calls the hooks registered for the slot before every handler, once
    /// each and in the order of registration. The other collections stay.
    pub fn do_before_instruction_exec(&mut self, machine: &mut Machine, instruction: Opcode)
        ensures
            called_in_turn(
                old(self)@.before_instruction_exec,
                old(machine)@,
                Event::BeforeExec(instruction),
                final(machine)@,
            ),
            old(self)@.before_instruction_exec.len() == 0 ==> final(machine)@ == old(machine)@,
            final(self)@.before_instruction_exec.len() == old(self)@.before_instruction_exec.len(),
            final(self)@.before_instruction_fetch == old(self)@.before_instruction_fetch,
            final(self)@.after_instruction_exec == old(self)@.after_instruction_exec,
            final(self)@.before_instruction_exec_match == old(self)@.before_instruction_exec_match,
            final(self)@.after_instruction_exec_match == old(self)@.after_instruction_exec_match,
            final(self)@.same_shape(old(self)@),
    {
        call_all(&mut self.before_instruction_exec, machine, Event::BeforeExec(instruction));
    }

    /// Registers a hook that is called after every handler, with the
    /// decoded opcode.
    pub fn on_after_instruction_exec(&mut self, callback: Box<dyn Callback>)
        ensures
            final(self)@ == (CallbacksView {
                after_instruction_exec: old(self)@.after_instruction_exec.push(Global { callback }),
                ..old(self)@
            }),
    {
        self.after_instruction_exec.push(Global { callback });
    }

    /// Calls the hooks registered for the slot after every handler, once
    /// each and in the order of registration. The other collections stay.
    pub fn do_after_instruction_exec(&mut self, machine: &mut Machine, instruction: Opcode)
        ensures
            called_in_turn(
                old(self)@.after_instruction_exec,
                old(machine)@,
                Event::AfterExec(instruction),
                final(machine)@,
            ),
            old(self)@.after_instruction_exec.len() == 0 ==> final(machine)@ == old(machine)@,
            final(self)@.after_instruction_exec.len() == old(self)@.after_instruction_exec.len(),
            final(self)@.before_instruction_fetch == old(self)@.before_instruction_fetch,
            final(self)@.before_instruction_exec == old(self)@.before_instruction_exec,
            final(self)@.before_instruction_exec_match == old(self)@.before_instruction_exec_match,
            final(self)@.after_instruction_exec_match == old(self)@.after_instruction_exec_match,
            final(self)@.same_shape(old(self)@),
    {
        call_all(&mut self.after_instruction_exec, machine, Event::AfterExec(instruction));
    }

    /// Registers a hook that is called before the handler of one opcode.
    pub fn on_before_instruction_exec_match(
        &mut self,
        instruction: Opcode,
        callback: Box<dyn Callback>,
    )
        ensures
            final(self)@ == (CallbacksView {
                before_instruction_exec_match: old(self)@.before_instruction_exec_match.push(
                    (Registered { opcode: instruction, callback }),
                ),
                ..old(self)@
            }),
    {
        self.before_instruction_exec_match.push(Registered { opcode: instruction, callback });
    }

    /// Calls the hooks registered for the slot before the handler of
    /// `instruction`, once each and in the order of registration. The hooks
    /// for other opcodes are passed over, and the other collections stay.
    pub fn do_before_instruction_exec_match(&mut self, machine: &mut Machine, instruction: Opcode)
        ensures
            matching_called_in_turn(
                old(self)@.before_instruction_exec_match,
                instruction,
                old(machine)@,
                Event::BeforeExec(instruction),
                final(machine)@,
            ),
            !opcodes_of(old(self)@.before_instruction_exec_match).contains(instruction)
                ==> final(machine)@ == old(machine)@,
            opcodes_of(final(self)@.before_instruction_exec_match) == opcodes_of(
                old(self)@.before_instruction_exec_match,
            ),
            final(self)@.before_instruction_fetch == old(self)@.before_instruction_fetch,
            final(self)@.before_instruction_exec == old(self)@.before_instruction_exec,
            final(self)@.after_instruction_exec == old(self)@.after_instruction_exec,
            final(self)@.after_instruction_exec_match == old(self)@.after_instruction_exec_match,
            final(self)@.same_shape(old(self)@),
    {
        call_matching(
            &mut self.before_instruction_exec_match,
            machine,
            instruction,
            Event::BeforeExec(instruction),
        );
    }

    /// Registers a hook that is called after the handler of one opcode.
    pub fn on_after_instruction_exec_match(
        &mut self,
        instruction: Opcode,
        callback: Box<dyn Callback>,
    )
        ensures
            final(self)@ == (CallbacksView {
                after_instruction_exec_match: old(self)@.after_instruction_exec_match.push(
                    (Registered { opcode: instruction, callback }),
                ),
                ..old(self)@
            }),
    {
        self.after_instruction_exec_match.push(Registered { opcode: instruction, callback });
    }

    /// Calls the hooks registered for the slot after the handler of
    /// `instruction`, once each and in the order of registration. The hooks
    /// for other opcodes are passed over, and the other collections stay.
    pub fn do_after_instruction_exec_match(&mut self, machine: &mut Machine, instruction: Opcode)
        ensures
            matching_called_in_turn(
                old(self)@.after_instruction_exec_match,
                instruction,
                old(machine)@,
                Event::AfterExec(instruction),
                final(machine)@,
            ),
            !opcodes_of(old(self)@.after_instruction_exec_match).contains(instruction)
                ==> final(machine)@ == old(machine)@,
            opcodes_of(final(self)@.after_instruction_exec_match) == opcodes_of(
                old(self)@.after_instruction_exec_match,
            ),
            final(self)@.before_instruction_fetch == old(self)@.before_instruction_fetch,
            final(self)@.before_instruction_exec == old(self)@.before_instruction_exec,
            final(self)@.after_instruction_exec == old(self)@.after_instruction_exec,
            final(self)@.before_instruction_exec_match == old(self)@.before_instruction_exec_match,
            final(self)@.same_shape(old(self)@),
    {
        call_matching(
            &mut self.after_instruction_exec_match,
            machine,
            instruction,
            Event::AfterExec(instruction),
        );
    }
}

} // verus!
