//! Efferent subsystem: actuation.
//!
//! Commands for the rocket actuators and control surfaces are queued on a
//! bounded bus and dispatched to the hardware in order.
pub mod actuators;
pub mod surfaces;

use vstd::prelude::*;

verus! {

/// Number of commands that the bus holds between dispatches.
pub const BUS_CAPACITY: usize = 32;

/// One actuation instruction.
#[derive(Clone, Copy, PartialEq, Eq, Debug, Structural)]
pub struct EfferentCommand {
    /// Actuator register address.
    pub target: u16,
    /// Commanded value, in fixed point (millionths of the unit).
    pub value: i64,
    /// Deadline, in nanoseconds.
    pub deadline_ns: u64,
}

/// The pending commands after `command` is offered to a bus holding
/// `pending`: appended when there is room, dropped when the bus is full.
pub open spec fn enqueued(pending: Seq<EfferentCommand>, command: EfferentCommand) -> Seq<
    EfferentCommand,
> {
    if pending.len() < BUS_CAPACITY {
        pending.push(command)
    } else {
        pending
    }
}

/// The pending commands after each of `commands` is offered, first to last,
/// to a bus holding `pending`.
pub open spec fn enqueued_all(pending: Seq<EfferentCommand>, commands: Seq<EfferentCommand>) -> Seq<
    EfferentCommand,
>
    decreases commands.len(),
{
    if commands.len() == 0 {
        pending
    } else {
        enqueued(enqueued_all(pending, commands.drop_last()), commands.last())
    }
}

/// The bus is first-in, first-out and keeps the oldest commands: offering
/// commands to a bus leaves pending the commands already there followed by
/// the offered ones, in order, up to the capacity; the rest are dropped.
pub proof fn lemma_bus_keeps_first_commands(pending: Seq<EfferentCommand>, commands: Seq<EfferentCommand>)
    requires
        pending.len() <= BUS_CAPACITY,
    ensures
        enqueued_all(pending, commands) == (pending + commands).take(
            if pending.len() + commands.len() <= BUS_CAPACITY {
                (pending.len() + commands.len()) as int
            } else {
                BUS_CAPACITY as int
            },
        ),
    decreases commands.len(),
{
    if commands.len() > 0 {
        let prev = commands.drop_last();
        lemma_bus_keeps_first_commands(pending, prev);
        assert((pending + prev) =~= (pending + commands).take((pending.len() + prev.len()) as int));
        let n = (pending.len() + commands.len()) as int;
        if n <= BUS_CAPACITY {
            assert((pending + commands).take(n - 1).push(commands.last()) =~= (pending
                + commands).take(n));
        } else {
            assert((pending + prev).take(
                if n - 1 <= BUS_CAPACITY { n - 1 } else { BUS_CAPACITY as int },
            ) =~= (pending + commands).take(BUS_CAPACITY as int));
        }
    }
}

/// The command for `target` with `value` and `deadline_ns`.
pub open spec fn command(target: u16, value: i64, deadline_ns: u64) -> EfferentCommand {
    EfferentCommand { target, value, deadline_ns }
}

/// Efferent bus: a bounded queue of pending commands.
pub struct EfferentBus {
    commands: [EfferentCommand; 32],
    count: usize,
}

impl View for EfferentBus {
    type V = Seq<EfferentCommand>;

    /// The pending commands, oldest first.
    closed spec fn view(&self) -> Seq<EfferentCommand> {
        self.commands@.take(self.count as int)
    }
}

impl EfferentBus {
    #[verifier::type_invariant]
    spec fn inv(self) -> bool {
        self.count <= 32
    }

    /// Create a bus with no pending command.
    pub fn new() -> (bus: Self)
        ensures
            bus@ == Seq::<EfferentCommand>::empty(),
    {
        let empty = EfferentCommand { target: 0, value: 0, deadline_ns: 0 };
        let bus = EfferentBus { commands: [empty; 32], count: 0 };
        assert(bus@ =~= Seq::<EfferentCommand>::empty());
        bus
    }

    /// Dispatch all pending commands: the bus is emptied and the commands
    /// are handed back, oldest first, for writing to the actuator
    /// registers (a view into the bus's own storage; nothing is allocated).
    pub fn dispatch(&mut self) -> (sent: &[EfferentCommand])
        ensures
            sent@ == old(self)@,
            final(self)@ == Seq::<EfferentCommand>::empty(),
            old(self)@.len() <= BUS_CAPACITY,
    {
        proof {
            use_type_invariant(&*self);
        }
        let n = self.count;
        self.count = 0;
        assert(self@ =~= Seq::<EfferentCommand>::empty());
        let (sent, _) = self.commands.as_slice().split_at(n);
        sent
    }

    /// Queue a command; when the bus is full the command is dropped.
    pub fn enqueue(&mut self, target: u16, value: i64, deadline_ns: u64)
        ensures
            final(self)@ == enqueued(old(self)@, command(target, value, deadline_ns)),
            old(self)@.len() <= BUS_CAPACITY,
            final(self)@.len() <= BUS_CAPACITY,
    {
        proof {
            use_type_invariant(&*self);
        }
        if self.count < 32 {
            let ghost before = self@;
            self.commands[self.count] = EfferentCommand { target, value, deadline_ns };
            self.count = self.count + 1;
            assert(self@ =~= before.push(command(target, value, deadline_ns)));
        }
    }
}

} // verus!
