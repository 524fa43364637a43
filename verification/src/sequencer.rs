//! The command sequencer: ordered lists of commands and waits, and their
//! delivery to the writable characteristics of a ready peripheral.
//!
//! Like the manager, the sequencer decides and leaves the doing to its
//! caller: it hands out one directive at a time and takes a report of how
//! the last one went.

use crate::characteristic::{CharacteristicDescriptor, CharacteristicRole};
use crate::command::LightsCommands;
use crate::discovery::{Manager, ManagerState};
use crate::error::ErrorKind;
use crate::preset::LightPreset;
use vstd::prelude::*;

verus! {

/// One step of a sequence.
#[derive(Copy, Clone, Debug, PartialEq, Eq, Structural)]
pub enum SequenceOp {
    /// Send the command to the peripheral.
    Command(LightsCommands),
    /// Do nothing for this many milliseconds.
    Wait(u64),
}

/// The wait after each command of a routine, in milliseconds.
pub const ROUTINE_PAUSE_MS: u64 = 100;

/// The number of random colours that the demonstration shows.
pub const DEMO_COLOURS: usize = 100;

/// The wait after each colour of the demonstration, in milliseconds.
pub const DEMO_COLOUR_MS: u64 = 200;

/// The time for which the demonstration lets a preset run, in milliseconds.
pub const DEMO_PRESET_MS: u64 = 5000;

/// The wait at the end of the demonstration, in milliseconds.
pub const DEMO_END_MS: u64 = 1000;

/// The speed that the demonstration asks for first, in percent.
pub const DEMO_FAST: u8 = 100;

/// The speed that the demonstration asks for second, in percent.
pub const DEMO_SLOW: u8 = 10;

/// A short fixed sequence that can be asked for by name.
#[derive(Copy, Clone, Debug, PartialEq, Eq, Structural)]
pub enum Routine {
    /// Switch the strip on.
    On,
    /// Switch the strip off.
    Off,
    /// Switch the strip on and show pink.
    Pink,
}

/// The pink of the routine of that name: full red, a fifth of blue, at two
/// fifths of the brightness.
pub open spec fn pink() -> LightsCommands {
    LightsCommands::RgbBrightness { r: 255, g: 0, b: 51, l: 102 }
}

impl Routine {
    /// The steps of the routine.
    pub open spec fn script(self) -> Seq<SequenceOp> {
        match self {
            Routine::On => seq![
                SequenceOp::Command(LightsCommands::Power(true)),
                SequenceOp::Wait(ROUTINE_PAUSE_MS),
            ],
            Routine::Off => seq![
                SequenceOp::Command(LightsCommands::Power(false)),
                SequenceOp::Wait(ROUTINE_PAUSE_MS),
            ],
            Routine::Pink => seq![
                SequenceOp::Command(LightsCommands::Power(true)),
                SequenceOp::Wait(ROUTINE_PAUSE_MS),
                SequenceOp::Command(pink()),
                SequenceOp::Wait(ROUTINE_PAUSE_MS),
            ],
        }
    }

    /// Returns the steps of the routine.
    pub fn ops(self) -> (ops: Vec<SequenceOp>)
        ensures
            ops@ == self.script(),
    {
        let mut ops: Vec<SequenceOp> = Vec::new();
        match self {
            Routine::On => {
                ops.push(SequenceOp::Command(LightsCommands::Power(true)));
                ops.push(SequenceOp::Wait(ROUTINE_PAUSE_MS));
            },
            Routine::Off => {
                ops.push(SequenceOp::Command(LightsCommands::Power(false)));
                ops.push(SequenceOp::Wait(ROUTINE_PAUSE_MS));
            },
            Routine::Pink => {
                ops.push(SequenceOp::Command(LightsCommands::Power(true)));
                ops.push(SequenceOp::Wait(ROUTINE_PAUSE_MS));
                ops.push(
                    SequenceOp::Command(
                        LightsCommands::RgbBrightness { r: 255, g: 0, b: 51, l: 102 },
                    ),
                );
                ops.push(SequenceOp::Wait(ROUTINE_PAUSE_MS));
            },
        }
        ops
    }
}

/// The command that shows one colour of the demonstration: red, green, blue
/// and brightness, in this order.
pub open spec fn colour_command(colour: [u8; 4]) -> LightsCommands {
    LightsCommands::RgbBrightness { r: colour[0], g: colour[1], b: colour[2], l: colour[3] }
}

/// The part of the demonstration that shows the first `n` colours: each
/// colour, followed by a wait.
pub open spec fn demo_colours(colours: Seq<[u8; 4]>, n: nat) -> Seq<SequenceOp> {
    Seq::new(
        2 * n,
        |i: int|
            if i % 2 == 0 {
                SequenceOp::Command(colour_command(colours[i / 2]))
            } else {
                SequenceOp::Wait(DEMO_COLOUR_MS)
            },
    )
}

/// The end of the demonstration: a preset at two speeds, then power off.
pub open spec fn demo_finale() -> Seq<SequenceOp> {
    seq![
        SequenceOp::Command(LightsCommands::PresetSpeed(DEMO_FAST)),
        SequenceOp::Command(LightsCommands::Preset(LightPreset::BlueFade)),
        SequenceOp::Wait(DEMO_PRESET_MS),
        SequenceOp::Command(LightsCommands::PresetSpeed(DEMO_SLOW)),
        SequenceOp::Wait(DEMO_PRESET_MS),
        SequenceOp::Command(LightsCommands::Power(false)),
        SequenceOp::Wait(DEMO_END_MS),
    ]
}

/// The demonstration: power on, the hundred colours, and the finale.
pub open spec fn demo_script(colours: Seq<[u8; 4]>) -> Seq<SequenceOp> {
    seq![SequenceOp::Command(LightsCommands::Power(true))] + demo_colours(
        colours,
        DEMO_COLOURS as nat,
    ) + demo_finale()
}

/// Returns the steps of the demonstration for the given colours: power on;
/// each colour with its brightness, followed by a wait of 200 ms; the fast
/// speed; the blue fade for 5000 ms; the slow speed and 5000 ms more; power
/// off and a last wait of 1000 ms.
///
/// The colours are the caller's to choose: drawn at random, the
/// demonstration differs from run to run.
pub fn do_demo(colours: &[[u8; 4]; 100]) -> (ops: Vec<SequenceOp>)
    ensures
        ops@ == demo_script(colours@),
{
    let mut ops: Vec<SequenceOp> = Vec::new();
    ops.push(SequenceOp::Command(LightsCommands::Power(true)));
    let ghost head = ops@;
    let mut n: usize = 0;
    while n < DEMO_COLOURS
        invariant
            n <= DEMO_COLOURS,
            head == seq![SequenceOp::Command(LightsCommands::Power(true))],
            ops@ == head + demo_colours(colours@, n as nat),
        decreases DEMO_COLOURS - n,
    {
        let colour: [u8; 4] = colours[n];
        ops.push(
            SequenceOp::Command(
                LightsCommands::RgbBrightness {
                    r: colour[0],
                    g: colour[1],
                    b: colour[2],
                    l: colour[3],
                },
            ),
        );
        ops.push(SequenceOp::Wait(DEMO_COLOUR_MS));
        n += 1;
    }
    ops.push(SequenceOp::Command(LightsCommands::PresetSpeed(DEMO_FAST)));
    ops.push(SequenceOp::Command(LightsCommands::Preset(LightPreset::BlueFade)));
    ops.push(SequenceOp::Wait(DEMO_PRESET_MS));
    ops.push(SequenceOp::Command(LightsCommands::PresetSpeed(DEMO_SLOW)));
    ops.push(SequenceOp::Wait(DEMO_PRESET_MS));
    ops.push(SequenceOp::Command(LightsCommands::Power(false)));
    ops.push(SequenceOp::Wait(DEMO_END_MS));
    ops
}

/// One piece of work that a sequence asks for.
#[derive(Copy, Clone, Debug, PartialEq, Eq)]
pub enum Delivery {
    /// Write the frame of the command to the characteristic.
    Write { target: CharacteristicDescriptor, command: LightsCommands },
    /// Do nothing for this many milliseconds.
    Sleep(u64),
}

impl Delivery {
    /// Whether the delivery is a sleep, or a write to a characteristic that
    /// accepts writes without response.
    pub open spec fn is_deliverable(self) -> bool {
        self matches Delivery::Write { target, .. } ==> target.spec_has_role(
            CharacteristicRole::WritableNoResponse,
        )
    }
}

/// Whether every characteristic of `targets` accepts writes without
/// response.
pub open spec fn all_writable(targets: Seq<CharacteristicDescriptor>) -> bool {
    forall|i: int|
        0 <= i < targets.len() ==> (#[trigger] targets[i]).spec_has_role(
            CharacteristicRole::WritableNoResponse,
        )
}

/// Whether every delivery of `plan` is a sleep or a write to a
/// characteristic that accepts writes without response.
pub open spec fn all_deliverable(plan: Seq<Delivery>) -> bool {
    forall|i: int| 0 <= i < plan.len() ==> (#[trigger] plan[i]).is_deliverable()
}

/// The work that one step asks for: a command is written to every target,
/// in the order of the targets; a wait is one sleep.
pub open spec fn deliveries_of(op: SequenceOp, targets: Seq<CharacteristicDescriptor>) -> Seq<
    Delivery,
> {
    match op {
        SequenceOp::Command(command) => targets.map_values(
            |target: CharacteristicDescriptor| Delivery::Write { target, command },
        ),
        SequenceOp::Wait(ms) => seq![Delivery::Sleep(ms)],
    }
}

/// The work that a sequence asks for: the work of its steps, in the order of
/// the steps. A command reaches every target before the next step begins.
pub open spec fn expand(ops: Seq<SequenceOp>, targets: Seq<CharacteristicDescriptor>) -> Seq<
    Delivery,
>
    decreases ops.len(),
{
    if ops.len() == 0 {
        Seq::empty()
    } else {
        expand(ops.drop_last(), targets) + deliveries_of(ops.last(), targets)
    }
}

/// The work of a sequence writes to the targets only: where every target
/// accepts writes without response, every write of the work goes to such a
/// characteristic.
pub proof fn lemma_expand_writes_to_targets(
    ops: Seq<SequenceOp>,
    targets: Seq<CharacteristicDescriptor>,
)
    requires
        all_writable(targets),
    ensures
        all_deliverable(expand(ops, targets)),
    decreases ops.len(),
{
    if ops.len() > 0 {
        lemma_expand_writes_to_targets(ops.drop_last(), targets);
        let head = expand(ops.drop_last(), targets);
        let tail = deliveries_of(ops.last(), targets);
        assert forall|i: int| 0 <= i < (head + tail).len() implies (#[trigger] (head + tail)[i])
            .is_deliverable() by {
            if i < head.len() {
                assert((head + tail)[i] == head[i]);
            } else {
                assert((head + tail)[i] == tail[i - head.len()]);
            }
        }
    }
}

/// Returns the work that the sequence `ops` asks for when commands go to
/// `targets`.
pub fn plan(ops: &Vec<SequenceOp>, targets: &Vec<CharacteristicDescriptor>) -> (out: Vec<Delivery>)
    ensures
        out@ == expand(ops@, targets@),
{
    let mut out: Vec<Delivery> = Vec::new();
    let mut i: usize = 0;
    while i < ops.len()
        invariant
            i <= ops.len(),
            out@ == expand(ops@.take(i as int), targets@),
        decreases ops.len() - i,
    {
        let ghost done = out@;
        proof {
            assert(ops@.take(i + 1).drop_last() =~= ops@.take(i as int));
        }
        match ops[i] {
            SequenceOp::Command(command) => {
                let mut j: usize = 0;
                while j < targets.len()
                    invariant
                        j <= targets.len(),
                        ops@[i as int] == SequenceOp::Command(command),
                        out@ == done + deliveries_of(ops@[i as int], targets@).take(j as int),
                    decreases targets.len() - j,
                {
                    out.push(Delivery::Write { target: targets[j], command });
                    j += 1;
                }
            },
            SequenceOp::Wait(ms) => {
                out.push(Delivery::Sleep(ms));
            },
        }
        i += 1;
    }
    assert(ops@.take(ops.len() as int) =~= ops@);
    out
}

/// How the last directive went.
#[derive(Copy, Clone, Debug, PartialEq, Eq, Structural)]
pub enum StepReport {
    /// It was carried out; or there was none yet.
    Completed,
    /// The write failed.
    WriteFailed,
    /// The peripheral is no longer connected.
    LinkLost,
}

impl StepReport {
    /// The error that the report stands for, if it reports a failure.
    pub open spec fn error(self) -> Option<ErrorKind> {
        match self {
            StepReport::Completed => None,
            StepReport::WriteFailed => Some(ErrorKind::TransportError),
            StepReport::LinkLost => Some(ErrorKind::ConnectionError),
        }
    }
}

/// What the sequencer asks of the caller.
#[derive(Copy, Clone, Debug, PartialEq, Eq)]
pub enum Directive {
    /// Write the frame, which is that of the command, to the
    /// characteristic, without response.
    Write { target: CharacteristicDescriptor, command: LightsCommands, frame: [u8; 9] },
    /// Do nothing for this many milliseconds.
    Sleep(u64),
    /// The sequence is through.
    Finished,
    /// The sequence was given up with this error.
    Aborted(ErrorKind),
}

impl Directive {
    /// Whether the directive carries out the delivery: the same sleep, or a
    /// write of the same command, as its frame, to the same characteristic.
    pub open spec fn performs(self, delivery: Delivery) -> bool {
        match delivery {
            Delivery::Write { target, command } => {
                &&& self matches Directive::Write { target: t, command: c, frame }
                &&& t == target
                &&& c == command
                &&& frame@ == command.frame()
            },
            Delivery::Sleep(ms) => self == Directive::Sleep(ms),
        }
    }
}

/// Returns the directive that sends the command to the characteristic: a
/// write of the command's frame.
pub fn send_command(target: CharacteristicDescriptor, cmd: &LightsCommands) -> (directive:
    Directive)
    ensures
        directive.performs(Delivery::Write { target, command: *cmd }),
{
    Directive::Write { target, command: *cmd, frame: cmd.to_bytes() }
}

/// The run of one sequence on a ready peripheral.
pub struct Sequencer {
    plan: Vec<Delivery>,
    cursor: usize,
    halted: Option<ErrorKind>,
}

impl Sequencer {
    /// The cursor is within the plan, and the plan writes to no
    /// characteristic but such as accept writes without response.
    #[verifier::type_invariant]
    spec fn cursor_in_deliverable_plan(self) -> bool {
        &&& self.cursor <= self.plan@.len()
        &&& all_deliverable(self.plan@)
    }

    /// The work of the sequence, in order.
    pub closed spec fn plan(&self) -> Seq<Delivery> {
        self.plan@
    }

    /// The number of deliveries that have been handed out.
    pub closed spec fn issued(&self) -> nat {
        self.cursor as nat
    }

    /// The error with which the run was given up, if it was.
    pub closed spec fn halted(&self) -> Option<ErrorKind> {
        self.halted
    }

    /// Returns the run of `ops` on the peripheral of `session`, or `None` if
    /// the session is not ready: commands go only to a connected peripheral,
    /// and there to its writable characteristics.
    pub fn new(session: &Manager, ops: &Vec<SequenceOp>) -> (run: Option<Sequencer>)
        ensures
            run is Some <==> session.state() is Ready,
            run matches Some(r) ==> {
                &&& r.plan() == expand(ops@, session.roles().writable@)
                &&& all_deliverable(r.plan())
                &&& r.issued() == 0
                &&& r.halted() is None
            },
    {
        match session.state() {
            ManagerState::Ready(_) => {
                let deliveries: Vec<Delivery> = plan(ops, &session.roles().writable);
                proof {
                    lemma_expand_writes_to_targets(ops@, session.roles().writable@);
                }
                Some(Sequencer { plan: deliveries, cursor: 0, halted: None })
            },
            _ => None,
        }
    }

    /// Takes the report on the last directive and returns the next one.
    ///
    /// A run that was given up stays so. A reported failure gives the run
    /// up, with a transport error for a failed write and a connection error
    /// for a lost link. Otherwise the next delivery of the plan is handed
    /// out, a write with the frame of its command; after the last one the
    /// run is finished. No write is ever asked for to a characteristic that
    /// does not accept writes without response.
    pub fn advance(&mut self, report: StepReport) -> (directive: Directive)
        ensures
            final(self).plan() == old(self).plan(),
            final(self).issued() <= final(self).plan().len(),
            all_deliverable(final(self).plan()),
            directive matches Directive::Write { target, .. } ==> target.spec_has_role(
                CharacteristicRole::WritableNoResponse,
            ),
            match (old(self).halted(), report.error()) {
                (Some(error), _) => {
                    &&& directive == Directive::Aborted(error)
                    &&& final(self).halted() == Some(error)
                    &&& final(self).issued() == old(self).issued()
                },
                (None, Some(error)) => {
                    &&& directive == Directive::Aborted(error)
                    &&& final(self).halted() == Some(error)
                    &&& final(self).issued() == old(self).issued()
                },
                (None, None) => {
                    &&& final(self).halted() is None
                    &&& if old(self).issued() < old(self).plan().len() {
                        &&& directive.performs(old(self).plan()[old(self).issued() as int])
                        &&& final(self).issued() == old(self).issued() + 1
                    } else {
                        &&& directive == Directive::Finished
                        &&& final(self).issued() == old(self).issued()
                    }
                },
            },
    {
        proof {
            use_type_invariant(&*self);
        }
        match self.halted {
            Some(error) => Directive::Aborted(error),
            None => match report {
                StepReport::WriteFailed => {
                    self.halted = Some(ErrorKind::TransportError);
                    Directive::Aborted(ErrorKind::TransportError)
                },
                StepReport::LinkLost => {
                    self.halted = Some(ErrorKind::ConnectionError);
                    Directive::Aborted(ErrorKind::ConnectionError)
                },
                StepReport::Completed => {
                    if self.cursor < self.plan.len() {
                        let delivery: Delivery = self.plan[self.cursor];
                        self.cursor += 1;
                        match delivery {
                            Delivery::Write { target, command } => send_command(target, &command),
                            Delivery::Sleep(ms) => Directive::Sleep(ms),
                        }
                    } else {
                        Directive::Finished
                    }
                },
            },
        }
    }
}

} // verus!
