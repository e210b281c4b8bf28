//! Declarative power-on sequences and their interpreter.
//!
//! An init sequence is a list of [`InitStep`]s: bus writes, timed delays,
//! placeholders, and at most one level of nested sub-sequences. The
//! interpreter flattens a sequence into the list of [`HostAction`]s to
//! perform, unrolling nested steps at the outer level. A nested step inside
//! another nested step is a defect of the sequence, not a runtime condition,
//! and is excluded by precondition.

use vstd::prelude::*;

verus! {

/// One primitive action a driver asks its host to perform: a bus write, a
/// reset-line change, or a timed delay.
#[derive(Debug, Clone, PartialEq, Eq)]
pub enum HostAction {
    /// Write a one-byte command to the bus.
    WriteCmd(u8),
    /// Write a one-byte command followed atomically by its parameters.
    WriteCmdParams(u8, Vec<u8>),
    /// Drive the reset pin high.
    SetPinHigh,
    /// Drive the reset pin low.
    SetPinLow,
    /// Drive the bus's reset side-channel to a level.
    BusReset(bool),
    /// Suspend for the given number of milliseconds.
    DelayMs(u32),
}

/// The mathematical value of a [`HostAction`].
pub enum HostActionV {
    /// Write a one-byte command to the bus.
    WriteCmd(u8),
    /// Write a one-byte command followed atomically by its parameters.
    WriteCmdParams(u8, Seq<u8>),
    /// Drive the reset pin high.
    SetPinHigh,
    /// Drive the reset pin low.
    SetPinLow,
    /// Drive the bus's reset side-channel to a level.
    BusReset(bool),
    /// Suspend for the given number of milliseconds.
    DelayMs(u32),
}

impl View for HostAction {
    type V = HostActionV;

    open spec fn view(&self) -> HostActionV {
        match self {
            HostAction::WriteCmd(c) => HostActionV::WriteCmd(*c),
            HostAction::WriteCmdParams(c, p) => HostActionV::WriteCmdParams(*c, p@),
            HostAction::SetPinHigh => HostActionV::SetPinHigh,
            HostAction::SetPinLow => HostActionV::SetPinLow,
            HostAction::BusReset(level) => HostActionV::BusReset(*level),
            HostAction::DelayMs(ms) => HostActionV::DelayMs(*ms),
        }
    }
}

/// The mathematical value of a list of actions.
pub open spec fn actions_view(v: Seq<HostAction>) -> Seq<HostActionV> {
    v.map_values(|a: HostAction| a@)
}

/// A step in an initialization sequence.
#[derive(Debug, PartialEq, Eq)]
pub enum InitStep {
    /// Single byte command.
    SingleCommand(u8),
    /// Command with parameters.
    CommandWithParams(u8, Vec<u8>),
    /// Delay in milliseconds.
    DelayMs(u8),
    /// No operation: a placeholder that keeps the sequence length without
    /// performing any I/O.
    Nop,
    /// Nested sequence, unrolled at the outer level. Only one level of
    /// nesting is supported: a nested step may not itself contain one.
    Nested(Vec<InitStep>),
}

impl InitStep {
    /// Turns an optional parameter block into a step: a command with those
    /// parameters when present, a placeholder otherwise.
    pub fn param_option_to_step(cmd: u8, params: Option<Vec<u8>>) -> (r: InitStep)
        ensures
            params matches Some(p) ==> r == InitStep::CommandWithParams(cmd, p),
            params is None ==> r == InitStep::Nop,
    {
        match params {
            Some(p) => InitStep::CommandWithParams(cmd, p),
            None => InitStep::Nop,
        }
    }

    /// Picks one of two single-byte commands.
    pub fn select_cmd(use_first: bool, first: u8, second: u8) -> (r: InitStep)
        ensures
            use_first ==> r == InitStep::SingleCommand(first),
            !use_first ==> r == InitStep::SingleCommand(second),
    {
        if use_first {
            InitStep::SingleCommand(first)
        } else {
            InitStep::SingleCommand(second)
        }
    }
}

/// Whether one step respects the single-level nesting rule.
pub open spec fn step_well_formed(s: InitStep) -> bool {
    match s {
        InitStep::Nested(inner) => forall|j: int|
            0 <= j < inner@.len() ==> !(#[trigger] inner@[j] is Nested),
        _ => true,
    }
}

/// Whether a sequence respects the single-level nesting rule throughout.
pub open spec fn steps_well_formed(steps: Seq<InitStep>) -> bool {
    forall|i: int| 0 <= i < steps.len() ==> step_well_formed(#[trigger] steps[i])
}

/// The actions of one non-nested step: one bus write or one delay; a
/// placeholder performs nothing.
pub open spec fn spec_atomic_actions(s: InitStep) -> Seq<HostActionV> {
    match s {
        InitStep::SingleCommand(c) => seq![HostActionV::WriteCmd(c)],
        InitStep::CommandWithParams(c, p) => seq![HostActionV::WriteCmdParams(c, p@)],
        InitStep::DelayMs(ms) => seq![HostActionV::DelayMs(ms as u32)],
        InitStep::Nop => Seq::empty(),
        InitStep::Nested(_) => Seq::empty(),
    }
}

/// The actions of a run of non-nested steps, in order.
pub open spec fn spec_flatten_atomics(steps: Seq<InitStep>) -> Seq<HostActionV>
    decreases steps.len(),
{
    if steps.len() == 0 {
        Seq::empty()
    } else {
        spec_flatten_atomics(steps.drop_last()) + spec_atomic_actions(steps.last())
    }
}

/// The actions of one step: a nested step contributes its inner steps'
/// actions at this level.
pub open spec fn spec_step_actions(s: InitStep) -> Seq<HostActionV> {
    match s {
        InitStep::Nested(inner) => spec_flatten_atomics(inner@),
        _ => spec_atomic_actions(s),
    }
}

/// The actions of a whole sequence, in order.
pub open spec fn spec_sequence_actions(steps: Seq<InitStep>) -> Seq<HostActionV>
    decreases steps.len(),
{
    if steps.len() == 0 {
        Seq::empty()
    } else {
        spec_sequence_actions(steps.drop_last()) + spec_step_actions(steps.last())
    }
}

/// Whether a sequence respects the single-level nesting rule, decided at
/// run time; a sequence that fails this check is a defect of its author and
/// must not be executed.
pub fn check_steps_well_formed(steps: &Vec<InitStep>) -> (r: bool)
    ensures
        r == steps_well_formed(steps@),
{
    let mut i: usize = 0;
    while i < steps.len()
        invariant
            i <= steps@.len(),
            forall|k: int| 0 <= k < i ==> step_well_formed(#[trigger] steps@[k]),
        decreases steps@.len() - i,
    {
        match &steps[i] {
            InitStep::Nested(inner) => {
                let mut j: usize = 0;
                while j < inner.len()
                    invariant
                        j <= inner@.len(),
                        i < steps@.len(),
                        steps@[i as int] == InitStep::Nested(*inner),
                        forall|k: int| 0 <= k < i ==> step_well_formed(#[trigger] steps@[k]),
                        forall|k: int| 0 <= k < j ==> !(#[trigger] inner@[k] is Nested),
                    decreases inner@.len() - j,
                {
                    if matches!(&inner[j], InitStep::Nested(_)) {
                        return false;
                    }
                    j += 1;
                }
                proof {
                    assert(step_well_formed(steps@[i as int]));
                }
            },
            _ => {
                proof {
                    assert(step_well_formed(steps@[i as int]));
                }
            },
        }
        i += 1;
    }
    true
}

/// The action of a single non-nested step, if it performs one.
pub fn exec_atomic_step(step: &InitStep) -> (r: Option<HostAction>)
    requires
        !(*step is Nested),
    ensures
        match r {
            Some(a) => spec_atomic_actions(*step) == seq![a@],
            None => spec_atomic_actions(*step) == Seq::<HostActionV>::empty(),
        },
{
    match step {
        InitStep::SingleCommand(c) => {
            let a = HostAction::WriteCmd(*c);
            proof {
                assert(spec_atomic_actions(*step) =~= seq![a@]);
            }
            Some(a)
        },
        InitStep::CommandWithParams(c, p) => {
            let a = HostAction::WriteCmdParams(*c, vstd::slice::slice_to_vec(p.as_slice()));
            proof {
                assert(spec_atomic_actions(*step) =~= seq![a@]);
            }
            Some(a)
        },
        InitStep::DelayMs(ms) => {
            let a = HostAction::DelayMs(*ms as u32);
            proof {
                assert(spec_atomic_actions(*step) =~= seq![a@]);
            }
            Some(a)
        },
        InitStep::Nop => None,
        InitStep::Nested(_) => None,
    }
}

/// Flattens an initialization sequence into the actions to perform, in
/// order, unrolling nested sub-sequences exactly one level.
pub fn sequenced_init_actions(steps: &Vec<InitStep>) -> (r: Vec<HostAction>)
    requires
        steps_well_formed(steps@),
    ensures
        actions_view(r@) == spec_sequence_actions(steps@),
{
    let mut out: Vec<HostAction> = Vec::new();
    proof {
        assert(steps@.subrange(0, 0) =~= Seq::<InitStep>::empty());
        assert(actions_view(out@) =~= spec_sequence_actions(steps@.subrange(0, 0)));
    }
    let mut i: usize = 0;
    while i < steps.len()
        invariant
            i <= steps@.len(),
            steps_well_formed(steps@),
            actions_view(out@) == spec_sequence_actions(steps@.subrange(0, i as int)),
        decreases steps@.len() - i,
    {
        let ghost prefix = steps@.subrange(0, i as int);
        let step = &steps[i];
        proof {
            assert(step_well_formed(steps@[i as int]));
        }
        match step {
            InitStep::Nested(inner) => {
                let mut j: usize = 0;
                proof {
                    assert(inner@.subrange(0, 0) =~= Seq::<InitStep>::empty());
                    assert(actions_view(out@) =~= spec_sequence_actions(prefix)
                        + spec_flatten_atomics(inner@.subrange(0, 0)));
                }
                while j < inner.len()
                    invariant
                        j <= inner@.len(),
                        steps_well_formed(steps@),
                        i < steps@.len(),
                        steps@[i as int] == InitStep::Nested(*inner),
                        prefix == steps@.subrange(0, i as int),
                        forall|k: int| 0 <= k < inner@.len() ==> !(#[trigger] inner@[k] is Nested),
                        actions_view(out@) == spec_sequence_actions(prefix)
                            + spec_flatten_atomics(inner@.subrange(0, j as int)),
                    decreases inner@.len() - j,
                {
                    let ghost jpre = inner@.subrange(0, j as int);
                    let ghost out_pre = out@;
                    match exec_atomic_step(&inner[j]) {
                        Some(a) => {
                            proof {
                                crate::bus::lemma_map_values_push(
                                    out_pre,
                                    |x: HostAction| x@,
                                    a,
                                );
                            }
                            out.push(a);
                        },
                        None => {},
                    }
                    proof {
                        assert(inner@.subrange(0, j + 1).drop_last() =~= jpre);
                        assert(inner@.subrange(0, j + 1).last() == inner@[j as int]);
                        assert(actions_view(out@) =~= spec_sequence_actions(prefix)
                            + spec_flatten_atomics(inner@.subrange(0, j + 1)));
                    }
                    j += 1;
                }
                proof {
                    assert(inner@.subrange(0, inner@.len() as int) =~= inner@);
                }
            },
            _ => {
                let ghost out_pre = out@;
                match exec_atomic_step(step) {
                    Some(a) => {
                        proof {
                            crate::bus::lemma_map_values_push(out_pre, |x: HostAction| x@, a);
                        }
                        out.push(a);
                    },
                    None => {},
                }
                proof {
                    assert(spec_step_actions(steps@[i as int]) == spec_atomic_actions(
                        steps@[i as int],
                    ));
                }
            },
        }
        proof {
            assert(steps@.subrange(0, i + 1).drop_last() =~= prefix);
            assert(steps@.subrange(0, i + 1).last() == steps@[i as int]);
            assert(actions_view(out@) =~= spec_sequence_actions(steps@.subrange(0, i + 1)));
        }
        i += 1;
    }
    proof {
        assert(steps@.subrange(0, steps@.len() as int) =~= steps@);
    }
    out
}


/// A one-byte parameter block.
pub fn byte_vec(b: u8) -> (r: Vec<u8>)
    ensures
        r@ == seq![b],
{
    let a = [b];
    proof {
        assert(a@ =~= seq![b]);
    }
    vstd::slice::slice_to_vec(a.as_slice())
}

/// Appends a step to a sequence, keeping it well formed.
pub fn push_step(steps: &mut Vec<InitStep>, step: InitStep)
    requires
        steps_well_formed(old(steps)@),
        step_well_formed(step),
    ensures
        final(steps)@ == old(steps)@.push(step),
        steps_well_formed(final(steps)@),
{
    let ghost pre = steps@;
    let ghost s = step;
    steps.push(step);
    proof {
        assert forall|i: int| 0 <= i < steps@.len() implies step_well_formed(
            #[trigger] steps@[i],
        ) by {
            if i < pre.len() {
                assert(steps@[i] == pre[i]);
            } else {
                assert(steps@[i] == s);
            }
        }
    }
}

/// Appends a single-command step.
pub fn push_cmd(steps: &mut Vec<InitStep>, cmd: u8)
    requires
        steps_well_formed(old(steps)@),
    ensures
        final(steps)@ == old(steps)@.push(InitStep::SingleCommand(cmd)),
        steps_well_formed(final(steps)@),
{
    push_step(steps, InitStep::SingleCommand(cmd));
}

/// Appends a command-with-parameters step.
pub fn push_cmd_params(steps: &mut Vec<InitStep>, cmd: u8, params: Vec<u8>)
    requires
        steps_well_formed(old(steps)@),
    ensures
        final(steps)@ == old(steps)@.push(InitStep::CommandWithParams(cmd, params)),
        steps_well_formed(final(steps)@),
{
    push_step(steps, InitStep::CommandWithParams(cmd, params));
}

/// Appends a delay step.
pub fn push_delay(steps: &mut Vec<InitStep>, ms: u8)
    requires
        steps_well_formed(old(steps)@),
    ensures
        final(steps)@ == old(steps)@.push(InitStep::DelayMs(ms)),
        steps_well_formed(final(steps)@),
{
    push_step(steps, InitStep::DelayMs(ms));
}

} // verus!
