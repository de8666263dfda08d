//! The reset sequence of the concentrator: which pins are driven, in which order,
//! with a pause of 100 ms after each step.
use vstd::prelude::*;

verus! {

/// The pins that the reset sequence drives.
#[derive(Debug, Clone, Copy, PartialEq, Eq, Structural)]
pub enum ResetPin {
    Sx1302PowerEn,
    Sx130xReset,
    Sx1261Reset,
    Ad5338rReset,
}

/// One step of the reset sequence.
#[derive(Debug, Clone, Copy, PartialEq, Eq, Structural)]
pub enum ResetStep {
    /// Drive the pin active.
    Activate(ResetPin),
    /// Drive the pin inactive.
    Deactivate(ResetPin),
    /// Run the reset command with this index.
    RunCommand(usize),
    /// Wait 100 ms.
    Pause,
}

/// Which parts of the reset sequence are configured.
pub struct ResetSetup {
    pub sx1302_power_en: bool,
    pub sx130x_reset: bool,
    pub sx1261_reset: bool,
    pub ad5338r_reset: bool,
    pub reset_commands: usize,
}

/// The steps that run the first `n` reset commands, each followed by a pause.
pub open spec fn command_steps(n: nat) -> Seq<ResetStep>
    decreases n,
{
    if n == 0 {
        Seq::empty()
    } else {
        command_steps((n - 1) as nat).push(ResetStep::RunCommand((n - 1) as usize)).push(ResetStep::Pause)
    }
}

/// The reset sequence: power the SX1302 on; pulse the SX130x reset (active, then
/// inactive); pulse the SX1261 and AD5338R resets (inactive, then active); then run
/// the reset commands in their order. Each step is followed by a pause, and a part
/// that is not configured is left out.
pub open spec fn reset_sequence(s: ResetSetup) -> Seq<ResetStep> {
    let power = if s.sx1302_power_en {
        seq![ResetStep::Activate(ResetPin::Sx1302PowerEn), ResetStep::Pause]
    } else {
        Seq::empty()
    };
    let sx130x = if s.sx130x_reset {
        seq![
            ResetStep::Activate(ResetPin::Sx130xReset),
            ResetStep::Pause,
            ResetStep::Deactivate(ResetPin::Sx130xReset),
            ResetStep::Pause,
        ]
    } else {
        Seq::empty()
    };
    let sx1261 = if s.sx1261_reset {
        seq![
            ResetStep::Deactivate(ResetPin::Sx1261Reset),
            ResetStep::Pause,
            ResetStep::Activate(ResetPin::Sx1261Reset),
            ResetStep::Pause,
        ]
    } else {
        Seq::empty()
    };
    let ad5338r = if s.ad5338r_reset {
        seq![
            ResetStep::Deactivate(ResetPin::Ad5338rReset),
            ResetStep::Pause,
            ResetStep::Activate(ResetPin::Ad5338rReset),
            ResetStep::Pause,
        ]
    } else {
        Seq::empty()
    };
    power + sx130x + sx1261 + ad5338r + command_steps(s.reset_commands as nat)
}

/// Appends a pin pulse: the two levels, each followed by a pause.
fn push_pulse(steps: &mut Vec<ResetStep>, first: ResetStep, second: ResetStep)
    ensures
        final(steps)@ == old(steps)@ + seq![first, ResetStep::Pause, second, ResetStep::Pause],
{
    steps.push(first);
    steps.push(ResetStep::Pause);
    steps.push(second);
    steps.push(ResetStep::Pause);
}

/// The steps of the reset sequence for the configured parts.
pub fn reset_steps(s: &ResetSetup) -> (r: Vec<ResetStep>)
    ensures
        r@ == reset_sequence(*s),
{
    let mut steps: Vec<ResetStep> = Vec::new();
    if s.sx1302_power_en {
        steps.push(ResetStep::Activate(ResetPin::Sx1302PowerEn));
        steps.push(ResetStep::Pause);
    }
    if s.sx130x_reset {
        push_pulse(&mut steps, ResetStep::Activate(ResetPin::Sx130xReset), ResetStep::Deactivate(ResetPin::Sx130xReset));
    }
    if s.sx1261_reset {
        push_pulse(&mut steps, ResetStep::Deactivate(ResetPin::Sx1261Reset), ResetStep::Activate(ResetPin::Sx1261Reset));
    }
    if s.ad5338r_reset {
        push_pulse(&mut steps, ResetStep::Deactivate(ResetPin::Ad5338rReset), ResetStep::Activate(ResetPin::Ad5338rReset));
    }
    let ghost pins = steps@;
    let mut i: usize = 0;
    while i < s.reset_commands
        invariant
            i <= s.reset_commands,
            steps@ == pins + command_steps(i as nat),
        decreases s.reset_commands - i,
    {
        steps.push(ResetStep::RunCommand(i));
        steps.push(ResetStep::Pause);
        assert(command_steps((i + 1) as nat) == command_steps(i as nat).push(ResetStep::RunCommand(i)).push(
            ResetStep::Pause,
        ));
        i += 1;
    }
    steps
}


/// The step drives `pin`.
pub open spec fn on_pin(st: ResetStep, pin: ResetPin) -> bool {
    st == ResetStep::Activate(pin) || st == ResetStep::Deactivate(pin)
}

/// The step runs a reset command.
pub open spec fn runs_command(st: ResetStep) -> bool {
    st is RunCommand
}

/// The test of whether a step drives `pin`.
pub open spec fn on_pin_pred(pin: ResetPin) -> spec_fn(ResetStep) -> bool {
    |st: ResetStep| on_pin(st, pin)
}

/// The test of whether a step runs a reset command.
pub open spec fn command_pred() -> spec_fn(ResetStep) -> bool {
    |st: ResetStep| runs_command(st)
}

/// Where a step stands in the order of the reset: the power enable, the SX130x
/// reset, the SX1261 reset, the AD5338R reset, then the commands.
pub open spec fn stage(st: ResetStep) -> int {
    match st {
        ResetStep::Activate(p) | ResetStep::Deactivate(p) => match p {
            ResetPin::Sx1302PowerEn => 0,
            ResetPin::Sx130xReset => 1,
            ResetPin::Sx1261Reset => 2,
            ResetPin::Ad5338rReset => 3,
        },
        ResetStep::RunCommand(_) => 4,
        ResetStep::Pause => -1,
    }
}

/// Every action is followed by a pause: the actions stand at the even places and
/// the pauses at the odd ones.
pub open spec fn paced(s: Seq<ResetStep>) -> bool {
    &&& s.len() % 2 == 0
    &&& forall|k: int| 0 <= k < s.len() / 2 ==> s[2 * k + 1] == ResetStep::Pause && #[trigger] s[2 * k] != ResetStep::Pause
}

/// The actions come in the order of their stages.
pub open spec fn in_stage_order(s: Seq<ResetStep>) -> bool {
    forall|a: int, b: int|
        0 <= a < b < s.len() && s[a] != ResetStep::Pause && s[b] != ResetStep::Pause ==> stage(#[trigger] s[a])
            <= stage(#[trigger] s[b])
}

/// Every action of `s` belongs to stage `r`.
spec fn in_stage(s: Seq<ResetStep>, r: int) -> bool {
    forall|i: int| 0 <= i < s.len() && s[i] != ResetStep::Pause ==> stage(#[trigger] s[i]) == r
}

/// No action of `s` belongs to a stage after `r`.
spec fn up_to_stage(s: Seq<ResetStep>, r: int) -> bool {
    forall|i: int| 0 <= i < s.len() && s[i] != ResetStep::Pause ==> stage(#[trigger] s[i]) <= r
}

proof fn lemma_filter_pair(a: ResetStep, b: ResetStep, pred: spec_fn(ResetStep) -> bool)
    ensures
        seq![a, b].filter(pred) == (if pred(a) { seq![a] } else { Seq::<ResetStep>::empty() }) + (if pred(b) {
            seq![b]
        } else {
            Seq::<ResetStep>::empty()
        }),
{
    reveal(Seq::filter);
    let e = Seq::<ResetStep>::empty();
    assert(e.filter(pred) =~= e);
    assert(seq![a] =~= e.push(a));
    assert(seq![a, b] =~= e.push(a).push(b));
    e.lemma_filter_push(a, pred);
    e.push(a).lemma_filter_push(b, pred);
    assert(seq![a, b].filter(pred) =~= (if pred(a) { seq![a] } else { Seq::<ResetStep>::empty() }) + (if pred(b) {
        seq![b]
    } else {
        Seq::<ResetStep>::empty()
    }));
}

proof fn lemma_filter_pulse(a: ResetStep, b: ResetStep, pred: spec_fn(ResetStep) -> bool)
    requires
        !pred(ResetStep::Pause),
    ensures
        seq![a, ResetStep::Pause, b, ResetStep::Pause].filter(pred) == (if pred(a) { seq![a] } else {
            Seq::<ResetStep>::empty()
        }) + (if pred(b) { seq![b] } else { Seq::<ResetStep>::empty() }),
{
    let s = seq![a, ResetStep::Pause, b, ResetStep::Pause];
    assert(s =~= seq![a, ResetStep::Pause] + seq![b, ResetStep::Pause]);
    lemma_filter_pair(a, ResetStep::Pause, pred);
    lemma_filter_pair(b, ResetStep::Pause, pred);
    Seq::filter_distributes_over_add(seq![a, ResetStep::Pause], seq![b, ResetStep::Pause], pred);
    assert(s.filter(pred) =~= (if pred(a) { seq![a] } else { Seq::<ResetStep>::empty() }) + (if pred(b) {
        seq![b]
    } else {
        Seq::<ResetStep>::empty()
    }));
}

proof fn lemma_filter_parts(
    a: Seq<ResetStep>,
    b: Seq<ResetStep>,
    c: Seq<ResetStep>,
    d: Seq<ResetStep>,
    e: Seq<ResetStep>,
    pred: spec_fn(ResetStep) -> bool,
)
    ensures
        (a + b + c + d + e).filter(pred) == a.filter(pred) + b.filter(pred) + c.filter(pred) + d.filter(pred)
            + e.filter(pred),
{
    Seq::filter_distributes_over_add(a, b, pred);
    Seq::filter_distributes_over_add(a + b, c, pred);
    Seq::filter_distributes_over_add(a + b + c, d, pred);
    Seq::filter_distributes_over_add(a + b + c + d, e, pred);
}

proof fn lemma_command_steps(n: nat)
    ensures
        command_steps(n).len() == 2 * n,
        forall|k: int|
            0 <= k < n ==> #[trigger] command_steps(n)[2 * k] == ResetStep::RunCommand(k as usize)
                && command_steps(n)[2 * k + 1] == ResetStep::Pause,
        forall|pin: ResetPin| #[trigger] command_steps(n).filter(on_pin_pred(pin)) =~= Seq::<ResetStep>::empty(),
        command_steps(n).filter(command_pred()) =~= Seq::new(n, |k: int| ResetStep::RunCommand(k as usize)),
    decreases n,
{
    reveal(Seq::filter);
    if n == 0 {
        assert forall|pin: ResetPin| #[trigger] command_steps(n).filter(on_pin_pred(pin)) =~= Seq::<ResetStep>::empty() by {
        }
    } else {
        let m = (n - 1) as nat;
        lemma_command_steps(m);
        let prev = command_steps(m);
        let run = ResetStep::RunCommand(m as usize);
        assert(command_steps(n) == prev.push(run).push(ResetStep::Pause));
        assert forall|k: int| 0 <= k < n implies #[trigger] command_steps(n)[2 * k] == ResetStep::RunCommand(k as usize)
            && command_steps(n)[2 * k + 1] == ResetStep::Pause by {
            if k < m {
                assert(command_steps(n)[2 * k] == prev[2 * k]);
                assert(command_steps(n)[2 * k + 1] == prev[2 * k + 1]);
            }
        }
        assert forall|pin: ResetPin| #[trigger] command_steps(n).filter(on_pin_pred(pin)) =~= Seq::<ResetStep>::empty() by {
            let pred = on_pin_pred(pin);
            assert(prev.filter(pred) =~= Seq::<ResetStep>::empty());
            prev.lemma_filter_push(run, pred);
            prev.push(run).lemma_filter_push(ResetStep::Pause, pred);
        }
        let cmd = command_pred();
        prev.lemma_filter_push(run, cmd);
        prev.push(run).lemma_filter_push(ResetStep::Pause, cmd);
        assert(command_steps(n).filter(cmd) =~= Seq::new(n, |k: int| ResetStep::RunCommand(k as usize)));
    }
}

proof fn lemma_paced_concat(a: Seq<ResetStep>, b: Seq<ResetStep>)
    requires
        paced(a),
        paced(b),
    ensures
        paced(a + b),
{
    let s = a + b;
    let h = a.len() / 2;
    assert forall|k: int| 0 <= k < s.len() / 2 implies s[2 * k + 1] == ResetStep::Pause && #[trigger] s[2 * k]
        != ResetStep::Pause by {
        if k < h {
            assert(s[2 * k] == a[2 * k]);
            assert(s[2 * k + 1] == a[2 * k + 1]);
        } else {
            let j = k - h;
            assert(b[2 * j] != ResetStep::Pause);
            assert(s[2 * k] == b[2 * j]);
            assert(s[2 * k + 1] == b[2 * j + 1]);
        }
    }
}

proof fn lemma_order_concat(a: Seq<ResetStep>, b: Seq<ResetStep>, r: int)
    requires
        in_stage_order(a),
        up_to_stage(a, r),
        in_stage(b, r),
    ensures
        in_stage_order(a + b),
        up_to_stage(a + b, r),
{
    let s = a + b;
    assert forall|x: int, y: int|
        0 <= x < y < s.len() && s[x] != ResetStep::Pause && s[y] != ResetStep::Pause implies stage(#[trigger] s[x])
            <= stage(#[trigger] s[y]) by {
        if y < a.len() {
            assert(s[x] == a[x]);
            assert(s[y] == a[y]);
        } else if x < a.len() {
            assert(s[x] == a[x]);
            assert(s[y] == b[y - a.len()]);
        } else {
            assert(s[x] == b[x - a.len()]);
            assert(s[y] == b[y - a.len()]);
        }
    }
    assert forall|i: int| 0 <= i < s.len() && s[i] != ResetStep::Pause implies stage(#[trigger] s[i]) <= r by {
        if i < a.len() {
            assert(s[i] == a[i]);
        } else {
            assert(s[i] == b[i - a.len()]);
        }
    }
}

proof fn lemma_pulse_shape(a: ResetStep, b: ResetStep, r: int)
    requires
        a != ResetStep::Pause,
        b != ResetStep::Pause,
        stage(a) == r,
        stage(b) == r,
    ensures
        paced(seq![a, ResetStep::Pause, b, ResetStep::Pause]),
        in_stage(seq![a, ResetStep::Pause, b, ResetStep::Pause], r),
{
    let s = seq![a, ResetStep::Pause, b, ResetStep::Pause];
    assert forall|k: int| 0 <= k < s.len() / 2 implies s[2 * k + 1] == ResetStep::Pause && #[trigger] s[2 * k]
        != ResetStep::Pause by {
        assert(k == 0 || k == 1);
    }
}

/// The reset drives each pin as a pulse of its own and runs every command once, in
/// order: the SX1302 power enable is set active; the SX130x reset is set active,
/// then inactive; the SX1261 and the AD5338R resets are set inactive, then active
/// (so the last level set on each of these is the one it is left at); a pin that is
/// not configured is never driven; and the commands run in their order, each once.
pub proof fn lemma_reset_pin_levels(s: ResetSetup)
    ensures
        reset_sequence(s).filter(on_pin_pred(ResetPin::Sx1302PowerEn)) == if s.sx1302_power_en {
            seq![ResetStep::Activate(ResetPin::Sx1302PowerEn)]
        } else {
            Seq::<ResetStep>::empty()
        },
        reset_sequence(s).filter(on_pin_pred(ResetPin::Sx130xReset)) == if s.sx130x_reset {
            seq![ResetStep::Activate(ResetPin::Sx130xReset), ResetStep::Deactivate(ResetPin::Sx130xReset)]
        } else {
            Seq::<ResetStep>::empty()
        },
        reset_sequence(s).filter(on_pin_pred(ResetPin::Sx1261Reset)) == if s.sx1261_reset {
            seq![ResetStep::Deactivate(ResetPin::Sx1261Reset), ResetStep::Activate(ResetPin::Sx1261Reset)]
        } else {
            Seq::<ResetStep>::empty()
        },
        reset_sequence(s).filter(on_pin_pred(ResetPin::Ad5338rReset)) == if s.ad5338r_reset {
            seq![ResetStep::Deactivate(ResetPin::Ad5338rReset), ResetStep::Activate(ResetPin::Ad5338rReset)]
        } else {
            Seq::<ResetStep>::empty()
        },
        reset_sequence(s).filter(command_pred()) == Seq::new(
            s.reset_commands as nat,
            |k: int| ResetStep::RunCommand(k as usize),
        ),
{
    let power = if s.sx1302_power_en {
        seq![ResetStep::Activate(ResetPin::Sx1302PowerEn), ResetStep::Pause]
    } else {
        Seq::empty()
    };
    let sx130x = if s.sx130x_reset {
        seq![
            ResetStep::Activate(ResetPin::Sx130xReset),
            ResetStep::Pause,
            ResetStep::Deactivate(ResetPin::Sx130xReset),
            ResetStep::Pause,
        ]
    } else {
        Seq::empty()
    };
    let sx1261 = if s.sx1261_reset {
        seq![
            ResetStep::Deactivate(ResetPin::Sx1261Reset),
            ResetStep::Pause,
            ResetStep::Activate(ResetPin::Sx1261Reset),
            ResetStep::Pause,
        ]
    } else {
        Seq::empty()
    };
    let ad5338r = if s.ad5338r_reset {
        seq![
            ResetStep::Deactivate(ResetPin::Ad5338rReset),
            ResetStep::Pause,
            ResetStep::Activate(ResetPin::Ad5338rReset),
            ResetStep::Pause,
        ]
    } else {
        Seq::empty()
    };
    let cmds = command_steps(s.reset_commands as nat);
    assert(reset_sequence(s) == power + sx130x + sx1261 + ad5338r + cmds);
    lemma_command_steps(s.reset_commands as nat);
    reveal(Seq::filter);
    let e = Seq::<ResetStep>::empty();
    let p0 = on_pin_pred(ResetPin::Sx1302PowerEn);
    let p1 = on_pin_pred(ResetPin::Sx130xReset);
    let p2 = on_pin_pred(ResetPin::Sx1261Reset);
    let p3 = on_pin_pred(ResetPin::Ad5338rReset);
    let pc = command_pred();
    lemma_filter_parts(power, sx130x, sx1261, ad5338r, cmds, p0);
    lemma_filter_parts(power, sx130x, sx1261, ad5338r, cmds, p1);
    lemma_filter_parts(power, sx130x, sx1261, ad5338r, cmds, p2);
    lemma_filter_parts(power, sx130x, sx1261, ad5338r, cmds, p3);
    lemma_filter_parts(power, sx130x, sx1261, ad5338r, cmds, pc);
    assert(e.filter(p0) =~= e);
    assert(e.filter(p1) =~= e);
    assert(e.filter(p2) =~= e);
    assert(e.filter(p3) =~= e);
    assert(e.filter(pc) =~= e);
    lemma_filter_pair(ResetStep::Activate(ResetPin::Sx1302PowerEn), ResetStep::Pause, p0);
    lemma_filter_pair(ResetStep::Activate(ResetPin::Sx1302PowerEn), ResetStep::Pause, p1);
    lemma_filter_pair(ResetStep::Activate(ResetPin::Sx1302PowerEn), ResetStep::Pause, p2);
    lemma_filter_pair(ResetStep::Activate(ResetPin::Sx1302PowerEn), ResetStep::Pause, p3);
    lemma_filter_pair(ResetStep::Activate(ResetPin::Sx1302PowerEn), ResetStep::Pause, pc);
    lemma_filter_pulse(ResetStep::Activate(ResetPin::Sx130xReset), ResetStep::Deactivate(ResetPin::Sx130xReset), p0);
    lemma_filter_pulse(ResetStep::Activate(ResetPin::Sx130xReset), ResetStep::Deactivate(ResetPin::Sx130xReset), p1);
    lemma_filter_pulse(ResetStep::Activate(ResetPin::Sx130xReset), ResetStep::Deactivate(ResetPin::Sx130xReset), p2);
    lemma_filter_pulse(ResetStep::Activate(ResetPin::Sx130xReset), ResetStep::Deactivate(ResetPin::Sx130xReset), p3);
    lemma_filter_pulse(ResetStep::Activate(ResetPin::Sx130xReset), ResetStep::Deactivate(ResetPin::Sx130xReset), pc);
    lemma_filter_pulse(ResetStep::Deactivate(ResetPin::Sx1261Reset), ResetStep::Activate(ResetPin::Sx1261Reset), p0);
    lemma_filter_pulse(ResetStep::Deactivate(ResetPin::Sx1261Reset), ResetStep::Activate(ResetPin::Sx1261Reset), p1);
    lemma_filter_pulse(ResetStep::Deactivate(ResetPin::Sx1261Reset), ResetStep::Activate(ResetPin::Sx1261Reset), p2);
    lemma_filter_pulse(ResetStep::Deactivate(ResetPin::Sx1261Reset), ResetStep::Activate(ResetPin::Sx1261Reset), p3);
    lemma_filter_pulse(ResetStep::Deactivate(ResetPin::Sx1261Reset), ResetStep::Activate(ResetPin::Sx1261Reset), pc);
    lemma_filter_pulse(ResetStep::Deactivate(ResetPin::Ad5338rReset), ResetStep::Activate(ResetPin::Ad5338rReset), p0);
    lemma_filter_pulse(ResetStep::Deactivate(ResetPin::Ad5338rReset), ResetStep::Activate(ResetPin::Ad5338rReset), p1);
    lemma_filter_pulse(ResetStep::Deactivate(ResetPin::Ad5338rReset), ResetStep::Activate(ResetPin::Ad5338rReset), p2);
    lemma_filter_pulse(ResetStep::Deactivate(ResetPin::Ad5338rReset), ResetStep::Activate(ResetPin::Ad5338rReset), p3);
    lemma_filter_pulse(ResetStep::Deactivate(ResetPin::Ad5338rReset), ResetStep::Activate(ResetPin::Ad5338rReset), pc);
    assert(cmds.filter(p0) =~= e);
    assert(cmds.filter(p1) =~= e);
    assert(cmds.filter(p2) =~= e);
    assert(cmds.filter(p3) =~= e);
    assert(reset_sequence(s).filter(p0) =~= (if s.sx1302_power_en {
        seq![ResetStep::Activate(ResetPin::Sx1302PowerEn)]
    } else {
        e
    }));
    assert(reset_sequence(s).filter(p1) =~= (if s.sx130x_reset {
        seq![ResetStep::Activate(ResetPin::Sx130xReset), ResetStep::Deactivate(ResetPin::Sx130xReset)]
    } else {
        e
    }));
    assert(reset_sequence(s).filter(p2) =~= (if s.sx1261_reset {
        seq![ResetStep::Deactivate(ResetPin::Sx1261Reset), ResetStep::Activate(ResetPin::Sx1261Reset)]
    } else {
        e
    }));
    assert(reset_sequence(s).filter(p3) =~= (if s.ad5338r_reset {
        seq![ResetStep::Deactivate(ResetPin::Ad5338rReset), ResetStep::Activate(ResetPin::Ad5338rReset)]
    } else {
        e
    }));
    assert(reset_sequence(s).filter(pc) =~= Seq::new(s.reset_commands as nat, |k: int| ResetStep::RunCommand(k as usize)));
}

/// The reset paces itself and keeps its order: every action is followed by a pause,
/// and the actions come power enable first, then the SX130x, the SX1261 and the
/// AD5338R resets, then the commands.
pub proof fn lemma_reset_sequence_shape(s: ResetSetup)
    ensures
        paced(reset_sequence(s)),
        in_stage_order(reset_sequence(s)),
{
    let power = if s.sx1302_power_en {
        seq![ResetStep::Activate(ResetPin::Sx1302PowerEn), ResetStep::Pause]
    } else {
        Seq::empty()
    };
    let sx130x = if s.sx130x_reset {
        seq![
            ResetStep::Activate(ResetPin::Sx130xReset),
            ResetStep::Pause,
            ResetStep::Deactivate(ResetPin::Sx130xReset),
            ResetStep::Pause,
        ]
    } else {
        Seq::empty()
    };
    let sx1261 = if s.sx1261_reset {
        seq![
            ResetStep::Deactivate(ResetPin::Sx1261Reset),
            ResetStep::Pause,
            ResetStep::Activate(ResetPin::Sx1261Reset),
            ResetStep::Pause,
        ]
    } else {
        Seq::empty()
    };
    let ad5338r = if s.ad5338r_reset {
        seq![
            ResetStep::Deactivate(ResetPin::Ad5338rReset),
            ResetStep::Pause,
            ResetStep::Activate(ResetPin::Ad5338rReset),
            ResetStep::Pause,
        ]
    } else {
        Seq::empty()
    };
    let cmds = command_steps(s.reset_commands as nat);
    assert(reset_sequence(s) == power + sx130x + sx1261 + ad5338r + cmds);
    lemma_command_steps(s.reset_commands as nat);
    let pair = seq![ResetStep::Activate(ResetPin::Sx1302PowerEn), ResetStep::Pause];
    assert(paced(pair)) by {
        assert forall|k: int| 0 <= k < pair.len() / 2 implies pair[2 * k + 1] == ResetStep::Pause && #[trigger] pair[2 * k]
            != ResetStep::Pause by {
            assert(k == 0);
        }
    }
    assert(paced(Seq::<ResetStep>::empty()));
    lemma_pulse_shape(ResetStep::Activate(ResetPin::Sx130xReset), ResetStep::Deactivate(ResetPin::Sx130xReset), 1);
    lemma_pulse_shape(ResetStep::Deactivate(ResetPin::Sx1261Reset), ResetStep::Activate(ResetPin::Sx1261Reset), 2);
    lemma_pulse_shape(ResetStep::Deactivate(ResetPin::Ad5338rReset), ResetStep::Activate(ResetPin::Ad5338rReset), 3);
    assert(paced(cmds)) by {
        assert forall|k: int| 0 <= k < cmds.len() / 2 implies cmds[2 * k + 1] == ResetStep::Pause && #[trigger] cmds[2 * k]
            != ResetStep::Pause by {
            assert(cmds[2 * k] == ResetStep::RunCommand(k as usize));
        }
    }
    assert(in_stage(cmds, 4)) by {
        assert forall|i: int| 0 <= i < cmds.len() && cmds[i] != ResetStep::Pause implies stage(#[trigger] cmds[i]) == 4 by {
            let k = i / 2;
            if i % 2 == 0 {
                assert(i == 2 * k);
                assert(cmds[2 * k] == ResetStep::RunCommand(k as usize));
            } else {
                assert(i == 2 * k + 1);
                assert(cmds[2 * k + 1] == ResetStep::Pause);
            }
        }
    }
    assert(in_stage_order(power) && up_to_stage(power, 0)) by {
        if s.sx1302_power_en {
            assert(power[1] == ResetStep::Pause);
        }
    }
    lemma_paced_concat(power, sx130x);
    lemma_paced_concat(power + sx130x, sx1261);
    lemma_paced_concat(power + sx130x + sx1261, ad5338r);
    lemma_paced_concat(power + sx130x + sx1261 + ad5338r, cmds);
    assert(in_stage(sx130x, 1));
    assert(in_stage(sx1261, 2));
    assert(in_stage(ad5338r, 3));
    assert(up_to_stage(power, 1));
    lemma_order_concat(power, sx130x, 1);
    assert(up_to_stage(power + sx130x, 2));
    lemma_order_concat(power + sx130x, sx1261, 2);
    assert(up_to_stage(power + sx130x + sx1261, 3));
    lemma_order_concat(power + sx130x + sx1261, ad5338r, 3);
    assert(up_to_stage(power + sx130x + sx1261 + ad5338r, 4));
    lemma_order_concat(power + sx130x + sx1261 + ad5338r, cmds, 4);
}

} // verus!
