use vstd::prelude::*;

use crate::config::{Config, RESET_PULSE_MS, RESET_TIMEOUT_MS};
use crate::error::Error;
use crate::protocol::{Action, BringUp, Outcome, Phase};

verus! {

/// The state that a bring-up for `config` starts in.
pub open spec fn initial<I2cE, SpiE, PinE>(config: Config) -> BringUp<I2cE, SpiE, PinE> {
    BringUp { config, phase: Phase::Unreset }
}

/// The state reached by feeding the outcomes `os`, in order, to `m`.
pub open spec fn run<I2cE, SpiE, PinE>(
    m: BringUp<I2cE, SpiE, PinE>,
    os: Seq<Outcome<I2cE, SpiE, PinE>>,
) -> BringUp<I2cE, SpiE, PinE>
    decreases os.len(),
{
    if os.len() == 0 {
        m
    } else {
        run(m.next(os[0]), os.drop_first())
    }
}

/// The operations asked for while the outcomes `os` are fed to `m`: one per
/// outcome, the one pending when that outcome came.
pub open spec fn trace<I2cE, SpiE, PinE>(
    m: BringUp<I2cE, SpiE, PinE>,
    os: Seq<Outcome<I2cE, SpiE, PinE>>,
) -> Seq<Action>
    decreases os.len(),
{
    if os.len() == 0 {
        Seq::empty()
    } else {
        seq![m.action_spec()] + trace(m.next(os[0]), os.drop_first())
    }
}

/// The reset line is driven low, the pulse is held and the line is released,
/// each without error.
pub open spec fn reset_ok<I2cE, SpiE, PinE>() -> Seq<Outcome<I2cE, SpiE, PinE>> {
    seq![Outcome::Done, Outcome::Done, Outcome::Done]
}

/// The busy line reads low `n` times, each read followed by a completed pause.
pub open spec fn low_polls<I2cE, SpiE, PinE>(n: nat) -> Seq<Outcome<I2cE, SpiE, PinE>>
    decreases n,
{
    if n == 0 {
        Seq::empty()
    } else {
        seq![Outcome::BusyLow(true), Outcome::Done] + low_polls((n - 1) as nat)
    }
}

/// The busy line reads high and both probes go through without error.
pub open spec fn probes_ok<I2cE, SpiE, PinE>() -> Seq<Outcome<I2cE, SpiE, PinE>> {
    seq![Outcome::BusyLow(false), Outcome::Done, Outcome::Done, Outcome::Done, Outcome::Done]
}

/// The operations of the reset pulse.
pub open spec fn reset_actions() -> Seq<Action> {
    seq![Action::DriveResetLow, Action::Pause(RESET_PULSE_MS), Action::DriveResetHigh]
}

/// `n` reads of the busy line, each followed by a pause of `poll_ms`.
pub open spec fn poll_actions(n: nat, poll_ms: u32) -> Seq<Action>
    decreases n,
{
    if n == 0 {
        Seq::empty()
    } else {
        seq![Action::ReadBusy, Action::Pause(poll_ms)] + poll_actions((n - 1) as nat, poll_ms)
    }
}

/// The last read of the busy line and the two probe exchanges, chip select
/// held low around the block-bus write.
pub open spec fn probe_actions() -> Seq<Action> {
    seq![
        Action::ReadBusy,
        Action::WriteRegisterProbe,
        Action::SelectChip,
        Action::WriteBlockProbe,
        Action::DeselectChip,
    ]
}

/// Whether no bus write occurs among `t`.
pub open spec fn no_bus_write(t: Seq<Action>) -> bool {
    forall|i: int|
        0 <= i < t.len() ==> t[i] != Action::WriteRegisterProbe && t[i]
            != Action::WriteBlockProbe
}

/// `k` times [`Action::Finished`]: nothing more is done.
pub open spec fn finished_actions(k: nat) -> Seq<Action> {
    Seq::new(k, |i: int| Action::Finished)
}

proof fn lemma_split<I2cE, SpiE, PinE>(
    m: BringUp<I2cE, SpiE, PinE>,
    a: Seq<Outcome<I2cE, SpiE, PinE>>,
    b: Seq<Outcome<I2cE, SpiE, PinE>>,
)
    ensures
        run(m, a + b) == run(run(m, a), b),
        trace(m, a + b) == trace(m, a) + trace(run(m, a), b),
    decreases a.len(),
{
    if a.len() == 0 {
        assert(a + b =~= b);
        assert(trace(m, a) + trace(run(m, a), b) =~= trace(run(m, a), b));
    } else {
        assert((a + b).drop_first() =~= a.drop_first() + b);
        assert((a + b)[0] == a[0]);
        lemma_split(m.next(a[0]), a.drop_first(), b);
        assert(trace(m, a + b) =~= trace(m, a) + trace(run(m, a), b));
    }
}

proof fn lemma_finished_stays<I2cE, SpiE, PinE>(
    m: BringUp<I2cE, SpiE, PinE>,
    os: Seq<Outcome<I2cE, SpiE, PinE>>,
)
    requires
        m.finished(),
    ensures
        run(m, os) == m,
        trace(m, os) == finished_actions(os.len()),
    decreases os.len(),
{
    if os.len() == 0 {
        assert(trace(m, os) =~= finished_actions(0));
    } else {
        lemma_finished_stays(m.next(os[0]), os.drop_first());
        let t = trace(m, os);
        let rest = trace(m.next(os[0]), os.drop_first());
        assert(t =~= finished_actions(os.len()));
    }
}

/// The state that waits for the busy line with `elapsed` delay units spent.
pub open spec fn awaiting<I2cE, SpiE, PinE>(config: Config, elapsed: int) -> BringUp<
    I2cE,
    SpiE,
    PinE,
> {
    BringUp { config, phase: Phase::AwaitingReady { elapsed: elapsed as u32 } }
}

proof fn lemma_mul_succ(k: nat, p: nat)
    ensures
        (k + 1) * p == k * p + p,
        k * p >= 0,
{
    assert((k + 1) * p == k * p + p) by (nonlinear_arith);
    assert(k * p >= 0) by (nonlinear_arith);
}

proof fn lemma_one<I2cE, SpiE, PinE>(m: BringUp<I2cE, SpiE, PinE>, o: Outcome<I2cE, SpiE, PinE>)
    ensures
        run(m, seq![o]) == m.next(o),
        trace(m, seq![o]) == seq![m.action_spec()],
{
    let os = seq![o];
    assert(os.len() == 1 && os[0] == o);
    assert(os.drop_first() =~= Seq::<Outcome<I2cE, SpiE, PinE>>::empty());
    assert(run(m.next(o), os.drop_first()) == m.next(o));
    assert(trace(m.next(o), os.drop_first()) == Seq::<Action>::empty());
    assert(seq![m.action_spec()] + Seq::<Action>::empty() =~= seq![m.action_spec()]);
}

proof fn lemma_two<I2cE, SpiE, PinE>(
    m: BringUp<I2cE, SpiE, PinE>,
    o1: Outcome<I2cE, SpiE, PinE>,
    o2: Outcome<I2cE, SpiE, PinE>,
)
    ensures
        run(m, seq![o1, o2]) == m.next(o1).next(o2),
        trace(m, seq![o1, o2]) == seq![m.action_spec(), m.next(o1).action_spec()],
{
    assert(seq![o1, o2] =~= seq![o1] + seq![o2]);
    lemma_split(m, seq![o1], seq![o2]);
    lemma_one(m, o1);
    lemma_one(m.next(o1), o2);
    assert(seq![m.action_spec()] + seq![m.next(o1).action_spec()] =~= seq![
        m.action_spec(),
        m.next(o1).action_spec(),
    ]);
}

proof fn lemma_polls_within_budget<I2cE, SpiE, PinE>(m: BringUp<I2cE, SpiE, PinE>, e: u32, n: nat)
    requires
        m == awaiting::<I2cE, SpiE, PinE>(m.config, e as int),
        e + n * m.config.poll_ms <= RESET_TIMEOUT_MS,
    ensures
        run(m, low_polls(n)) == awaiting::<I2cE, SpiE, PinE>(m.config, e + n * m.config.poll_ms),
        trace(m, low_polls(n)) == poll_actions(n, m.config.poll_ms),
    decreases n,
{
    let p = m.config.poll_ms;
    if n == 0 {
        assert(low_polls::<I2cE, SpiE, PinE>(n) =~= Seq::empty());
        assert(n * p == 0);
    } else {
        let head = seq![Outcome::<I2cE, SpiE, PinE>::BusyLow(true), Outcome::Done];
        let k = (n - 1) as nat;
        lemma_mul_succ(k, p as nat);
        lemma_split(m, head, low_polls(k));
        lemma_two(m, Outcome::BusyLow(true), Outcome::Done);
        let m2 = run(m, head);
        lemma_polls_within_budget(m2, (e + p) as u32, k);
    }
}

proof fn lemma_polls_over_budget<I2cE, SpiE, PinE>(
    m: BringUp<I2cE, SpiE, PinE>,
    e: u32,
    n: nat,
    tail: Seq<Outcome<I2cE, SpiE, PinE>>,
)
    requires
        m == awaiting::<I2cE, SpiE, PinE>(m.config, e as int),
        e <= RESET_TIMEOUT_MS,
        e + n * m.config.poll_ms > RESET_TIMEOUT_MS,
    ensures
        run(m, low_polls(n) + tail).config == m.config,
        run(m, low_polls(n) + tail).phase == Phase::<I2cE, SpiE, PinE>::Failed(Error::ResetTimeout),
        no_bus_write(trace(m, low_polls(n) + tail)),
    decreases n,
{
    let p = m.config.poll_ms;
    if n == 0 {
        assert(n * p == 0);
    } else {
        let head = seq![Outcome::<I2cE, SpiE, PinE>::BusyLow(true), Outcome::Done];
        let k = (n - 1) as nat;
        lemma_mul_succ(k, p as nat);
        assert(low_polls::<I2cE, SpiE, PinE>(n) + tail =~= head + (low_polls(k) + tail));
        lemma_split(m, head, low_polls(k) + tail);
        lemma_two(m, Outcome::BusyLow(true), Outcome::Done);
        let m2 = run(m, head);
        if e + p > RESET_TIMEOUT_MS {
            lemma_finished_stays(m2, low_polls(k) + tail);
        } else {
            lemma_polls_over_budget(m2, (e + p) as u32, k, tail);
        }
    }
}

proof fn lemma_reset<I2cE, SpiE, PinE>(config: Config)
    ensures
        run(initial::<I2cE, SpiE, PinE>(config), reset_ok()) == awaiting::<I2cE, SpiE, PinE>(
            config,
            0,
        ),
        trace(initial::<I2cE, SpiE, PinE>(config), reset_ok()) == reset_actions(),
{
    let m = initial::<I2cE, SpiE, PinE>(config);
    let d = Outcome::<I2cE, SpiE, PinE>::Done;
    assert(reset_ok::<I2cE, SpiE, PinE>() =~= seq![d] + seq![d, d]);
    lemma_split(m, seq![d], seq![d, d]);
    lemma_one(m, d);
    lemma_two(m.next(d), d, d);
    assert(trace(m, reset_ok()) =~= reset_actions());
}

proof fn lemma_reach_ready_wait<I2cE, SpiE, PinE>(
    config: Config,
    n: nat,
    rest: Seq<Outcome<I2cE, SpiE, PinE>>,
)
    requires
        n * config.poll_ms <= RESET_TIMEOUT_MS,
    ensures
        run(initial::<I2cE, SpiE, PinE>(config), reset_ok() + low_polls(n) + rest) == run(
            awaiting::<I2cE, SpiE, PinE>(config, n * config.poll_ms),
            rest,
        ),
        trace(initial::<I2cE, SpiE, PinE>(config), reset_ok() + low_polls(n) + rest)
            == reset_actions() + poll_actions(n, config.poll_ms) + trace(
            awaiting::<I2cE, SpiE, PinE>(config, n * config.poll_ms),
            rest,
        ),
{
    let m = initial::<I2cE, SpiE, PinE>(config);
    lemma_split(m, reset_ok() + low_polls(n), rest);
    lemma_split(m, reset_ok(), low_polls(n));
    lemma_reset::<I2cE, SpiE, PinE>(config);
    lemma_polls_within_budget(awaiting::<I2cE, SpiE, PinE>(config, 0), 0, n);
}

/// When the busy line reads low `n` times, `n` polling intervals fitting in
/// the reset budget, then reads high, and every drive and write goes
/// through, the bring-up ends ready with the configuration it was given. It
/// asks for exactly the reset pulse, `n` reads each followed by a pause of
/// one polling interval, the read that finds the device ready, the
/// register-bus probe, and the block-bus probe framed by chip select.
pub proof fn lemma_ready_within_timeout<I2cE, SpiE, PinE>(config: Config, n: nat)
    requires
        config.poll_ms > 0,
        n * config.poll_ms <= RESET_TIMEOUT_MS,
    ensures
        run(initial::<I2cE, SpiE, PinE>(config), reset_ok() + low_polls(n) + probes_ok()).phase
            == Phase::<I2cE, SpiE, PinE>::Ready,
        run(initial::<I2cE, SpiE, PinE>(config), reset_ok() + low_polls(n) + probes_ok()).config
            == config,
        trace(initial::<I2cE, SpiE, PinE>(config), reset_ok() + low_polls(n) + probes_ok())
            == reset_actions() + poll_actions(n, config.poll_ms) + probe_actions(),
{
    lemma_reach_ready_wait::<I2cE, SpiE, PinE>(config, n, probes_ok());
    let m = awaiting::<I2cE, SpiE, PinE>(config, n * config.poll_ms);
    let d = Outcome::<I2cE, SpiE, PinE>::Done;
    let h = Outcome::<I2cE, SpiE, PinE>::BusyLow(false);
    assert(probes_ok::<I2cE, SpiE, PinE>() =~= seq![h, d] + (seq![d, d] + seq![d]));
    lemma_split(m, seq![h, d], seq![d, d] + seq![d]);
    lemma_two(m, h, d);
    let m2 = m.next(h).next(d);
    lemma_split(m2, seq![d, d], seq![d]);
    lemma_two(m2, d, d);
    lemma_one(m2.next(d).next(d), d);
    assert(trace(m, probes_ok()) =~= probe_actions());
}

/// When the busy line stays low for `n` reads while `n` polling intervals
/// overrun the reset budget, the bring-up fails with exactly
/// [`Error::ResetTimeout`], whatever comes after those reads, and no bus
/// write is ever asked for.
pub proof fn lemma_timeout_when_never_ready<I2cE, SpiE, PinE>(
    config: Config,
    n: nat,
    tail: Seq<Outcome<I2cE, SpiE, PinE>>,
)
    requires
        n * config.poll_ms > RESET_TIMEOUT_MS,
    ensures
        run(initial::<I2cE, SpiE, PinE>(config), reset_ok() + low_polls(n) + tail).phase
            == Phase::<I2cE, SpiE, PinE>::Failed(Error::ResetTimeout),
        no_bus_write(trace(initial::<I2cE, SpiE, PinE>(config), reset_ok() + low_polls(n) + tail)),
{
    let m = initial::<I2cE, SpiE, PinE>(config);
    assert(reset_ok::<I2cE, SpiE, PinE>() + low_polls(n) + tail =~= reset_ok() + (low_polls(n)
        + tail));
    lemma_split(m, reset_ok(), low_polls(n) + tail);
    lemma_reset::<I2cE, SpiE, PinE>(config);
    lemma_polls_over_budget(awaiting::<I2cE, SpiE, PinE>(config, 0), 0, n, tail);
}

/// When driving the reset line low fails with `e`, the bring-up fails with
/// [`Error::Pin`]`(e)` and asks for nothing after that drive.
pub proof fn lemma_reset_fault<I2cE, SpiE, PinE>(
    config: Config,
    e: PinE,
    tail: Seq<Outcome<I2cE, SpiE, PinE>>,
)
    ensures
        run(initial::<I2cE, SpiE, PinE>(config), seq![Outcome::PinFault(e)] + tail).phase
            == Phase::<I2cE, SpiE, PinE>::Failed(Error::Pin(e)),
        trace(initial::<I2cE, SpiE, PinE>(config), seq![Outcome::PinFault(e)] + tail) == seq![
            Action::DriveResetLow,
        ] + finished_actions(tail.len()),
{
    let m = initial::<I2cE, SpiE, PinE>(config);
    let f = Outcome::<I2cE, SpiE, PinE>::PinFault(e);
    lemma_split(m, seq![f], tail);
    lemma_one(m, f);
    lemma_finished_stays(m.next(f), tail);
}

/// When the busy line reads low `n` times within the reset budget and the
/// next read fails with `e`, the bring-up fails with [`Error::Pin`]`(e)`
/// and no bus write is ever asked for.
pub proof fn lemma_busy_read_fault<I2cE, SpiE, PinE>(
    config: Config,
    n: nat,
    e: PinE,
    tail: Seq<Outcome<I2cE, SpiE, PinE>>,
)
    requires
        n * config.poll_ms <= RESET_TIMEOUT_MS,
    ensures
        run(
            initial::<I2cE, SpiE, PinE>(config),
            reset_ok() + low_polls(n) + (seq![Outcome::PinFault(e)] + tail),
        ).phase == Phase::<I2cE, SpiE, PinE>::Failed(Error::Pin(e)),
        trace(
            initial::<I2cE, SpiE, PinE>(config),
            reset_ok() + low_polls(n) + (seq![Outcome::PinFault(e)] + tail),
        ) == reset_actions() + poll_actions(n, config.poll_ms) + (seq![Action::ReadBusy]
            + finished_actions(tail.len())),
{
    let f = Outcome::<I2cE, SpiE, PinE>::PinFault(e);
    lemma_reach_ready_wait::<I2cE, SpiE, PinE>(config, n, seq![f] + tail);
    let m = awaiting::<I2cE, SpiE, PinE>(config, n * config.poll_ms);
    lemma_split(m, seq![f], tail);
    lemma_one(m, f);
    lemma_finished_stays(m.next(f), tail);
}

/// When the device comes out of reset within the budget and the register-bus
/// write fails with `e`, the bring-up fails with [`Error::I2c`]`(e)`, after
/// the reset pulse, the polls and the read that found the device ready, and
/// asks for nothing after the write.
pub proof fn lemma_register_write_fault<I2cE, SpiE, PinE>(
    config: Config,
    n: nat,
    e: I2cE,
    tail: Seq<Outcome<I2cE, SpiE, PinE>>,
)
    requires
        n * config.poll_ms <= RESET_TIMEOUT_MS,
    ensures
        run(
            initial::<I2cE, SpiE, PinE>(config),
            reset_ok() + low_polls(n) + (seq![Outcome::BusyLow(false), Outcome::I2cFault(e)]
                + tail),
        ).phase == Phase::<I2cE, SpiE, PinE>::Failed(Error::I2c(e)),
        trace(
            initial::<I2cE, SpiE, PinE>(config),
            reset_ok() + low_polls(n) + (seq![Outcome::BusyLow(false), Outcome::I2cFault(e)]
                + tail),
        ) == reset_actions() + poll_actions(n, config.poll_ms) + (seq![
            Action::ReadBusy,
            Action::WriteRegisterProbe,
        ] + finished_actions(tail.len())),
{
    let h = Outcome::<I2cE, SpiE, PinE>::BusyLow(false);
    let f = Outcome::<I2cE, SpiE, PinE>::I2cFault(e);
    lemma_reach_ready_wait::<I2cE, SpiE, PinE>(config, n, seq![h, f] + tail);
    let m = awaiting::<I2cE, SpiE, PinE>(config, n * config.poll_ms);
    lemma_split(m, seq![h, f], tail);
    lemma_two(m, h, f);
    lemma_finished_stays(m.next(h).next(f), tail);
}

/// When the block-bus write fails with `e`, chip select is still released,
/// and the bring-up then fails with [`Error::Spi`]`(e)`.
pub proof fn lemma_block_write_fault_releases_chip<I2cE, SpiE, PinE>(
    config: Config,
    n: nat,
    e: SpiE,
    tail: Seq<Outcome<I2cE, SpiE, PinE>>,
)
    requires
        n * config.poll_ms <= RESET_TIMEOUT_MS,
    ensures
        run(
            initial::<I2cE, SpiE, PinE>(config),
            reset_ok() + low_polls(n) + (seq![
                Outcome::BusyLow(false),
                Outcome::Done,
                Outcome::Done,
                Outcome::SpiFault(e),
                Outcome::Done,
            ] + tail),
        ).phase == Phase::<I2cE, SpiE, PinE>::Failed(Error::Spi(e)),
        trace(
            initial::<I2cE, SpiE, PinE>(config),
            reset_ok() + low_polls(n) + (seq![
                Outcome::BusyLow(false),
                Outcome::Done,
                Outcome::Done,
                Outcome::SpiFault(e),
                Outcome::Done,
            ] + tail),
        ) == reset_actions() + poll_actions(n, config.poll_ms) + (probe_actions()
            + finished_actions(tail.len())),
{
    let h = Outcome::<I2cE, SpiE, PinE>::BusyLow(false);
    let d = Outcome::<I2cE, SpiE, PinE>::Done;
    let f = Outcome::<I2cE, SpiE, PinE>::SpiFault(e);
    let body = seq![h, d, d, f, d];
    lemma_reach_ready_wait::<I2cE, SpiE, PinE>(config, n, body + tail);
    let m = awaiting::<I2cE, SpiE, PinE>(config, n * config.poll_ms);
    assert(body + tail =~= seq![h, d] + (seq![d, f] + (seq![d] + tail)));
    lemma_split(m, seq![h, d], seq![d, f] + (seq![d] + tail));
    lemma_two(m, h, d);
    let m2 = m.next(h).next(d);
    lemma_split(m2, seq![d, f], seq![d] + tail);
    lemma_two(m2, d, f);
    let m4 = m2.next(d).next(f);
    lemma_split(m4, seq![d], tail);
    lemma_one(m4, d);
    lemma_finished_stays(m4.next(d), tail);
    assert(trace(m, body + tail) =~= probe_actions() + finished_actions(tail.len()));
}

} // verus!
