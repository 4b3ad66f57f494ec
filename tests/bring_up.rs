use example_driver::{
    block_probe, register_probe, Action, BringUp, Config, Error, ExampleDriver, Outcome, Phase,
    PROBE_ADDRESS, RESET_PULSE_MS, RESET_TIMEOUT_MS,
};

type Machine = BringUp<u8, u16, u32>;
type Driver = ExampleDriver<(), (), (), (), (), ()>;

/// Scripted hardware: what each operation reports.
struct Bench {
    reset_low: Result<(), u32>,
    reset_high: Result<(), u32>,
    busy: Vec<Result<bool, u32>>,
    register_write: Result<(), u8>,
    cs_low: Result<(), u32>,
    block_write: Result<(), u16>,
    cs_high: Result<(), u32>,
}

impl Bench {
    fn healthy(busy_low_reads: usize) -> Bench {
        let mut busy = vec![Ok(true); busy_low_reads];
        busy.push(Ok(false));
        Bench {
            reset_low: Ok(()),
            reset_high: Ok(()),
            busy,
            register_write: Ok(()),
            cs_low: Ok(()),
            block_write: Ok(()),
            cs_high: Ok(()),
        }
    }
}

fn pin(r: Result<(), u32>) -> Outcome<u8, u16, u32> {
    match r {
        Ok(()) => Outcome::Done,
        Err(e) => Outcome::PinFault(e),
    }
}

/// Runs a bring-up against the bench, returning the operations asked for
/// and the result.
fn drive(config: Config, bench: &Bench) -> (Vec<Action>, Result<Driver, Error<u8, u16, u32>>) {
    let mut m: Machine = BringUp::new(config);
    let mut actions = Vec::new();
    let mut reads = 0usize;
    loop {
        let a = m.action();
        let o = match a {
            Action::Finished => break,
            Action::DriveResetLow => pin(bench.reset_low),
            Action::DriveResetHigh => pin(bench.reset_high),
            Action::Pause(_) => Outcome::Done,
            Action::ReadBusy => {
                let r = bench.busy[reads.min(bench.busy.len() - 1)];
                reads += 1;
                match r {
                    Ok(low) => Outcome::BusyLow(low),
                    Err(e) => Outcome::PinFault(e),
                }
            }
            Action::WriteRegisterProbe => match bench.register_write {
                Ok(()) => Outcome::Done,
                Err(e) => Outcome::I2cFault(e),
            },
            Action::SelectChip => pin(bench.cs_low),
            Action::WriteBlockProbe => match bench.block_write {
                Ok(()) => Outcome::Done,
                Err(e) => Outcome::SpiFault(e),
            },
            Action::DeselectChip => pin(bench.cs_high),
        };
        actions.push(a);
        assert!(actions.len() < 10_000, "bring-up did not finish");
        m = m.step(o);
    }
    assert!(m.is_finished());
    (actions, m.finish((), (), (), (), (), ()))
}

fn reset_actions() -> Vec<Action> {
    vec![Action::DriveResetLow, Action::Pause(10), Action::DriveResetHigh]
}

fn probe_actions() -> Vec<Action> {
    vec![
        Action::ReadBusy,
        Action::WriteRegisterProbe,
        Action::SelectChip,
        Action::WriteBlockProbe,
        Action::DeselectChip,
    ]
}

#[test]
fn default_config_polls_every_hundred() {
    let c = Config::default();
    assert_eq!(c.poll_ms, 100);
    assert_eq!(RESET_TIMEOUT_MS, 100);
    assert_eq!(RESET_PULSE_MS, 10);
}

#[test]
fn probe_payloads_are_fixed() {
    assert_eq!(PROBE_ADDRESS, 0x01);
    assert_eq!(register_probe(), [0x01, 0x02]);
    assert_eq!(block_probe(), [0x02, 0x03]);
}

#[test]
fn new_machine_starts_unreset() {
    let m: Machine = BringUp::new(Config { poll_ms: 7 });
    assert_eq!(m.phase, Phase::Unreset);
    assert_eq!(m.config, Config { poll_ms: 7 });
    assert_eq!(m.action(), Action::DriveResetLow);
    assert!(!m.is_finished());
}

#[test]
fn default_config_one_low_read_then_ready() {
    let (actions, r) = drive(Config::default(), &Bench::healthy(1));
    let mut expected = reset_actions();
    expected.extend([Action::ReadBusy, Action::Pause(100)]);
    expected.extend(probe_actions());
    assert_eq!(actions, expected);
    assert_eq!(actions.iter().filter(|a| **a == Action::Pause(10)).count(), 1);
    assert_eq!(actions.iter().filter(|a| **a == Action::Pause(100)).count(), 1);
    assert_eq!(actions.iter().filter(|a| **a == Action::WriteRegisterProbe).count(), 1);
    assert_eq!(actions.iter().filter(|a| **a == Action::WriteBlockProbe).count(), 1);
    let d = r.ok().expect("device should come up");
    assert_eq!(*d.config(), Config { poll_ms: 100 });
}

#[test]
fn ready_at_once_keeps_config() {
    let (actions, r) = drive(Config { poll_ms: 25 }, &Bench::healthy(0));
    let mut expected = reset_actions();
    expected.extend(probe_actions());
    assert_eq!(actions, expected);
    assert_eq!(*r.ok().unwrap().config(), Config { poll_ms: 25 });
}

#[test]
fn ready_on_the_budget_edge() {
    // Two polls of 50 spend exactly the budget, which is not exceeded.
    let (_, r) = drive(Config { poll_ms: 50 }, &Bench::healthy(2));
    assert!(r.is_ok());
}

#[test]
fn timeout_just_past_the_budget() {
    let (actions, r) = drive(Config { poll_ms: 50 }, &Bench::healthy(3));
    assert!(matches!(r, Err(Error::ResetTimeout)));
    let mut expected = reset_actions();
    for _ in 0..3 {
        expected.extend([Action::ReadBusy, Action::Pause(50)]);
    }
    assert_eq!(actions, expected);
}

#[test]
fn never_ready_times_out_without_bus_writes() {
    let mut bench = Bench::healthy(0);
    bench.busy = vec![Ok(true)];
    let (actions, r) = drive(Config::default(), &bench);
    assert!(matches!(r, Err(Error::ResetTimeout)));
    let mut expected = reset_actions();
    expected.extend([Action::ReadBusy, Action::Pause(100), Action::ReadBusy, Action::Pause(100)]);
    assert_eq!(actions, expected);
    assert!(!actions.contains(&Action::WriteRegisterProbe));
    assert!(!actions.contains(&Action::WriteBlockProbe));
}

#[test]
fn huge_poll_interval_times_out_after_one_pause() {
    let mut bench = Bench::healthy(0);
    bench.busy = vec![Ok(true)];
    let (actions, r) = drive(Config { poll_ms: u32::MAX }, &bench);
    assert!(matches!(r, Err(Error::ResetTimeout)));
    assert_eq!(actions.len(), 5);
    assert_eq!(actions[4], Action::Pause(u32::MAX));
}

#[test]
fn zero_poll_interval_never_times_out() {
    let (actions, r) = drive(Config { poll_ms: 0 }, &Bench::healthy(500));
    assert!(r.is_ok());
    assert_eq!(actions.iter().filter(|a| **a == Action::ReadBusy).count(), 501);
}

#[test]
fn reset_low_fault_stops_everything() {
    let mut bench = Bench::healthy(0);
    bench.reset_low = Err(7);
    let (actions, r) = drive(Config::default(), &bench);
    assert_eq!(r.err(), Some(Error::Pin(7)));
    assert_eq!(actions, vec![Action::DriveResetLow]);
}

#[test]
fn reset_high_fault_is_a_pin_error() {
    let mut bench = Bench::healthy(0);
    bench.reset_high = Err(8);
    let (actions, r) = drive(Config::default(), &bench);
    assert_eq!(r.err(), Some(Error::Pin(8)));
    assert_eq!(actions, reset_actions());
}

#[test]
fn busy_read_fault_is_a_pin_error() {
    let mut bench = Bench::healthy(0);
    bench.busy = vec![Ok(true), Err(9)];
    let (actions, r) = drive(Config { poll_ms: 30 }, &bench);
    assert_eq!(r.err(), Some(Error::Pin(9)));
    let mut expected = reset_actions();
    expected.extend([Action::ReadBusy, Action::Pause(30), Action::ReadBusy]);
    assert_eq!(actions, expected);
}

#[test]
fn register_write_fault_comes_after_reset_and_ready() {
    let mut bench = Bench::healthy(1);
    bench.register_write = Err(3);
    let (actions, r) = drive(Config::default(), &bench);
    assert_eq!(r.err(), Some(Error::I2c(3)));
    let mut expected = reset_actions();
    expected.extend([
        Action::ReadBusy,
        Action::Pause(100),
        Action::ReadBusy,
        Action::WriteRegisterProbe,
    ]);
    assert_eq!(actions, expected);
}

#[test]
fn chip_select_fault_is_a_pin_error() {
    let mut bench = Bench::healthy(0);
    bench.cs_low = Err(11);
    let (actions, r) = drive(Config::default(), &bench);
    assert_eq!(r.err(), Some(Error::Pin(11)));
    assert_eq!(actions.last(), Some(&Action::SelectChip));
    assert!(!actions.contains(&Action::WriteBlockProbe));
}

#[test]
fn block_write_fault_still_releases_chip_select() {
    let mut bench = Bench::healthy(0);
    bench.block_write = Err(500);
    let (actions, r) = drive(Config::default(), &bench);
    assert_eq!(r.err(), Some(Error::Spi(500)));
    let mut expected = reset_actions();
    expected.extend(probe_actions());
    assert_eq!(actions, expected);
}

#[test]
fn block_write_fault_wins_over_release_fault() {
    let mut bench = Bench::healthy(0);
    bench.block_write = Err(501);
    bench.cs_high = Err(12);
    let (_, r) = drive(Config::default(), &bench);
    assert_eq!(r.err(), Some(Error::Spi(501)));
}

#[test]
fn release_fault_after_good_write_is_a_pin_error() {
    let mut bench = Bench::healthy(0);
    bench.cs_high = Err(13);
    let (_, r) = drive(Config::default(), &bench);
    assert_eq!(r.err(), Some(Error::Pin(13)));
}

#[test]
fn outcome_that_does_not_fit_is_ignored() {
    let m: Machine = BringUp::new(Config::default());
    let m = m.step(Outcome::BusyLow(true));
    assert_eq!(m.phase, Phase::Unreset);
    let m = m.step(Outcome::Done);
    assert_eq!(m.phase, Phase::ResetPulse);
    let m = m.step(Outcome::PinFault(1));
    assert_eq!(m.phase, Phase::ResetPulse);
    assert_eq!(m.action(), Action::Pause(10));
}

#[test]
fn finished_machine_stays_put() {
    let m: Machine = BringUp {
        config: Config::default(),
        phase: Phase::Failed(Error::ResetTimeout),
    };
    let m = m.step(Outcome::Done);
    assert_eq!(m.phase, Phase::Failed(Error::ResetTimeout));
    assert_eq!(m.action(), Action::Finished);
    assert!(m.is_finished());
}
