use ebyte_e32_ui::Action;
use ebyte_e32_ui::Event;
use ebyte_e32_ui::Outcome;
use ebyte_e32_ui::Parameters;
use ebyte_e32_ui::Stage;
use ebyte_e32_ui::State;
use ebyte_e32_ui::initial;
use ebyte_e32_ui::next_action;
use ebyte_e32_ui::step;

/// A module stand-in: what it currently holds, whether a write call
/// succeeds, and whether a successful write is faithfully applied.
struct FakeModule {
    current: Parameters,
    write_succeeds: bool,
    applies_writes: bool,
    read_fails: bool,
}

/// Drive one full reconciliation pass against the stand-in, counting the
/// operations actually performed.
fn drive(desired: Parameters, module: &mut FakeModule) -> (State, u32, u32) {
    let mut state = initial();
    let mut writes: u32 = 0;
    let mut reads: u32 = 0;
    loop {
        match next_action(&state) {
            Action::ReadParameters => {
                reads += 1;
                let event = if module.read_fails {
                    Event::ReadFailed
                } else {
                    Event::ParametersRead(module.current)
                };
                state = step(&desired, state, event);
            }
            Action::ApplyParameters => {
                writes += 1;
                let event = if module.write_succeeds {
                    if module.applies_writes {
                        module.current = desired;
                    }
                    Event::WriteOk
                } else {
                    Event::WriteFailed
                };
                state = step(&desired, state, event);
            }
            Action::Stop => return (state, writes, reads),
        }
    }
}

fn params(address: u16, channel: u8) -> Parameters {
    let mut p = Parameters::default();
    p.address = address;
    p.channel = channel;
    p
}

fn healthy_module(current: Parameters) -> FakeModule {
    FakeModule { current, write_succeeds: true, applies_writes: true, read_fails: false }
}

#[test]
fn scenario_identical_reports_unchanged_with_zero_writes() {
    let observed = params(0x0000, 6);
    let desired = params(0x0000, 6);
    let mut module = healthy_module(observed);
    let (state, writes, reads) = drive(desired, &mut module);
    assert_eq!(state, State::Done(Outcome::Unchanged));
    assert_eq!(writes, 0);
    assert_eq!(reads, 1);
}

#[test]
fn scenario_differing_reports_applied_after_one_write() {
    let observed = params(0x0000, 6);
    let desired = params(0x0001, 6);
    let mut module = healthy_module(observed);
    let (state, writes, reads) = drive(desired, &mut module);
    assert_eq!(state, State::Done(Outcome::Applied));
    assert_eq!(writes, 1);
    assert_eq!(reads, 2);
    assert_eq!(module.current, desired);
}

#[test]
fn scenario_stale_readback_reports_unconfirmed_not_fatal() {
    let observed = params(0x0000, 6);
    let desired = params(0x0001, 6);
    let mut module = healthy_module(observed);
    module.applies_writes = false;
    let (state, writes, _) = drive(desired, &mut module);
    assert_eq!(state, State::Done(Outcome::AppliedUnconfirmed));
    assert_eq!(writes, 1);
    assert!(!matches!(state, State::Failed(_)));
}

#[test]
fn second_pass_after_faithful_write_is_a_no_op() {
    let observed = params(0x0000, 6);
    let desired = params(0x0001, 6);
    let mut module = healthy_module(observed);
    let (first, first_writes, _) = drive(desired, &mut module);
    assert_eq!(first, State::Done(Outcome::Applied));
    assert_eq!(first_writes, 1);
    let (second, second_writes, _) = drive(desired, &mut module);
    assert_eq!(second, State::Done(Outcome::Unchanged));
    assert_eq!(second_writes, 0);
}

#[test]
fn failed_observed_read_is_fatal() {
    let desired = params(0x0001, 6);
    let mut module = healthy_module(params(0x0000, 6));
    module.read_fails = true;
    let (state, writes, _) = drive(desired, &mut module);
    assert_eq!(state, State::Failed(Stage::ReadObserved));
    assert_eq!(writes, 0);
}

#[test]
fn failed_write_is_fatal() {
    let desired = params(0x0001, 6);
    let mut module = healthy_module(params(0x0000, 6));
    module.write_succeeds = false;
    let (state, writes, _) = drive(desired, &mut module);
    assert_eq!(state, State::Failed(Stage::Apply));
    assert_eq!(writes, 1);
}

#[test]
fn failed_readback_is_fatal_at_the_readback_stage() {
    let desired = params(0x0001, 6);
    let observed = params(0x0000, 6);
    let mut state = initial();
    state = step(&desired, state, Event::ParametersRead(observed));
    assert_eq!(state, State::Applying);
    state = step(&desired, state, Event::WriteOk);
    assert_eq!(state, State::Verifying);
    assert_eq!(next_action(&state), Action::ReadParameters);
    state = step(&desired, state, Event::ReadFailed);
    assert_eq!(state, State::Failed(Stage::ReadBack));
}

#[test]
fn full_structural_comparison_catches_any_field() {
    let observed = params(0x0000, 6);
    let mut desired = params(0x0000, 6);
    desired.fec = ebyte_e32_ui::ForwardErrorCorrectionMode::Off;
    let mut module = healthy_module(observed);
    let (state, writes, _) = drive(desired, &mut module);
    assert_eq!(state, State::Done(Outcome::Applied));
    assert_eq!(writes, 1);
}
