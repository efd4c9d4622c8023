use aurora_rs::orchestrator::timeout_window;
use aurora_rs::orchestrator::Orchestrator;
use aurora_rs::orchestrator::PollState;
use aurora_rs::orchestrator::RateLimiter;
use aurora_rs::orchestrator::TickOutcome;
use aurora_rs::CumulativeDuration;
use aurora_rs::GlobalState;
use aurora_rs::MeasurementType;
use aurora_rs::ProtocolError;
use aurora_rs::Request;
use aurora_rs::Response;
use aurora_rs::TransmissionState;

fn energy_response(value: u32) -> Response {
    Response::CumulativeEnergy {
        trans: TransmissionState::Okay,
        global: GlobalState::Run,
        value,
        duration: CumulativeDuration::Daily,
    }
}

fn voltage_response(val_bits: u32) -> Response {
    Response::Measure {
        trans: TransmissionState::Okay,
        global: GlobalState::Run,
        val_bits,
        type_: MeasurementType::Input1Voltage,
    }
}

/// Drive one full tick at time `now`; panics unless it runs to an
/// emitted pair.
fn run_tick(orch: &mut Orchestrator, now: u64, energy: u32, volt_bits: u32) -> (u32, u32) {
    let req = orch.start_tick(now).expect("tick not admitted");
    assert_eq!(req, Request::CumulativeEnergy(CumulativeDuration::Daily));
    let next = orch.handle_response(now, energy_response(energy));
    assert_eq!(
        next,
        TickOutcome::SendNext(Request::Measure {
            type_: MeasurementType::Input1Voltage,
            global: true,
        })
    );
    match orch.handle_response(now, voltage_response(volt_bits)) {
        TickOutcome::Emit { energy, voltage_bits } => (energy, voltage_bits),
        other => panic!("tick did not emit: {:?}", other),
    }
}

#[test]
fn tick_issues_energy_then_voltage() {
    let mut orch = Orchestrator::new(10, 0, 100);
    let (energy, voltage_bits) = run_tick(&mut orch, 0, 4321, 0x41200000);
    assert_eq!(energy, 4321);
    assert_eq!(f32::from_bits(voltage_bits), 10.0);
    assert_eq!(orch.state, PollState::Idle);
}

#[test]
fn rate_limiting_skips_then_spacing() {
    // Skip count 2, interval 10: the first two ticks run back to back at
    // time 0; the third is admitted only once a full interval has passed.
    let mut orch = Orchestrator::new(10, 2, 100);
    run_tick(&mut orch, 0, 1, 1);
    run_tick(&mut orch, 0, 2, 2);

    assert_eq!(orch.start_tick(0), None);
    assert_eq!(orch.start_tick(9), None);
    run_tick(&mut orch, 10, 3, 3);

    // And every following tick keeps the spacing.
    assert_eq!(orch.start_tick(19), None);
    run_tick(&mut orch, 20, 4, 4);
}

#[test]
fn rate_limiter_steps() {
    let mut limiter = RateLimiter::new(7, 2);
    assert!(limiter.try_tick(0));
    assert!(limiter.try_tick(0));
    assert!(!limiter.try_tick(6));
    assert!(limiter.try_tick(7));
    assert!(!limiter.try_tick(13));
    assert!(limiter.try_tick(14));
}

#[test]
fn timeout_fires_no_later_than_window() {
    // Interval 10, multiplier 3: an unanswered request is fatal at
    // `sent_at + 30`.
    let window = timeout_window(10, 3).unwrap();
    assert_eq!(window, 30);
    let mut orch = Orchestrator::new(10, 1, window);

    assert!(orch.start_tick(5).is_some());
    assert!(!orch.timed_out(5));
    assert!(!orch.timed_out(34));
    assert!(orch.timed_out(35));
    assert_eq!(orch.state, PollState::Failed);

    // A failed orchestrator admits no further tick.
    assert_eq!(orch.start_tick(100), None);
}

#[test]
fn timeout_rearms_for_second_request_of_tick() {
    let mut orch = Orchestrator::new(10, 1, 30);
    assert!(orch.start_tick(0).is_some());
    let out = orch.handle_response(25, energy_response(1));
    assert!(matches!(out, TickOutcome::SendNext(_)));
    // The deadline was re-armed when the voltage request went out at 25.
    assert!(!orch.timed_out(54));
    assert!(orch.timed_out(55));
}

#[test]
fn no_timeout_while_idle() {
    let mut orch = Orchestrator::new(10, 1, 30);
    assert!(!orch.timed_out(1_000_000));
    assert_eq!(orch.state, PollState::Idle);
}

#[test]
fn unusable_response_abandons_tick() {
    let mut orch = Orchestrator::new(10, 1, 100);
    assert!(orch.start_tick(0).is_some());
    // A voltage-shaped reply while energy is owed abandons the tick.
    let out = orch.handle_response(1, voltage_response(0x40000000));
    assert_eq!(out, TickOutcome::TickAbandoned);
    assert_eq!(orch.state, PollState::Idle);
    assert!(!orch.timed_out(1_000_000));
}

#[test]
fn response_while_idle_is_fatal() {
    let mut orch = Orchestrator::new(10, 1, 100);
    let out = orch.handle_response(0, energy_response(1));
    assert_eq!(out, TickOutcome::Fatal(ProtocolError::UnexpectedResponse));
    assert_eq!(orch.state, PollState::Failed);
}

#[test]
fn timeout_window_overflow_is_reported() {
    assert_eq!(timeout_window(0, 0), Some(0));
    assert_eq!(timeout_window(60, 5), Some(300));
    assert_eq!(timeout_window(u64::MAX, 1), Some(u64::MAX));
    assert_eq!(timeout_window(u64::MAX, 2), None);
}
