use umrsm_rs::outcome::{ContinueOutcome, IntoOutcome, Outcome, OutcomeData, COMPLETE_ID};
use umrsm_rs::payload::{Payload, Shape};
use umrsm_rs::sm::{
    entry_check, u64_to_string, State, StateEntryError, StateMachine, StateMachineRunner,
    StepOutcome,
};

const SPIN_ID: u64 = 1;

// A state that only ever transitions to itself, counting its steps in the
// context: what a run looks like when the mission logic never moves on.
struct Spinner;

impl State for Spinner {
    type Data = u64;
    type Transition = OutcomeData;

    fn fresh(_id: u64) -> Spinner {
        Spinner
    }

    fn income(_id: u64) -> Shape {
        Shape::Unit
    }

    fn init(&mut self, _previous: Payload, _data: &u64) {}

    fn handle(&mut self, data: &mut u64) -> OutcomeData {
        *data += 1;
        ContinueOutcome::new(SPIN_ID).into_outcome()
    }

    fn name(&self) -> String {
        "Spinner".to_string()
    }
}

const SLOPPY_ID: u64 = 2;

// A state whose self-transition carries a payload of the wrong shape for
// its own income: harmless, because a self-transition's payload is never
// looked at.
struct Sloppy;

impl State for Sloppy {
    type Data = u64;
    type Transition = OutcomeData;

    fn fresh(_id: u64) -> Sloppy {
        Sloppy
    }

    fn income(_id: u64) -> Shape {
        Shape::Unit
    }

    fn init(&mut self, previous: Payload, _data: &u64) {
        if previous != Payload::Unit {
            panic!("the entry hook must only ever see the declared shape");
        }
    }

    fn handle(&mut self, data: &mut u64) -> OutcomeData {
        *data += 1;
        OutcomeData::new(SLOPPY_ID, Payload::Text("ill-shaped".to_string()))
    }

    fn name(&self) -> String {
        "Sloppy".to_string()
    }
}

#[test]
fn self_transition_ignores_ill_shaped_payload() {
    let mut machine = StateMachine::default();
    machine.add_state(SLOPPY_ID);
    let runner: StateMachineRunner<Sloppy> =
        machine.runner(0u64, SLOPPY_ID, Payload::Unit).unwrap();
    match runner.step() {
        StepOutcome::Continue { machine } => assert_eq!(machine.data, 1),
        _ => panic!("a self-transition must continue whatever its payload"),
    }
}

#[test]
fn payload_shapes() {
    assert_eq!(Payload::Unit.shape(), Shape::Unit);
    assert_eq!(Payload::Int(-3).shape(), Shape::Int);
    assert_eq!(Payload::Text("mission".to_string()).shape(), Shape::Text);
    assert_eq!(Shape::Unit.name(), "Unit");
    assert_eq!(Shape::Int.name(), "Int");
    assert_eq!(Shape::Text.name(), "Text");
}

#[test]
fn entry_check_decides_by_shape_alone() {
    match entry_check(Shape::Int, Payload::Int(150)) {
        Ok(p) => assert_eq!(p, Payload::Int(150)),
        Err(_) => panic!("a payload of the declared shape must enter"),
    }
    match entry_check(Shape::Int, Payload::Text("150".to_string())) {
        Ok(_) => panic!("a payload of another shape must not enter"),
        Err(e) => {
            assert_eq!(e.expected, Shape::Int);
            assert_eq!(e.received, Payload::Text("150".to_string()));
        }
    }
}

#[test]
fn entry_error_keeps_payload() {
    let e = StateEntryError::from_any(Shape::Text, Payload::Int(7));
    assert_eq!(e.expected, Shape::Text);
    assert_eq!(e.received, Payload::Int(7));
}

#[test]
fn outcome_carriers() {
    let o = OutcomeData::new(4, Payload::Int(9));
    assert_eq!(o.state_type(), 4);
    assert_eq!(Outcome::name(&o), "(Transition)");
    assert_eq!(o.data(), Payload::Int(9));

    let o = OutcomeData::with_name(5, Payload::Unit, "Working".to_string());
    assert_eq!(o.state_type(), 5);
    assert_eq!(Outcome::name(&o), "Working");
    assert_eq!(o.data(), Payload::Unit);

    let c = ContinueOutcome::new(5);
    assert_eq!(c.state_type(), 5);
    assert_eq!(Outcome::name(&c), "(Continue)");
    assert_eq!(c.data(), Payload::Unit);

    assert_eq!(().state_type(), COMPLETE_ID);
    assert_eq!(Outcome::name(&()), "(Complete)");
    assert_eq!(().data(), Payload::Unit);

    let through = ContinueOutcome::new(8).into_outcome();
    assert_eq!(through.state_type(), 8);
    assert_eq!(Outcome::name(&through), "(Continue)");
}

#[test]
fn identities_render_in_decimal() {
    assert_eq!(u64_to_string(0), "0");
    assert_eq!(u64_to_string(7), "7");
    assert_eq!(u64_to_string(10), "10");
    assert_eq!(u64_to_string(42), "42");
    assert_eq!(u64_to_string(1234567890), "1234567890");
    assert_eq!(u64_to_string(u64::MAX), "18446744073709551615");
}

#[test]
fn registry_operations() {
    let mut machine = StateMachine::default();
    assert!(!machine.contains_id(SPIN_ID));

    machine.add_state(SPIN_ID);
    assert!(machine.contains_id(SPIN_ID));
    machine.add_state(SPIN_ID);
    assert!(machine.contains_id(SPIN_ID));

    // The completion sentinel can never be registered.
    machine.add_state(COMPLETE_ID);
    assert!(!machine.contains_id(COMPLETE_ID));

    assert!(machine.remove_state(SPIN_ID));
    assert!(!machine.contains_id(SPIN_ID));
    assert!(!machine.remove_state(SPIN_ID));
}

#[test]
fn runner_requires_registered_start() {
    let mut machine = StateMachine::default();
    machine.add_state(SPIN_ID);
    let missing: Option<StateMachineRunner<Spinner>> = machine.runner(0u64, 77, Payload::Unit);
    assert!(missing.is_none());
    let present: Option<StateMachineRunner<Spinner>> =
        machine.runner(0u64, SPIN_ID, Payload::Unit);
    assert!(present.is_some());
}

#[test]
fn budget_exhaustion_hands_the_runner_back() {
    let mut machine = StateMachine::default();
    machine.add_state(SPIN_ID);
    let runner: StateMachineRunner<Spinner> =
        machine.runner(0u64, SPIN_ID, Payload::Unit).unwrap();
    let runner = match runner.run_to_completion(5) {
        Err(runner) => runner,
        Ok(_) => panic!("a spinner never completes"),
    };
    assert_eq!(runner.data, 5);

    // The returned runner is still live.
    match runner.step() {
        StepOutcome::Continue { machine } => assert_eq!(machine.data, 6),
        _ => panic!("unexpected runner outcome"),
    }
}

#[test]
fn verbose_run_reports_like_the_quiet_one() {
    let mut machine = StateMachine::default();
    machine.add_state(SPIN_ID);
    let runner: StateMachineRunner<Spinner> =
        machine.runner(0u64, SPIN_ID, Payload::Unit).unwrap();
    match runner.run_to_completion_verbose(3) {
        Err(runner) => assert_eq!(runner.data, 3),
        Ok(_) => panic!("a spinner never completes"),
    }
}

#[test]
fn outcomes_describe_themselves() {
    let o: StepOutcome<'static, Spinner> = StepOutcome::StateNotFound {
        start: "Start".to_string(),
        transition: "Working".to_string(),
        end: 42,
    };
    assert!(o.is_notable());
    assert_eq!(
        o.describe(),
        "Start --[Working]--> 42? ABORT! Type 42 does not exist in the state machine"
    );

    let o: StepOutcome<'static, Spinner> = StepOutcome::Complete {
        data: 0,
        start: "End".to_string(),
        transition: "(Complete)".to_string(),
    };
    assert!(o.is_notable());
    assert_eq!(o.describe(), "End --[(Complete)]--> END");

    let o: StepOutcome<'static, Spinner> = StepOutcome::IncorrectTransition {
        start: "Start".to_string(),
        transition: "WrongData".to_string(),
        end: "End".to_string(),
        expected_type: Shape::Int,
        received_data: Payload::Unit,
    };
    assert!(o.is_notable());
    assert_eq!(
        o.describe(),
        "Start --[WrongData!]--> End: End expected incoming data of shape Int \
         but received data of shape Unit from transition WrongData"
    );
}

#[test]
fn continue_outcome_is_quiet() {
    let mut machine = StateMachine::default();
    machine.add_state(SPIN_ID);
    let runner: StateMachineRunner<Spinner> =
        machine.runner(0u64, SPIN_ID, Payload::Unit).unwrap();
    let out = runner.step();
    assert!(!out.is_notable());
    assert_eq!(out.describe(), "");
    match out.into_result() {
        Ok(machine) => assert_eq!(machine.data, 1),
        Err(_) => panic!("a self-transition must keep the run alive"),
    }
}
