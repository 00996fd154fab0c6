use umrsm_rs::outcome::{IntoOutcome, Outcome, OutcomeData, COMPLETE_ID};
use umrsm_rs::payload::{Payload, Shape};
use umrsm_rs::sm::{State, StateMachine, StateMachineRunner, StepOutcome};

const START_ID: u64 = 1;
const END_ID: u64 = 2;
const MISSING_ID: u64 = 3;

#[derive(Debug, PartialEq, Eq)]
enum Data {
    Normal,
    IncorrectTransition,
    Counting(u32),
}

#[derive(Debug)]
enum StartTransition {
    Continue,
    Working,
    WrongData,
}

impl Outcome for StartTransition {
    fn state_type(&self) -> u64 {
        match self {
            StartTransition::Working | StartTransition::WrongData => END_ID,
            StartTransition::Continue => START_ID,
        }
    }

    fn data(self) -> Payload {
        match self {
            StartTransition::Working => Payload::Int(150),
            StartTransition::WrongData => Payload::Unit,
            StartTransition::Continue => Payload::Int(0),
        }
    }

    fn name(&self) -> String {
        format!("{self:?}")
    }
}

struct EndTransition(bool);

impl IntoOutcome for EndTransition {
    fn into_outcome(self) -> OutcomeData {
        if self.0 {
            ().into_outcome()
        } else {
            OutcomeData::with_name(END_ID, Payload::Int(0), "EndTransitionContinue".to_string())
        }
    }
}

enum TestState {
    Start { armed: bool },
    End { count: i64 },
    MissingState,
}

impl State for TestState {
    type Data = Data;
    type Transition = OutcomeData;

    fn fresh(id: u64) -> TestState {
        match id {
            START_ID => TestState::Start { armed: true },
            END_ID => TestState::End { count: 0 },
            _ => TestState::MissingState,
        }
    }

    fn income(id: u64) -> Shape {
        match id {
            START_ID => Shape::Int,
            END_ID => Shape::Int,
            _ => Shape::Unit,
        }
    }

    fn init(&mut self, previous: Payload, _data: &Data) {
        match self {
            TestState::Start { armed } => {
                assert!(*armed);
                if let Payload::Int(i) = previous {
                    if i < 10 {
                        *armed = false;
                    }
                }
            }
            TestState::End { count } => {
                assert_eq!(*count, 0);
                match previous {
                    Payload::Int(i) => {
                        assert_eq!(i, 150);
                        *count = i;
                    }
                    p @ _ => panic!("End entered with payload {p:?}"),
                }
            }
            TestState::MissingState => {}
        }
    }

    fn handle(&mut self, data: &mut Data) -> OutcomeData {
        match self {
            TestState::Start { armed } => {
                if *armed {
                    *armed = false;
                    StartTransition::Continue.into_outcome()
                } else {
                    let transition = match data {
                        Data::Normal => StartTransition::Working,
                        Data::IncorrectTransition => StartTransition::WrongData,
                        Data::Counting(_) => panic!("Data should not be initially set to unused"),
                    };
                    *data = Data::Counting(10);
                    transition.into_outcome()
                }
            }
            TestState::End { count } => {
                *count -= 1;
                match data {
                    Data::Counting(i) => *i += 1,
                    _ => panic!("Data should be set here"),
                };
                if *count == 0 {
                    EndTransition(true).into_outcome()
                } else {
                    EndTransition(false).into_outcome()
                }
            }
            TestState::MissingState => ().into_outcome(),
        }
    }

    fn name(&self) -> String {
        match self {
            TestState::Start { .. } => "Start".to_string(),
            TestState::End { .. } => "End".to_string(),
            TestState::MissingState => "MissingState".to_string(),
        }
    }
}

#[test]
fn missing_start() {
    let mut machine = StateMachine::default();
    machine.add_state(START_ID);
    machine.add_state(END_ID);

    let runner: Option<StateMachineRunner<TestState>> =
        machine.runner(Data::Normal, MISSING_ID, Payload::Unit);
    assert!(runner.is_none());
}

#[test]
fn missing_state() {
    let mut machine = StateMachine::default();
    machine.add_state(START_ID);

    let runner: StateMachineRunner<TestState> =
        machine.runner(Data::Normal, START_ID, Payload::Int(0)).unwrap();
    match runner.step() {
        StepOutcome::StateNotFound {
            start,
            transition,
            end,
        } => {
            assert_eq!(start, "Start");
            assert_eq!(transition, "Working");
            assert_eq!(end, END_ID);
        }
        _ => panic!("Unexpeced runner outcome"),
    }
}

#[test]
fn wrong_transition_data() {
    let mut machine = StateMachine::default();
    machine.add_state(START_ID);
    machine.add_state(END_ID);

    let runner: StateMachineRunner<TestState> = machine
        .runner(Data::IncorrectTransition, START_ID, Payload::Int(0))
        .unwrap();
    match runner.step() {
        StepOutcome::IncorrectTransition {
            start,
            transition,
            end,
            expected_type,
            received_data,
        } => {
            assert_eq!(start, "Start");
            assert_eq!(transition, "WrongData");
            assert_eq!(end, "End");
            assert_eq!(expected_type, Shape::Int);
            assert_eq!(received_data, Payload::Unit);
        }
        _ => panic!("Unexpeced runner outcome"),
    }
}

#[test]
fn wrong_transition_data_2() {
    let mut machine = StateMachine::default();
    machine.add_state(START_ID);
    machine.add_state(END_ID);

    let mut runner: StateMachineRunner<TestState> = machine
        .runner(Data::IncorrectTransition, START_ID, Payload::Int(100))
        .unwrap();
    match runner.step() {
        StepOutcome::Continue { machine } => {
            runner = machine;
        }
        _ => panic!("Unexpeced runner outcome"),
    }

    match runner.step() {
        StepOutcome::IncorrectTransition {
            start,
            transition,
            end,
            expected_type,
            received_data,
        } => {
            assert_eq!(start, "Start");
            assert_eq!(transition, "WrongData");
            assert_eq!(end, "End");
            assert_eq!(expected_type, Shape::Int);
            assert_eq!(received_data, Payload::Unit);
        }
        _ => panic!("Unexpeced runner outcome"),
    }
}

#[test]
fn working() {
    let mut machine = StateMachine::default();
    machine.add_state(START_ID);
    machine.add_state(END_ID);

    let mut runner: StateMachineRunner<TestState> =
        machine.runner(Data::Normal, START_ID, Payload::Int(0)).unwrap();
    match runner.step() {
        StepOutcome::Transition {
            machine,
            start,
            transition,
            end,
        } => {
            runner = machine;
            assert_eq!(start, "Start");
            assert_eq!(transition, "Working");
            assert_eq!(end, "End");
        }
        _ => panic!("Unexpeced runner outcome"),
    }

    for _ in 0..149 {
        match runner.step() {
            StepOutcome::Continue { machine } => {
                runner = machine;
            }
            _ => panic!("Unexpeced runner outcome"),
        }
    }

    match runner.step() {
        StepOutcome::Complete {
            data,
            start,
            transition,
        } => {
            assert_eq!(data, Data::Counting(160));
            assert_eq!(start, "End");
            assert_eq!(transition, "(Complete)");
        }
        _ => panic!("Unexpeced runner outcome"),
    }
}

#[test]
fn working_2() {
    let mut machine = StateMachine::default();
    machine.add_state(START_ID);
    machine.add_state(END_ID);

    let mut runner: StateMachineRunner<TestState> =
        machine.runner(Data::Normal, START_ID, Payload::Int(1000)).unwrap();
    match runner.step() {
        StepOutcome::Continue { machine } => {
            runner = machine;
        }
        _ => panic!("Unexpeced runner outcome"),
    }

    match runner.step() {
        StepOutcome::Transition {
            machine,
            start,
            transition,
            end,
        } => {
            runner = machine;
            assert_eq!(start, "Start");
            assert_eq!(transition, "Working");
            assert_eq!(end, "End");
        }
        _ => panic!("Unexpeced runner outcome"),
    }

    for _ in 0..149 {
        match runner.step() {
            StepOutcome::Continue { machine } => {
                runner = machine;
            }
            _ => panic!("Unexpeced runner outcome"),
        }
    }

    match runner.step() {
        StepOutcome::Complete {
            data,
            start,
            transition,
        } => {
            assert_eq!(data, Data::Counting(160));
            assert_eq!(start, "End");
            assert_eq!(transition, "(Complete)");
        }
        _ => panic!("Unexpeced runner outcome"),
    }
}

#[test]
fn working_3() {
    let mut machine = StateMachine::default();
    machine.add_state(START_ID);
    machine.add_state(END_ID);

    let runner: StateMachineRunner<TestState> =
        machine.runner(Data::Normal, START_ID, Payload::Int(1000)).unwrap();

    let data = match runner.run_to_completion(100000) {
        Ok(Some(data)) => data,
        _ => panic!("State machine should work successfully"),
    };
    assert_eq!(data, Data::Counting(160));
}
