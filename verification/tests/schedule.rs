use quantum_soft::schedule::{FrameSchedule, StepAction, FRAME_INTERVAL};

fn drive(iterations: usize) -> (usize, Vec<usize>) {
    let mut schedule = FrameSchedule::new(iterations);
    let mut steps = 0;
    let mut frames = Vec::new();
    loop {
        match schedule.next_action() {
            StepAction::Step => steps += 1,
            StepAction::StepAndRender => {
                frames.push(steps);
                steps += 1;
            }
            StepAction::Finished => break,
        }
    }
    (steps, frames)
}

#[test]
fn schedule_renders_every_tenth_step() {
    let (steps, frames) = drive(25);
    assert_eq!(steps, 25);
    assert_eq!(frames, vec![0, 10, 20]);
}

#[test]
fn schedule_default_run() {
    let (steps, frames) = drive(2000);
    assert_eq!(steps, 2000);
    assert_eq!(frames.len(), 200);
    assert_eq!(frames[199], 1990);
}

#[test]
fn schedule_frame_count_is_ceiling() {
    for n in 0..60usize {
        let (steps, frames) = drive(n);
        assert_eq!(steps, n);
        assert_eq!(frames.len(), (n + FRAME_INTERVAL - 1) / FRAME_INTERVAL);
    }
}

#[test]
fn schedule_empty_run() {
    let mut schedule = FrameSchedule::new(0);
    assert_eq!(schedule.next_action(), StepAction::Finished);
    assert_eq!(schedule.completed(), 0);
    assert_eq!(schedule.total(), 0);
}

#[test]
fn schedule_stays_finished() {
    let mut schedule = FrameSchedule::new(2);
    assert_eq!(schedule.next_action(), StepAction::StepAndRender);
    assert_eq!(schedule.completed(), 1);
    assert_eq!(schedule.next_action(), StepAction::Step);
    assert_eq!(schedule.completed(), 2);
    assert_eq!(schedule.next_action(), StepAction::Finished);
    assert_eq!(schedule.next_action(), StepAction::Finished);
    assert_eq!(schedule.completed(), 2);
    assert_eq!(schedule.total(), 2);
}
