use nigui::copy::copy_of;
use nigui::pipeline::Pipeline;
use nigui::wave::record::Trigger;
use nigui::wifi::NapseError;

#[test]
fn pipeline_starts_healthy_idle_and_silent() {
    let p: Pipeline<f32> = Pipeline::new(3, 4, 0.0);
    assert_eq!(p.channels(), 3);
    assert_eq!(p.health_flags(), vec![true, true, true]);
    assert!(!p.is_recording());
    assert_eq!(p.window(1), Some(vec![0.0; 4]));
}

#[test]
fn received_frame_updates_status_and_queues_samples() {
    let mut p: Pipeline<i32> = Pipeline::new(3, 2, 0);
    assert!(p.receive(0x0000_2000, &vec![10, 20, 30], 4).is_ok());
    assert_eq!(p.health_flags(), vec![true, false, true]);
    assert_eq!(p.backlog(0), 1);
    let tick = p.begin_tick();
    assert_eq!(tick.inputs, vec![10, 20, 30]);
    assert_eq!(tick.mark, 4);
    assert!(p.end_tick(&vec![11, 21, 31], tick.mark).is_ok());
    assert_eq!(p.window(2), Some(vec![0, 31]));
    assert_eq!(p.windows(), vec![vec![0, 11], vec![0, 21], vec![0, 31]]);
}

#[test]
fn refused_frame_changes_nothing() {
    let mut p: Pipeline<i32> = Pipeline::new(3, 2, 0);
    assert!(matches!(
        p.receive(0x0003_f000, &vec![1, 2], 9),
        Err(NapseError::FailedToReadAllChannels)
    ));
    assert_eq!(p.health_flags(), vec![true, true, true]);
    assert_eq!(p.backlog(0), 0);
    let tick = p.begin_tick();
    assert_eq!(tick.mark, 0);
    assert!(matches!(p.end_tick(&vec![1], 0), Err(NapseError::FailedToReadAllChannels)));
    assert_eq!(p.window(0), Some(vec![0, 0]));
}

#[test]
fn ticks_feed_the_recorder_only_while_recording() {
    let mut p: Pipeline<i32> = Pipeline::new(2, 2, 0);
    let t = p.begin_tick();
    p.end_tick(&t.inputs, t.mark).unwrap();
    assert_eq!(p.recorded(), 0);

    assert!(p.start_recording());
    p.receive(0x0000_1000, &vec![5, 6], 2).unwrap();
    p.receive(0, &vec![7, 8], 0).unwrap();
    for _ in 0..4 {
        let t = p.begin_tick();
        let outputs: Vec<i32> = t.inputs.iter().map(|x| x * 2).collect();
        p.end_tick(&outputs, t.mark).unwrap();
    }
    assert_eq!(p.recorded(), 4);
    let rows = p.stop_recording(true).unwrap();
    assert_eq!(rows.len(), 4);
    assert_eq!(rows[0].values, vec![10, 12]);
    assert_eq!(rows[0].status, vec![true, true]);
    assert_eq!(rows[0].mark, 2);
    assert_eq!(rows[1].values, vec![14, 16]);
    assert_eq!(rows[1].mark, 0);
    // nothing pending: the value emitted last is taken again
    assert_eq!(rows[2].values, vec![28, 32]);
    assert_eq!(rows[3].values, vec![56, 64]);
    assert_eq!(rows[3].mark, 0);

    let t = p.begin_tick();
    p.end_tick(&t.inputs, t.mark).unwrap();
    assert_eq!(p.recorded(), 0);
}

#[test]
fn held_value_repeats_under_a_filter_at_rest() {
    let mut p: Pipeline<f32> = Pipeline::new(1, 8, 0.0);
    p.receive(0, &vec![0.75], 0).unwrap();
    let t = p.begin_tick();
    p.end_tick(&t.inputs, t.mark).unwrap();
    for _ in 0..20 {
        let t = p.begin_tick();
        assert_eq!(t.inputs, vec![0.75]);
        p.end_tick(&t.inputs, t.mark).unwrap();
    }
    assert_eq!(p.window(0), Some(vec![0.75; 8]));
}

fn add_state(state: i32, x: i32) -> (i32, i32) {
    (state + 1, x + state)
}

#[test]
fn whole_tick_runs_each_filter_on_its_own_state() {
    let mut p: Pipeline<i32> = Pipeline::new(2, 3, 0);
    p.start_recording();
    p.receive(0x0000_2000, &vec![10, 20], 5).unwrap();
    let mut states = vec![100, 200];
    assert_eq!(p.tick(&mut states, &add_state).unwrap(), vec![110, 220]);
    assert_eq!(states, vec![101, 201]);
    assert_eq!(p.tick(&mut states, &add_state).unwrap(), vec![211, 421]);
    assert_eq!(states, vec![102, 202]);
    assert_eq!(p.windows(), vec![vec![0, 110, 211], vec![0, 220, 421]]);
    let rows = p.stop_recording(true).unwrap();
    assert_eq!(rows.len(), 2);
    assert_eq!(rows[0].values, vec![110, 220]);
    assert_eq!(rows[0].status, vec![true, false]);
    assert_eq!(rows[0].mark, 5);
    assert_eq!(rows[1].mark, 0);
}

#[test]
fn whole_tick_needs_one_state_per_channel() {
    let mut p: Pipeline<i32> = Pipeline::new(2, 3, 0);
    p.receive(0, &vec![10, 20], 5).unwrap();
    let mut states = vec![100];
    assert!(matches!(
        p.tick(&mut states, &add_state),
        Err(NapseError::FailedToReadAllChannels)
    ));
    assert_eq!(states, vec![100]);
    assert_eq!(p.backlog(0), 1);
    assert_eq!(p.windows(), vec![vec![0, 0, 0], vec![0, 0, 0]]);
}

#[test]
fn marks_travel_with_their_frames() {
    let mut p: Pipeline<i32> = Pipeline::new(1, 2, 0);
    p.start_recording();
    p.receive(0, &vec![11], 1).unwrap();
    p.receive(0, &vec![12], 0).unwrap();
    p.receive(0, &vec![13], 2).unwrap();
    let mut seen = Vec::new();
    for _ in 0..5 {
        let t = p.begin_tick();
        seen.push((t.inputs[0], t.mark));
        p.end_tick(&t.inputs, t.mark).unwrap();
    }
    assert_eq!(seen, vec![(11, 1), (12, 0), (13, 2), (13, 0), (13, 0)]);
    let rows = p.stop_recording(true).unwrap();
    let marks: Vec<u8> = rows.iter().map(|r| r.mark).collect();
    assert_eq!(marks, vec![1, 0, 2, 0, 0]);
}

#[test]
fn record_button_follows_the_session() {
    let mut p: Pipeline<i32> = Pipeline::new(1, 2, 0);
    assert_eq!(p.on_button(false), Trigger::Ignore);
    assert_eq!(p.on_button(true), Trigger::Start);
    assert!(p.start_recording());
    assert!(p.is_recording());
    assert_eq!(p.on_button(false), Trigger::Stop);
    assert!(p.stop_recording(false).is_none());
    assert!(!p.is_recording());
    assert_eq!(p.on_button(true), Trigger::Start);
}

#[test]
fn copies_are_equal() {
    assert_eq!(copy_of(&vec![1.5f32, -2.0, 0.0]), vec![1.5, -2.0, 0.0]);
    assert_eq!(copy_of(&Vec::<bool>::new()), Vec::<bool>::new());
}
