use nigui::wifi::resync::{
    desync_notice, pace, tick_period_nanos, Channel, Pacing, PreBuffer, Resynchronizer,
};
use nigui::wifi::NapseError;

#[test]
fn pre_buffer_is_first_in_first_out() {
    let mut b: PreBuffer<f32> = PreBuffer::new();
    assert_eq!(b.pop(), None);
    b.push(1.0);
    b.push(2.0);
    b.push(3.0);
    assert_eq!(b.len(), 3);
    assert_eq!(b.pop(), Some(1.0));
    assert_eq!(b.pop(), Some(2.0));
    b.push(4.0);
    assert_eq!(b.pop(), Some(3.0));
    assert_eq!(b.pop(), Some(4.0));
    assert_eq!(b.pop(), None);
    assert_eq!(b.len(), 0);
}

#[test]
fn channel_holds_the_last_emitted_value() {
    let mut c: Channel<f32> = Channel::new(4, 0.0);
    c.offer(0.25);
    let x = c.select();
    assert_eq!(x, 0.25);
    c.commit(0.5);
    assert_eq!(c.last(), 0.5);
    for _ in 0..10 {
        let held = c.select();
        assert_eq!(held, 0.5);
        c.commit(held);
        assert_eq!(c.last(), 0.5);
    }
    assert_eq!(c.window(), vec![0.5, 0.5, 0.5, 0.5]);
    assert_eq!(c.backlog(), 0);
}

#[test]
fn channel_takes_pending_values_in_order() {
    let mut c: Channel<i32> = Channel::new(3, 0);
    c.offer(1);
    c.offer(2);
    c.offer(3);
    assert_eq!(c.backlog(), 3);
    let a = c.select();
    c.commit(a * 10);
    let b = c.select();
    c.commit(b * 10);
    assert_eq!((a, b), (1, 2));
    assert_eq!(c.window(), vec![0, 10, 20]);
    assert_eq!(c.backlog(), 1);
}

#[test]
fn resynchronizer_runs_all_channels() {
    let mut r: Resynchronizer<f32> = Resynchronizer::new(3, 2, 0.0);
    assert_eq!(r.channels(), 3);
    assert!(r.ingest(&vec![1.0, 2.0, 3.0], 7).is_ok());
    assert!(r.ingest(&vec![4.0, 5.0, 6.0], 0).is_ok());
    assert_eq!(r.backlog(0), 2);
    assert_eq!(r.backlog(3), 0);

    let t = r.select();
    assert_eq!(t.inputs, vec![1.0, 2.0, 3.0]);
    assert_eq!(t.mark, 7);
    assert!(r.commit(&vec![0.1, 0.2, 0.3]).is_ok());

    let t = r.select();
    assert_eq!(t.inputs, vec![4.0, 5.0, 6.0]);
    assert_eq!(t.mark, 0);
    assert!(r.commit(&vec![0.4, 0.5, 0.6]).is_ok());

    let t = r.select();
    assert_eq!(t.inputs, vec![0.4, 0.5, 0.6]);
    assert_eq!(t.mark, 0);
    assert!(r.commit(&t.inputs).is_ok());

    assert_eq!(r.window(0), Some(vec![0.4, 0.4]));
    assert_eq!(r.window(2), Some(vec![0.6, 0.6]));
    assert_eq!(r.window(3), None);
}

#[test]
fn resynchronizer_refuses_a_wrong_number_of_values() {
    let mut r: Resynchronizer<i32> = Resynchronizer::new(2, 2, 0);
    assert!(matches!(r.ingest(&vec![1], 1), Err(NapseError::FailedToReadAllChannels)));
    assert!(matches!(r.ingest(&vec![1, 2, 3], 1), Err(NapseError::FailedToReadAllChannels)));
    assert_eq!(r.backlog(0), 0);
    assert!(matches!(r.commit(&vec![1, 2, 3]), Err(NapseError::FailedToReadAllChannels)));
    assert_eq!(r.window(0), Some(vec![0, 0]));
    let t = r.select();
    assert_eq!(t.inputs, vec![0, 0]);
    assert_eq!(t.mark, 0);
}

#[test]
fn pacing_waits_or_gives_notice() {
    assert_eq!(tick_period_nanos(250), Some(4_000_000));
    assert_eq!(tick_period_nanos(3), Some(333_333_333));
    assert_eq!(tick_period_nanos(0), None);
    assert_eq!(pace(1_000_000, 4_000_000), Pacing::Wait(3_000_000));
    assert_eq!(pace(4_000_000, 4_000_000), Pacing::Desync);
    assert_eq!(pace(9_000_000, 4_000_000), Pacing::Desync);
    assert_eq!(desync_notice(), "Buffer out of sync");
}
