use nigui::wave::window::RollingWindow;

#[test]
fn new_window_is_full_of_the_fill_value() {
    let w: RollingWindow<f32> = RollingWindow::new(4, 0.0);
    assert_eq!(w.capacity(), 4);
    assert_eq!(w.snapshot(), vec![0.0, 0.0, 0.0, 0.0]);
    assert_eq!(w.newest(), Some(0.0));
}

#[test]
fn push_evicts_the_oldest_and_appends_the_newest() {
    let mut w: RollingWindow<i32> = RollingWindow::new(3, 0);
    w.push(1);
    assert_eq!(w.snapshot(), vec![0, 0, 1]);
    w.push(2);
    assert_eq!(w.snapshot(), vec![0, 1, 2]);
    w.push(3);
    assert_eq!(w.snapshot(), vec![1, 2, 3]);
    w.push(4);
    assert_eq!(w.snapshot(), vec![2, 3, 4]);
    assert_eq!(w.get(0), Some(2));
    assert_eq!(w.get(2), Some(4));
    assert_eq!(w.get(3), None);
    assert_eq!(w.newest(), Some(4));
}

#[test]
fn length_stays_at_capacity_after_many_pushes() {
    let capacity = 16usize;
    let mut w: RollingWindow<usize> = RollingWindow::new(capacity, 0);
    for i in 1..=100usize {
        w.push(i);
        assert_eq!(w.capacity(), capacity);
        assert_eq!(w.snapshot().len(), capacity);
        if i >= capacity {
            let expected: Vec<usize> = (i + 1 - capacity..=i).collect();
            assert_eq!(w.snapshot(), expected);
        }
    }
}

#[test]
fn window_without_room_stays_empty() {
    let mut w: RollingWindow<u8> = RollingWindow::new(0, 9);
    w.push(1);
    assert_eq!(w.capacity(), 0);
    assert!(w.snapshot().is_empty());
    assert_eq!(w.newest(), None);
}
