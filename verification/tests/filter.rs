use nigui::wifi::filter::run_filters;

fn running_sum(state: i64, x: i64) -> (i64, i64) {
    (state + x, state + x)
}

#[test]
fn filters_keep_their_own_state() {
    let mut states: Vec<i64> = vec![0, 100, 1000];
    assert_eq!(run_filters(&mut states, &vec![1, 2, 3], &running_sum), Some(vec![1, 102, 1003]));
    assert_eq!(run_filters(&mut states, &vec![1, 2, 3], &running_sum), Some(vec![2, 104, 1006]));
    assert_eq!(states, vec![2, 104, 1006]);
}

#[test]
fn filters_are_not_run_on_a_wrong_number_of_inputs() {
    let mut states: Vec<i64> = vec![0, 100];
    assert_eq!(run_filters(&mut states, &vec![1], &running_sum), None);
    assert_eq!(run_filters(&mut states, &vec![1, 2, 3], &running_sum), None);
    assert_eq!(states, vec![0, 100]);
}

#[test]
fn same_state_and_inputs_give_same_outputs() {
    let inputs: Vec<Vec<i64>> = vec![vec![3, 4], vec![-1, 7], vec![0, 0]];
    let mut first: Vec<i64> = vec![5, 6];
    let mut second: Vec<i64> = vec![5, 6];
    for x in inputs.iter() {
        let a = run_filters(&mut first, x, &running_sum);
        let b = run_filters(&mut second, x, &running_sum);
        assert_eq!(a, b);
    }
    assert_eq!(first, second);
}
