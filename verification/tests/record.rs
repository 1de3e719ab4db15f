use nigui::wave::export::{data_line, decimal_text, header_line, render_values, session_lines};
use nigui::wave::record::{Recorder, Trigger};

#[test]
fn recorder_starts_idle_and_ignores_ticks() {
    let mut r: Recorder<f32> = Recorder::new(2);
    assert!(!r.is_recording());
    assert!(!r.tick(&vec![0.1, 0.2], &vec![true, true], 0));
    assert_eq!(r.len(), 0);
    assert!(r.stop(true).is_none());
}

#[test]
fn start_clears_and_ticks_fill_all_columns() {
    let mut r: Recorder<f32> = Recorder::new(2);
    assert!(r.start());
    assert!(r.is_recording());
    assert_eq!(r.len(), 0);
    for i in 0..25u8 {
        assert!(r.tick(&vec![i as f32, -(i as f32)], &vec![i % 2 == 0, true], i));
        assert_eq!(r.len(), i as usize + 1);
    }
    assert!(!r.start());
    assert_eq!(r.len(), 25);
    let rows = r.stop(true).unwrap();
    assert!(!r.is_recording());
    assert_eq!(r.len(), 0);
    assert_eq!(rows.len(), 25);
    for (i, row) in rows.iter().enumerate() {
        assert_eq!(row.values, vec![i as f32, -(i as f32)]);
        assert_eq!(row.status, vec![i % 2 == 0, true]);
        assert_eq!(row.mark, i as u8);
    }
    assert!(r.start());
    assert_eq!(r.len(), 0);
}

#[test]
fn stop_without_destination_drops_the_session() {
    let mut r: Recorder<i32> = Recorder::new(1);
    r.start();
    r.tick(&vec![1], &vec![true], 0);
    assert!(r.stop(false).is_none());
    assert!(!r.is_recording());
    assert_eq!(r.len(), 0);
}

#[test]
fn rows_of_the_wrong_shape_are_not_recorded() {
    let mut r: Recorder<i32> = Recorder::new(2);
    r.start();
    assert!(!r.tick(&vec![1], &vec![true, true], 0));
    assert!(!r.tick(&vec![1, 2], &vec![true], 0));
    assert!(r.tick(&vec![1, 2], &vec![true, false], 0));
    assert_eq!(r.len(), 1);
}

#[test]
fn record_button() {
    let mut r: Recorder<i32> = Recorder::new(1);
    assert_eq!(r.on_button(false), Trigger::Ignore);
    assert_eq!(r.on_button(true), Trigger::Start);
    r.start();
    assert_eq!(r.on_button(true), Trigger::Stop);
    assert_eq!(r.on_button(false), Trigger::Stop);
}

#[test]
fn decimal_texts() {
    assert_eq!(decimal_text(0), "0");
    assert_eq!(decimal_text(7), "7");
    assert_eq!(decimal_text(10), "10");
    assert_eq!(decimal_text(255), "255");
    assert_eq!(decimal_text(1234567890), "1234567890");
}

#[test]
fn header_names_every_column() {
    assert_eq!(header_line(0), "mark\n");
    assert_eq!(header_line(2), "channel-0,channel-1,status ch-0,status ch-1,mark\n");
    let six = header_line(6);
    assert_eq!(six.trim_end().split(',').count(), 13);
    assert!(six.starts_with("channel-0,"));
    assert!(six.contains(",channel-5,status ch-0,"));
    assert!(six.ends_with(",status ch-5,mark\n"));
    let twelve = header_line(12);
    assert!(twelve.contains("channel-11,status ch-0"));
}

#[test]
fn data_line_writes_values_flags_and_mark() {
    let values = vec![String::from("0.5"), String::from("-1")];
    assert_eq!(data_line(&values, &vec![true, false], 3), "0.5,-1,1,0,3\n");
    assert_eq!(data_line(&vec![], &vec![], 255), "255\n");
    assert_eq!(format!("{}", 1.0f32), "1");
    assert_eq!(format!("{}", 0.0f32), "0");
    assert_eq!(format!("{}", 200u8 as f32), "200");
}

fn render(value: f32) -> String {
    format!("{}", value)
}

#[test]
fn values_are_written_by_the_given_function() {
    assert_eq!(render_values(&vec![0.5f32, -1.0, 3.0], &render), vec!["0.5", "-1", "3"]);
    assert_eq!(render_values(&vec![7u8, 8], &|x: u8| format!("<{}>", x)), vec!["<7>", "<8>"]);
}

#[test]
fn exported_session_has_header_and_one_line_per_tick() {
    let channels = 6usize;
    let mut r: Recorder<f32> = Recorder::new(channels);
    r.start();
    for t in 0..100usize {
        let values: Vec<f32> = (0..channels).map(|c| (t * channels + c) as f32 / 1000.0).collect();
        let status: Vec<bool> = (0..channels).map(|c| (t + c) % 3 != 0).collect();
        assert!(r.tick(&values, &status, (t % 4) as u8));
    }
    let rows = r.stop(true).unwrap();
    let lines = session_lines(channels, &rows, &render);
    assert_eq!(lines.len(), 101);
    assert_eq!(lines[0], header_line(channels));
    let text: String = lines.concat();
    assert!(text.ends_with('\n'));
    let read_back: Vec<&str> = text.lines().collect();
    assert_eq!(read_back.len(), 101);
    assert!(read_back[0].starts_with("channel-0,"));
    for line in read_back.iter() {
        assert_eq!(line.split(',').count(), channels * 2 + 1);
    }
    assert_eq!(read_back[1], "0,0.001,0.002,0.003,0.004,0.005,0,1,1,0,1,1,0");
    assert_eq!(read_back[100], "0.594,0.595,0.596,0.597,0.598,0.599,0,1,1,0,1,1,3");
}

#[test]
fn empty_session_exports_the_header_alone() {
    let rows: Vec<nigui::wave::record::Row<f32>> = Vec::new();
    assert_eq!(session_lines(1, &rows, &render), vec!["channel-0,status ch-0,mark\n"]);
}
