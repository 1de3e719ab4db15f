use nigui::wifi::NapseError;
use nigui::{log_err, NotificationLog};

#[test]
fn log_keeps_every_message_in_order() {
    let mut log = NotificationLog::new();
    assert_eq!(log.error_count(), 0);
    assert_eq!(log.latest_error(), None);
    log_err(&mut log, String::from("first"));
    log_err(&mut log, String::from("second"));
    assert_eq!(log.error_count(), 2);
    assert_eq!(log.error(0), Some(String::from("first")));
    assert_eq!(log.error(1), Some(String::from("second")));
    assert_eq!(log.error(2), None);
    assert_eq!(log.latest_error(), Some(String::from("second")));
    assert_eq!(log.notification_count(), 2);
    assert_eq!(log.notification(1), Some(String::from("second")));
}

#[test]
fn error_messages() {
    assert_eq!(NapseError::DeviceNotFound.message(), "Napse device not found");
    assert_eq!(
        NapseError::FailedToReadAllChannels.message(),
        "Failed to read all the channels of the Napse device"
    );
}
