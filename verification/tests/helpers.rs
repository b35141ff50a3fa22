use sh_lib::errors::SmartHomeErrors;
use sh_lib::health::HealthChecker;
use sh_lib::id::Id;
use sh_lib::reporter::{Report, Reporter};
use sh_lib::rich_console::TextColor;
use sh_lib::smart_device::OnOff;
use sh_lib::smart_socket::SmartSocket;
use sh_lib::smart_thermometer::SmartThermometer;
use sh_lib::subscriber::{EventLog, Subscribe};

#[test]
fn test_macro_with_valid_test() {
    assert_eq!(2 + 2, 4);
    assert!(true);
}

#[test]
#[should_panic]
fn test_with_empty_body() {
    // an empty test body is reported as a failure
    assert!(false, "test_macro_with_empty_body - \x1b[31mПустой тест!\x1b[0m");
}

#[test]
fn room_not_found_error_text() {
    let error = SmartHomeErrors::room_not_found("Кухня");
    assert_eq!(error.to_text(), "ERR[1001]: Комната \"Кухня\" не найдена");
}

#[test]
fn device_not_found_error_text() {
    let error = SmartHomeErrors::device_not_found("Розетка");
    assert_eq!(error.to_text(), "ERR[1002]: Устройство 'Розетка' не найдено");
}

#[test]
fn text_colors_have_ansi_codes() {
    assert_eq!(TextColor::Red.as_code(), "31m");
    assert_eq!(TextColor::Green.as_code(), "32m");
    assert_eq!(TextColor::Yellow.as_code(), "33m");
    assert_eq!(TextColor::Blue.as_code(), "34m");
    assert_eq!(TextColor::Magenta.as_code(), "35m");
    assert_eq!(TextColor::Cyan.as_code(), "36m");
    assert_eq!(TextColor::Reset.as_code(), "0m");
}

#[test]
fn health_check_is_ok() {
    let checker = HealthChecker {};
    let status = checker.check();
    assert_eq!(status.status, "OK");
    assert_eq!(status.error, "");
}

#[test]
fn id_with_inner_keeps_the_text() {
    let id = Id::with_inner(String::from("room-1"));
    assert_eq!(id.as_string(), "room-1");
}

#[test]
fn id_from_string_is_a_digest_of_the_name() {
    let a1 = Id::from_string(String::from("Розетка"));
    let a2 = Id::from_string(String::from("Розетка"));
    let b = Id::from_string(String::from("Термометр"));
    assert_eq!(a1, a2);
    assert_ne!(a1, b);
    // a name-based id is a rendered UUID, not the name handed back
    assert_ne!(a1.as_string(), "Розетка");
    assert_eq!(a1.as_string().len(), 36);
    assert_eq!(
        a1.as_string(),
        uuid::Uuid::new_v5(&uuid::Uuid::NAMESPACE_DNS, "Розетка".as_bytes()).to_string()
    );
}

#[test]
fn id_new_is_random_text() {
    let a = Id::new();
    let b = Id::new();
    assert_eq!(a.as_string().chars().count(), 36);
    assert_ne!(a, b);
}

#[test]
fn reporter_of_nothing_reports_nothing() {
    let reporter = Reporter::new();
    assert_eq!(reporter.get_status_report(), "");
}

#[test]
fn reporter_chains_items_with_line_breaks() {
    let reporter = Reporter::new()
        .add_item(SmartSocket::new(String::from("Розетка"), 100000, OnOff::On))
        .add_item(SmartThermometer::new(String::from("Термометр"), 2400));
    assert_eq!(
        reporter.get_status_report(),
        "\nРозетка: Вкл, 1000 Вт\nТермометр: 24 C°"
    );
}

#[test]
fn event_log_hears_events_in_order() {
    let mut log = EventLog::new();
    log.on_event(String::from("added"));
    log.on_event(String::from("removed"));
    assert_eq!(log.events().as_slice(), &[String::from("added"), String::from("removed")]);
}
