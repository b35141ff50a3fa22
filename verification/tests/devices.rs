use sh_lib::smart_device::{OnOff, SmartDevice, SmartDeviceType};
use sh_lib::smart_home::{turn_off_all_sockets, SmartHome};
use sh_lib::smart_room::{AddDevice, SmartRoom};
use sh_lib::smart_socket::SmartSocket;
use sh_lib::smart_thermometer::SmartThermometer;
use sh_lib::Report;

#[test]
fn socket_power_zero_if_off() {
    let socket = SmartSocket::new(String::from("Розетка"), 100000, OnOff::Off);
    assert_eq!(socket.get_power(), 0);
}

#[test]
fn socket_power() {
    let socket = SmartSocket::new(String::from("Розетка"), 100000, OnOff::On);
    assert_eq!(socket.get_power(), 100000);
}

#[test]
fn socket_status() {
    let socket = SmartSocket::new(String::from("Розетка"), 100000, OnOff::On);
    assert_eq!(socket.get_status_report(), "Розетка: Вкл, 1000 Вт");
}

#[test]
fn socket_status_off() {
    let socket = SmartSocket::new(String::from("Розетка"), 100000, OnOff::Off);
    assert_eq!(socket.get_status_report(), "Розетка: Выкл");
}

#[test]
fn socket_turn_on() {
    let mut socket = SmartSocket::new(String::from("Розетка"), 100000, OnOff::Off);
    socket.turn_on();
    assert_eq!(socket.get_status_report(), "Розетка: Вкл, 1000 Вт");
}

#[test]
fn socket_turn_off() {
    let mut socket = SmartSocket::new(String::from("Розетка"), 100000, OnOff::On);
    socket.turn_off();
    assert_eq!(socket.get_status_report(), "Розетка: Выкл");
}

#[test]
fn socket_is_on_true() {
    let socket = SmartSocket::new(String::from("Розетка"), 100000, OnOff::On);
    assert!(socket.is_on());
}

#[test]
fn socket_fractional_power_status() {
    let socket = SmartSocket::new(String::from("Розетка"), 110025, OnOff::On);
    assert_eq!(socket.get_status_report(), "Розетка: Вкл, 1100.25 Вт");
}

#[test]
fn thermometer_get_temp() {
    let thermometer = SmartThermometer::new(String::from("Термометр"), 2000);
    assert_eq!(thermometer.get_temp(), 2000);
}

#[test]
fn thermometer_get_status() {
    let thermometer = SmartThermometer::new(String::from("Термометр"), 2000);
    assert_eq!(thermometer.get_status_report(), "Термометр: 20 C°");
}

#[test]
fn thermometer_get_status_zero() {
    let thermometer = SmartThermometer::new(String::from("Термометр"), 0);
    assert_eq!(thermometer.get_status_report(), "Термометр: 0 C°");
}

#[test]
fn thermometer_get_status_negative() {
    let thermometer = SmartThermometer::new(String::from("Термометр"), -1000);
    assert_eq!(thermometer.get_status_report(), "Термометр: -10 C°");
}

#[test]
fn thermometer_set_temp() {
    let thermometer = SmartThermometer::new(String::from("Термометр"), 2400);
    thermometer.set_temp(2500);
    assert_eq!(thermometer.get_temp(), 2500);
}

#[test]
fn create_smart_home() {
    let home = SmartHome::new(String::from("Дом"), Vec::new());
    assert_eq!(home.get_rooms().len(), 0);
}

#[test]
fn add_room_to_smart_home() {
    let mut home = SmartHome::new(String::from("Дом"), Vec::new());
    home.add_room(SmartRoom::new(String::from("Комната"), Vec::new()));
    assert_eq!(home.get_rooms().len(), 1);
}

#[test]
#[should_panic]
fn get_room_by_non_existent_index() {
    let home = SmartHome::new(
        String::from("Дом"),
        vec![SmartRoom::new(String::from("Комната"), Vec::new())],
    );

    home.get_room(10);
}

#[test]
fn add_device_to_existed_room() {
    let mut home = SmartHome::new(
        String::from("Дом"),
        vec![SmartRoom::new(String::from("Комната"), Vec::new())],
    );

    let room = home.get_room_mut(0);
    room.add_device(SmartThermometer::new(String::from("Термометр"), 2400));

    assert_eq!(room.get_devices().len(), 1);
}

#[test]
fn add_device() {
    let mut room = SmartRoom::new(String::from("Комната"), vec![]);
    room.add_device(SmartThermometer::new(String::from("Термометр"), 2400));
    room.add_device(SmartSocket::new(String::from("Розетка"), 100000, OnOff::On));

    assert_eq!(room.get_device(0).get_status_report(), "Термометр: 24 C°");
    assert_eq!(room.get_device(1).get_status_report(), "Розетка: Вкл, 1000 Вт");
}

#[test]
fn print_status_report() {
    let mut room = SmartRoom::new(String::from("Комната"), vec![]);
    room.add_device(SmartThermometer::new(String::from("Термометр"), 2400));
    room.add_device(SmartSocket::new(String::from("Розетка"), 100000, OnOff::On));
    let lines = room.status_report_lines(4);
    assert_eq!(lines.len(), 3);
    assert_eq!(lines[0], "    == Отчет по комнате \"Комната\" ==");
    assert_eq!(lines[1], "        1: Термометр: 24 C°");
    assert_eq!(lines[2], "        2: Розетка: Вкл, 1000 Вт");
}

#[test]
fn get_mut_device() {
    let mut room = SmartRoom::new(String::from("Комната"), vec![]);
    room.add_device(SmartThermometer::new(String::from("Термометр"), 2400));
    room.add_device(SmartSocket::new(String::from("Розетка"), 100000, OnOff::On));

    let device = room.get_device_mut(0);

    match device {
        SmartDeviceType::Thermometer(thermometer) => {
            thermometer.set_temp(2500);
        },
        _ => {},
    }

    assert_eq!(room.get_device(0).get_status_report(), "Термометр: 25 C°");
}

#[test]
fn add_thermometer_to_room() {
    let mut room = SmartRoom::new(String::from("Комната"), Vec::new());
    room.add_device(SmartThermometer::new(String::from("Термометр"), 2400));
    assert_eq!(room.get_devices().len(), 1);
}

#[test]
fn add_socket_to_room() {
    let mut room = SmartRoom::new(String::from("Комната"), Vec::new());
    room.add_device(SmartSocket::new(String::from("Розетка"), 100000, OnOff::On));
    assert_eq!(room.get_devices().len(), 1);
}

#[test]
fn smart_home_integration_create_smart_home() {
    let home = SmartHome::new(String::from("Дом"), Vec::new());
    assert_eq!(home.get_rooms().len(), 0);
}

#[test]
fn smart_home_integration_add_room_to_smart_home() {
    let mut home = SmartHome::new(String::from("Дом"), Vec::new());
    home.add_room(SmartRoom::new(String::from("Комната"), Vec::new()));
    assert_eq!(home.get_rooms().len(), 1);
}

#[test]
fn turn_off_all_sockets_leaves_only_off_sockets() {
    let mut home = SmartHome::new(String::from("Дом"), Vec::new());
    let mut kitchen = SmartRoom::new(String::from("Кухня"), Vec::new());
    kitchen.add_device(SmartThermometer::new(String::from("Термометр 1.1"), 2400));
    kitchen.add_device(SmartSocket::new(String::from("Розетка 1.1"), 100000, OnOff::On));
    kitchen.add_device(SmartSocket::new(String::from("Розетка 1.2"), 200000, OnOff::Off));
    home.add_room(kitchen);
    let mut study = SmartRoom::new(String::from("Кабинет"), Vec::new());
    study.add_device(SmartSocket::new(String::from("Розетка 2.1"), 110025, OnOff::On));
    home.add_room(study);

    turn_off_all_sockets(&mut home);

    for room in home.get_rooms() {
        for device in room.get_devices() {
            if let SmartDeviceType::Socket(socket) = device {
                assert!(!socket.is_on());
            }
        }
    }
    assert_eq!(
        home.get_room(0).get_device(2).get_status_report(),
        "Розетка 1.2: Выкл"
    );
    assert_eq!(
        home.get_room(0).get_device(0).get_status_report(),
        "Термометр 1.1: 24 C°"
    );
}

#[test]
fn device_names_carry_through() {
    let socket = SmartSocket::new(String::from("Розетка"), 100000, OnOff::On);
    let device = SmartDeviceType::Socket(socket);
    assert_eq!(device.get_name(), "Розетка");
}
