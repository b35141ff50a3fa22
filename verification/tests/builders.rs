use sh_lib::builder::HomeBuilder;
use sh_lib::smart_device::{SmartDevice, SmartDeviceType};
use sh_lib::smart_socket::SmartSocket;
use sh_lib::smart_thermometer::SmartThermometer;
use sh_lib::smart_device::OnOff;

#[test]
fn builder_assembles_rooms_and_devices() {
    let home = HomeBuilder::new()
        .add_room(String::from("Кухня"))
        .add_device(SmartDeviceType::Thermometer(SmartThermometer::new(
            String::from("Термометр 1.1"),
            2400,
        )))
        .add_device(SmartDeviceType::Socket(SmartSocket::new(
            String::from("Розетка 1.1"),
            100000,
            OnOff::On,
        )))
        .add_room(String::from("Кабинет"))
        .add_device(SmartDeviceType::Socket(SmartSocket::new(
            String::from("Розетка 2.1"),
            200000,
            OnOff::Off,
        )))
        .build();

    assert_eq!(home.get_rooms().len(), 2);
    assert_eq!(home.get_room(0).get_devices().len(), 2);
    assert_eq!(home.get_room(1).get_devices().len(), 1);
    assert_eq!(home.get_room(0).get_device(0).get_name(), "Термометр 1.1");
    assert_eq!(home.get_room(1).get_device(0).get_name(), "Розетка 2.1");
}

#[test]
fn builder_of_one_empty_room() {
    let home = HomeBuilder::new().add_room(String::from("Комната")).build();
    assert_eq!(home.get_rooms().len(), 1);
    assert_eq!(home.get_room(0).get_devices().len(), 0);
}
