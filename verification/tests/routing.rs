use home::proxy::{Switch, SwitchType};
use home::home::Handlers;
use home::wire::{battery_low_notice, select_port, Cmd, Info, Message, MessageHandler, MtrfInfo, PortInfo, PortKind, Response, SERIAL};

fn frame(ch: u8, cmd: Cmd) -> Response {
    Response { ch, mode: 1, ctr: 2, togl: 3, cmd, id: 0x1234 }
}

fn router() -> MessageHandler<&'static str> {
    let mut h: Handlers<&'static str, u32> = Handlers::new();
    h.mtrf("bedroom", "switch", 0, "left");
    h.mtrf("bedroom", "switch", 1, "right");
    let (mtrf, hap) = h.into_inner();
    assert!(hap.is_empty());
    MessageHandler::new(mtrf)
}

#[test]
fn message_drops_only_the_channel() {
    let m = Message::from(frame(9, Cmd::On));
    assert_eq!(m, Message { mode: 1, ctr: 2, togl: 3, cmd: Cmd::On, id: 0x1234 });
}

#[test]
fn frame_goes_to_its_channel_handler() {
    let r = router();
    let d = r.on_message(frame(1, Cmd::Switch)).unwrap();
    assert_eq!(*d.handler, "right");
    assert!(d.notice.is_none());
    assert_eq!(d.message.cmd, Cmd::Switch);
    let d = r.on_message(frame(0, Cmd::On)).unwrap();
    assert_eq!(*d.handler, "left");
}

#[test]
fn unknown_channel_is_not_dispatched() {
    let r = router();
    assert!(r.on_message(frame(7, Cmd::On)).is_none());
}

#[test]
fn battery_low_yields_notice_and_still_dispatches() {
    let r = router();
    let d = r.on_message(frame(0, Cmd::BatteryLow)).unwrap();
    assert_eq!(*d.handler, "left");
    assert_eq!(d.notice.as_deref(), Some("The bedroom device located in the switch is discharged. 😭"));
    assert_eq!(d.message.cmd, Cmd::BatteryLow);
}

#[test]
fn notice_text() {
    let info = Info { loc: "hall", name: "sensor" };
    assert_eq!(battery_low_notice(&info), "The hall device located in the sensor is discharged. 😭");
}

#[test]
fn later_registration_replaces_earlier() {
    let mut h: Handlers<u8, ()> = Handlers::default();
    h.mtrf("a", "b", 3, 1);
    h.mtrf("c", "d", 3, 2);
    h.mtrf("e", "f", 4, 9);
    let (mtrf, _) = h.into_inner();
    assert_eq!(mtrf.devs.len(), 2);
    let (dev, info) = &mtrf.devs[&3];
    assert_eq!(*dev, 2);
    assert_eq!(info.loc, "c");
    assert_eq!(info.name, "d");
    let r = MessageHandler::new(mtrf);
    assert_eq!(*r.on_message(frame(4, Cmd::Off)).unwrap().handler, 9);
}

#[test]
fn empty_registry() {
    let m: MtrfInfo<u8> = MtrfInfo::default();
    assert!(m.devs.is_empty());
    let r = MessageHandler::new(m);
    assert!(r.on_message(frame(0, Cmd::On)).is_none());
}

#[test]
fn accessories_keep_their_order() {
    let mut h: Handlers<u8, &'static str> = Handlers::new();
    let name = |s: Switch| -> Result<&'static str, ()> { Ok(s.name()) };
    h.hap(Switch::new("a", SwitchType::Light).unwrap(), name).unwrap();
    h.mtrf("x", "y", 0, 0);
    h.hap(Switch::new("b", SwitchType::Curtain).unwrap(), name).unwrap();
    h.hap(Switch::new("c", SwitchType::Light).unwrap(), name).unwrap();
    let (m, hap) = h.into_inner();
    assert_eq!(hap, vec!["a", "b", "c"]);
    assert_eq!(m.devs.len(), 1);
}

#[test]
fn failed_conversion_records_nothing() {
    let mut h: Handlers<u8, u32> = Handlers::new();
    let sw = Switch::new("a", SwitchType::Light).unwrap();
    let r = h.hap(sw, |_s: Switch| -> Result<u32, &'static str> { Err("no accessory") });
    assert!(matches!(r, Err("no accessory")));
    let back = h.hap(Switch::new("b", SwitchType::Light).unwrap(), |_s: Switch| -> Result<u32, &'static str> { Ok(7) }).unwrap();
    assert_eq!(back.name(), "b");
    let (_, hap) = h.into_inner();
    assert_eq!(hap, vec![7]);
}

#[test]
fn registry_grows_only_on_free_channels() {
    let mut h: Handlers<u8, ()> = Handlers::new();
    h.mtrf("a", "b", 3, 1);
    h.mtrf("a", "b", 5, 1);
    h.mtrf("a", "b", 3, 2);
    let (m, _) = h.into_inner();
    let mut keys: Vec<u8> = m.devs.keys().copied().collect();
    keys.sort();
    assert_eq!(keys, vec![3, 5]);
}

fn usb(name: &str, serial: Option<&str>) -> PortInfo {
    PortInfo { port_name: name.to_string(), port_type: PortKind::Usb { serial_number: serial.map(|s| s.to_string()) } }
}

fn other(name: &str) -> PortInfo {
    PortInfo { port_name: name.to_string(), port_type: PortKind::Other }
}

#[test]
fn port_chosen_by_serial_number() {
    let ports = vec![usb("/dev/ttyUSB0", Some("XYZ")), usb("/dev/ttyUSB1", Some(SERIAL)), usb("/dev/ttyUSB2", Some(SERIAL))];
    assert_eq!(select_port(&ports).as_deref(), Some("/dev/ttyUSB1"));
}

#[test]
fn port_chosen_by_name() {
    let ports = vec![other("/dev/AL065KM0"), usb("/dev/serial/by-id/usb-FTDI_AL065KM0-if00", None)];
    assert_eq!(select_port(&ports).as_deref(), Some("/dev/serial/by-id/usb-FTDI_AL065KM0-if00"));
}

#[test]
fn no_transceiver_port() {
    let ports = vec![other("/dev/ttyS0"), usb("/dev/ttyUSB0", Some("AL065KM")), usb("/dev/AL065K", None)];
    assert_eq!(select_port(&ports), None);
    assert_eq!(select_port(&Vec::new()), None);
}
