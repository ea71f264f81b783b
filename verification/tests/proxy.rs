use home::home::{bedroom, init, Hall, Handlers, SetupError, BEDROOM_LAMP, HALL_CURTAIN, LEFT_SWITCH_ID, LOC, RIGHT_SWITCH_ID, SWITCH};
use home::proxy::{
    info_url, is_success, power_of, toggle_url, update_url, CurtainState, LightState, ProxyError, StateBody, Switch,
    SwitchType, Toggle,
};
use reqwest::Url;

#[test]
fn service_urls() {
    assert_eq!(info_url("bedroom_lamp"), "http://localhost:8080/odin/api/v1/device/bedroom_lamp/info");
    assert_eq!(update_url("bedroom_lamp"), "http://localhost:8080/odin/api/v1/device/bedroom_lamp/update");
    assert_eq!(toggle_url("bedroom_1"), "http://localhost:8080/odin/api/switch/bedroom_1/toggle");
}

#[test]
fn new_switch_parses_its_urls() {
    let sw = Switch::new("bedroom_lamp", SwitchType::Light).unwrap();
    assert_eq!(sw.name(), "bedroom_lamp");
    assert_eq!(sw.tp(), SwitchType::Light);
    assert_eq!(*sw.info_url(), Url::parse("http://localhost:8080/odin/api/v1/device/bedroom_lamp/info").unwrap());
    assert_eq!(*sw.update_url(), Url::parse("http://localhost:8080/odin/api/v1/device/bedroom_lamp/update").unwrap());
    assert_eq!(sw.info_url().path(), "/odin/api/v1/device/bedroom_lamp/info");
}

#[test]
fn new_switch_rejects_unparsable_url() {
    let r = Switch::from_urls("x", SwitchType::Light, Err(ProxyError::InvalidUrl), Url::parse("http://a/").map_err(|_| ProxyError::InvalidUrl));
    assert!(matches!(r, Err(ProxyError::InvalidUrl)));
    let r = Switch::from_urls("x", SwitchType::Light, Url::parse("http://a/").map_err(|_| ProxyError::InvalidUrl), Err(ProxyError::InvalidUrl));
    assert!(matches!(r, Err(ProxyError::InvalidUrl)));
}

#[test]
fn from_urls_keeps_both() {
    let i = Url::parse("http://a/info").unwrap();
    let u = Url::parse("http://a/update").unwrap();
    let sw = Switch::from_urls("x", SwitchType::Curtain, Ok(i.clone()), Ok(u.clone())).unwrap();
    assert_eq!(*sw.info_url(), i);
    assert_eq!(*sw.update_url(), u);
    assert_eq!(sw.tp(), SwitchType::Curtain);
}

#[test]
fn duplicate_is_equal() {
    let sw = Switch::new("lamp", SwitchType::Light).unwrap();
    let d = sw.duplicate();
    assert_eq!(d.name(), "lamp");
    assert_eq!(d.info_url(), sw.info_url());
    assert_eq!(d.update_url(), sw.update_url());
    assert_eq!(d.tp(), sw.tp());
}

#[test]
fn update_bodies_follow_the_kind() {
    let lamp = Switch::new("lamp", SwitchType::Light).unwrap();
    let curtain = Switch::new("curtain", SwitchType::Curtain).unwrap();
    assert_eq!(lamp.update_body(true), StateBody::Light(LightState { is_on: true }));
    assert_eq!(curtain.update_body(false), StateBody::Curtain(CurtainState { is_open: false }));
    assert!(power_of(&lamp.update_body(true)));
    assert!(!power_of(&curtain.update_body(false)));
}

#[test]
fn switch_body_flips_reported_state() {
    let lamp = Switch::new("lamp", SwitchType::Light).unwrap();
    assert_eq!(lamp.switch_body(&StateBody::Light(LightState { is_on: true })), StateBody::Light(LightState { is_on: false }));
    let curtain = Switch::new("curtain", SwitchType::Curtain).unwrap();
    assert_eq!(curtain.switch_body(&StateBody::Curtain(CurtainState { is_open: false })), StateBody::Curtain(CurtainState { is_open: true }));
}

#[test]
fn success_statuses() {
    assert!(!is_success(199));
    assert!(is_success(200));
    assert!(is_success(204));
    assert!(is_success(299));
    assert!(!is_success(300));
    assert!(!is_success(404));
    assert!(!is_success(500));
}

#[test]
fn update_result_reports_failure() {
    let lamp = Switch::new("lamp", SwitchType::Light).unwrap();
    assert!(lamp.update_result(200).is_ok());
    match lamp.update_result(503) {
        Err(ProxyError::ChangeFailed { name, status }) => {
            assert_eq!(name, "lamp");
            assert_eq!(status, 503);
        }
        _ => panic!("expected a failure"),
    }
}

#[test]
fn toggle_urls_and_results() {
    let t = Toggle::new("bedroom_1").unwrap();
    assert_eq!(t.name(), "bedroom_1");
    assert_eq!(*t.url(), Url::parse("http://localhost:8080/odin/api/switch/bedroom_1/toggle").unwrap());
    assert!(t.toggle_result(204).is_ok());
    assert!(matches!(t.toggle_result(404), Err(ProxyError::ChangeFailed { name: "bedroom_1", status: 404 })));
    assert!(matches!(Toggle::from_url("x", Err(ProxyError::InvalidUrl)), Err(ProxyError::InvalidUrl)));
}

#[test]
fn hall_publishes_its_curtain() {
    let mut h: Handlers<u8, Switch> = Handlers::new();
    let hall = Hall::new(&mut h, |s: Switch| -> Result<Switch, ()> { Ok(s) }).unwrap();
    assert_eq!(hall.curtain.name(), HALL_CURTAIN);
    assert_eq!(hall.curtain.tp(), SwitchType::Curtain);
    let (mtrf, hap) = h.into_inner();
    assert!(mtrf.devs.is_empty());
    assert_eq!(hap.len(), 1);
    assert_eq!(hap[0].name(), "living_room_curtains");
    assert_eq!(hap[0].info_url(), hall.curtain.info_url());
}

#[test]
fn hall_fails_when_publishing_fails() {
    let mut h: Handlers<u8, Switch> = Handlers::new();
    let r = Hall::new(&mut h, |_s: Switch| -> Result<Switch, u8> { Err(9) });
    assert!(matches!(r, Err(SetupError::Publish(9))));
    let (_, hap) = h.into_inner();
    assert!(hap.is_empty());
}

#[test]
fn bedroom_registers_in_order() {
    let mut h: Handlers<&'static str, &'static str> = Handlers::new();
    let b = bedroom(&mut h, "left", "right", |s: Switch| -> Result<&'static str, ()> { Ok(s.name()) }).unwrap();
    assert_eq!(b.lamp.name(), BEDROOM_LAMP);
    assert_eq!(b.lamp.tp(), SwitchType::Light);
    assert_eq!(b.curtain.name(), "bad_room_curtains");
    assert_eq!(b.curtain.tp(), SwitchType::Curtain);
    assert_eq!(b.switch_off_all.name(), "bedroom_1");
    assert_eq!(*b.switch_off_all.url(), Url::parse("http://localhost:8080/odin/api/switch/bedroom_1/toggle").unwrap());
    let (mtrf, hap) = h.into_inner();
    assert_eq!(hap, vec!["bedroom_lamp", "bad_room_curtains"]);
    assert_eq!(mtrf.devs.len(), 2);
    let (l, li) = &mtrf.devs[&LEFT_SWITCH_ID];
    assert_eq!(*l, "left");
    assert_eq!((li.loc, li.name), ("bedroom", "switch"));
    let (r, ri) = &mtrf.devs[&RIGHT_SWITCH_ID];
    assert_eq!(*r, "right");
    assert_eq!((ri.loc, ri.name), (LOC, SWITCH));
}

#[test]
fn bedroom_stops_at_the_first_failed_publication() {
    let mut h: Handlers<&'static str, &'static str> = Handlers::new();
    let r = bedroom(&mut h, "left", "right", |s: Switch| -> Result<&'static str, &'static str> {
        if s.tp() == SwitchType::Curtain { Err("curtain") } else { Ok(s.name()) }
    });
    assert!(matches!(r, Err(SetupError::Publish("curtain"))));
    let (mtrf, hap) = h.into_inner();
    assert_eq!(hap, vec!["bedroom_lamp"]);
    assert!(mtrf.devs.is_empty());
}

#[test]
fn home_registers_bedroom_then_hall() {
    let (devs, h) = init("left", "right", |s: Switch| -> Result<&'static str, ()> { Ok(s.name()) }).unwrap();
    assert_eq!(devs.bedroom.lamp.name(), "bedroom_lamp");
    assert_eq!(devs.hall.curtain.name(), "living_room_curtains");
    let (mtrf, hap) = h.into_inner();
    assert_eq!(hap, vec!["bedroom_lamp", "bad_room_curtains", "living_room_curtains"]);
    assert_eq!(mtrf.devs.len(), 2);
    assert_eq!(mtrf.devs[&0].0, "left");
    assert_eq!(mtrf.devs[&1].0, "right");
}

#[test]
fn home_fails_with_the_hall_conversion() {
    let r = init(0u8, 1u8, |s: Switch| -> Result<u8, &'static str> {
        if s.name() == "living_room_curtains" { Err("hall") } else { Ok(1) }
    });
    assert!(matches!(r, Err(SetupError::Publish("hall"))));
}
