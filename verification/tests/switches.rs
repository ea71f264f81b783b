use home::mtrf_dev::{Switch, SwitchOutcome};
use home::wire::{Cmd, Message};

fn msg(cmd: Cmd) -> Message {
    Message { mode: 0, ctr: 0, togl: 0, cmd, id: 7 }
}

#[test]
fn new_switch_is_off_on_its_channel() {
    let sw = Switch::on_switch(5, "lamp");
    assert!(!sw.is_on());
    assert_eq!(sw.ch(), 5);
    assert_eq!(*sw.action(), "lamp");
}

#[test]
fn on_fires_only_when_off() {
    let mut sw = Switch::on_switch(0, ());
    assert_eq!(sw.on_msg(msg(Cmd::On)), SwitchOutcome::Fire);
    assert!(sw.is_on());
    assert_eq!(sw.on_msg(msg(Cmd::On)), SwitchOutcome::Keep);
    assert!(sw.is_on());
}

#[test]
fn off_fires_only_when_on() {
    let mut sw = Switch::on_switch(0, ());
    assert_eq!(sw.on_msg(msg(Cmd::Off)), SwitchOutcome::Keep);
    assert!(!sw.is_on());
    sw.on_msg(msg(Cmd::On));
    assert_eq!(sw.on_msg(msg(Cmd::Off)), SwitchOutcome::Fire);
    assert!(!sw.is_on());
}

#[test]
fn switch_twice_restores_and_fires_each_time() {
    let mut sw = Switch::on_switch(1, ());
    assert_eq!(sw.on_msg(msg(Cmd::Switch)), SwitchOutcome::Fire);
    assert!(sw.is_on());
    assert_eq!(sw.on_msg(msg(Cmd::Switch)), SwitchOutcome::Fire);
    assert!(!sw.is_on());
}

#[test]
fn other_commands_are_unsupported() {
    let mut sw = Switch::on_switch(1, ());
    sw.on_msg(msg(Cmd::On));
    assert_eq!(sw.on_msg(msg(Cmd::BatteryLow)), SwitchOutcome::Unsupported);
    assert_eq!(sw.on_msg(msg(Cmd::Other)), SwitchOutcome::Unsupported);
    assert!(sw.is_on());
    assert_eq!(sw.ch(), 1);
}

#[test]
fn describe_shows_channel_and_state() {
    let mut sw = Switch::on_switch(1, ());
    assert_eq!(sw.describe(), "MtrfSwitch(1:off)");
    sw.on_msg(msg(Cmd::On));
    assert_eq!(sw.describe(), "MtrfSwitch(1:on)");
    let wide = Switch::on_switch(255, ());
    assert_eq!(wide.describe(), "MtrfSwitch(255:off)");
}
