use std::collections::HashMap;
use vstd::prelude::*;
use vstd::string::*;
use crate::text::{contains_str, has_infix};

verus! {

broadcast use vstd::std_specs::hash::group_hash_axioms;

/// A radio channel of the transceiver.
pub type CH = u8;

/// The serial number of the USB transceiver this home uses.
pub const SERIAL: &'static str = "AL065KM0";

/// The radio commands the home reacts to; every other command is `Other`.
#[derive(Clone, Copy, Debug, PartialEq, Eq, Structural)]
pub enum Cmd {
    Off,
    On,
    Switch,
    BatteryLow,
    Other,
}

/// A frame received from the transceiver, with the fields the home reads.
/// `mode` and `ctr` hold the protocol codes of the frame's mode and status.
#[derive(Clone, Copy, Debug, PartialEq, Eq, Structural)]
pub struct Response {
    pub ch: CH,
    pub mode: u8,
    pub ctr: u8,
    pub togl: u8,
    pub cmd: Cmd,
    pub id: u32,
}

/// What a device handler receives of a frame: everything but the channel.
#[derive(Clone, Copy, Debug, PartialEq, Eq, Structural)]
pub struct Message {
    pub mode: u8,
    pub ctr: u8,
    pub togl: u8,
    pub cmd: Cmd,
    pub id: u32,
}

impl From<Response> for Message {
    fn from(resp: Response) -> (msg: Message) {
        Message { mode: resp.mode, ctr: resp.ctr, togl: resp.togl, cmd: resp.cmd, id: resp.id }
    }
}

impl vstd::std_specs::convert::FromSpecImpl<Response> for Message {
    open spec fn obeys_from_spec() -> bool {
        true
    }

    open spec fn from_spec(resp: Response) -> Message {
        message_of(resp)
    }
}

/// The message a frame carries: all its fields but the channel.
pub open spec fn message_of(resp: Response) -> Message {
    Message { mode: resp.mode, ctr: resp.ctr, togl: resp.togl, cmd: resp.cmd, id: resp.id }
}

/// A handler receives the frame as it came: its message carries the frame's
/// command, mode, status, toggle flag and id unchanged; only the channel is
/// left out.
pub proof fn lemma_message_keeps_frame(resp: Response)
    ensures
        message_of(resp).cmd == resp.cmd,
        message_of(resp).mode == resp.mode,
        message_of(resp).ctr == resp.ctr,
        message_of(resp).togl == resp.togl,
        message_of(resp).id == resp.id,
{
}

/// Two frames that differ only in their channel carry the same message.
pub proof fn lemma_message_ignores_channel(a: Response, b: Response)
    requires
        a.cmd == b.cmd,
        a.mode == b.mode,
        a.ctr == b.ctr,
        a.togl == b.togl,
        a.id == b.id,
    ensures
        message_of(a) == message_of(b),
{
}

/// Where a radio device is and what it is called.
#[derive(Clone, Copy, Debug)]
pub struct Info {
    pub loc: &'static str,
    pub name: &'static str,
}

/// The radio devices of the home, by channel.
pub struct MtrfInfo<D> {
    pub devs: HashMap<CH, (D, Info)>,
}

impl<D> MtrfInfo<D> {
    /// No device registered yet.
    pub fn new() -> (info: Self)
        ensures
            info.devs@ == Map::<CH, (D, Info)>::empty(),
    {
        MtrfInfo { devs: HashMap::new() }
    }
}

impl<D> Default for MtrfInfo<D> {
    fn default() -> (info: Self)
        ensures
            info.devs@ == Map::<CH, (D, Info)>::empty(),
    {
        MtrfInfo::new()
    }
}

/// The text the bot sends when the device `info` reports a low battery.
pub open spec fn battery_low_text(info: Info) -> Seq<char> {
    "The "@ + info.loc@ + " device located in the "@ + info.name@ + " is discharged. 😭"@
}

/// Builds the low-battery notice for the device `info`.
pub fn battery_low_notice(info: &Info) -> (text: String)
    ensures
        text@ == battery_low_text(*info),
{
    let mut text = String::from_str("The ");
    text.append(info.loc);
    text.append(" device located in the ");
    text.append(info.name);
    text.append(" is discharged. 😭");
    text
}

/// What to do with a frame whose channel has a handler.
pub struct Dispatch<'a, D> {
    /// The handler registered for the frame's channel.
    pub handler: &'a D,
    /// The text to send to the root user, if the device reported a low battery.
    pub notice: Option<String>,
    /// The message to hand to the handler.
    pub message: Message,
}

/// Routes frames from the transceiver to the handlers of their channels.
pub struct MessageHandler<D> {
    handlers: HashMap<CH, (D, Info)>,
}

impl<D> MessageHandler<D> {
    /// The handlers registered for each channel.
    pub closed spec fn routes(&self) -> Map<CH, (D, Info)> {
        self.handlers@
    }

    /// A router over the devices registered in `mtrf`.
    pub fn new(mtrf: MtrfInfo<D>) -> (router: Self)
        ensures
            router.routes() == mtrf.devs@,
    {
        MessageHandler { handlers: mtrf.devs }
    }

    /// Decides what a frame from the transceiver leads to: nothing when no
    /// handler is registered for its channel; otherwise its message goes to
    /// that handler, and a low-battery report also yields a notice for the
    /// root user.
    pub fn on_message(&self, msg: Response) -> (dispatch: Option<Dispatch<'_, D>>)
        ensures
            dispatch is None <==> !self.routes().contains_key(msg.ch),
            dispatch matches Some(d) ==> {
                &&& *d.handler == self.routes()[msg.ch].0
                &&& d.message == message_of(msg)
                &&& d.message.cmd == msg.cmd
                &&& d.message.mode == msg.mode
                &&& d.message.ctr == msg.ctr
                &&& d.message.togl == msg.togl
                &&& d.message.id == msg.id
                &&& (d.notice is Some <==> msg.cmd == Cmd::BatteryLow)
                &&& (d.notice matches Some(t) ==> t@ == battery_low_text(
                    self.routes()[msg.ch].1,
                ))
            },
    {
        match self.handlers.get(&msg.ch) {
            Some(entry) => {
                let notice = if msg.cmd == Cmd::BatteryLow {
                    Some(battery_low_notice(&entry.1))
                } else {
                    None
                };
                Some(Dispatch { handler: &entry.0, notice, message: Message::from(msg) })
            },
            None => None,
        }
    }
}

/// The kind of a serial port, with what the home reads of a USB port.
pub enum PortKind {
    Usb { serial_number: Option<String> },
    Other,
}

/// A serial port found on the machine.
pub struct PortInfo {
    pub port_name: String,
    pub port_type: PortKind,
}

/// A port is the transceiver when it is a USB port whose serial number is
/// `SERIAL` or whose name contains `SERIAL`.
pub open spec fn is_transceiver(port: PortInfo) -> bool {
    match port.port_type {
        PortKind::Usb { serial_number } => (serial_number matches Some(s) && s@ == SERIAL@)
            || has_infix(port.port_name@, SERIAL@),
        PortKind::Other => false,
    }
}

/// A USB port whose name holds `SERIAL` at any position is the transceiver,
/// whatever its serial number; so is a USB port whose serial number is `SERIAL`.
pub proof fn lemma_serial_in_name_is_transceiver(port: PortInfo, i: int)
    requires
        port.port_type is Usb,
        0 <= i,
        i + SERIAL@.len() <= port.port_name@.len(),
        port.port_name@.subrange(i, i + SERIAL@.len()) == SERIAL@,
    ensures
        is_transceiver(port),
{
    crate::text::lemma_infix_at(port.port_name@, SERIAL@, i);
}

/// A port that is not USB is never the transceiver; a USB port is the
/// transceiver when its serial number is `SERIAL`.
pub proof fn lemma_transceiver_kinds(port: PortInfo)
    ensures
        port.port_type is Other ==> !is_transceiver(port),
        (port.port_type matches PortKind::Usb { serial_number: Some(s) } && s@ == SERIAL@)
            ==> is_transceiver(port),
{
}

fn port_is_transceiver(port: &PortInfo) -> (b: bool)
    ensures
        b == is_transceiver(*port),
{
    match &port.port_type {
        PortKind::Usb { serial_number } => {
            let by_serial = match serial_number {
                Some(s) => {
                    let wanted = String::from_str(SERIAL);
                    s.eq(&wanted)
                },
                None => false,
            };
            by_serial || contains_str(port.port_name.as_str(), SERIAL)
        },
        PortKind::Other => false,
    }
}

/// Picks the transceiver's port: the name of the first port in `ports` that
/// is the transceiver, or `None` when there is none.
pub fn select_port(ports: &Vec<PortInfo>) -> (port: Option<String>)
    ensures
        port is None <==> forall|i: int| 0 <= i < ports@.len() ==> !is_transceiver(#[trigger] ports@[i]),
        port matches Some(name) ==> exists|i: int|
            0 <= i < ports@.len() && is_transceiver(#[trigger] ports@[i]) && name@ == ports@[i].port_name@
                && forall|j: int| 0 <= j < i ==> !is_transceiver(#[trigger] ports@[j]),
{
    let mut i: usize = 0;
    while i < ports.len()
        invariant
            0 <= i <= ports@.len(),
            forall|j: int| 0 <= j < i ==> !is_transceiver(#[trigger] ports@[j]),
        decreases ports@.len() - i,
    {
        if port_is_transceiver(&ports[i]) {
            let name = ports[i].port_name.clone();
            assert(is_transceiver(ports@[i as int]));
            return Some(name);
        }
        i = i + 1;
    }
    None
}

} // verus!
