use vstd::prelude::*;
use crate::proxy::{ProxyError, Switch as ProxySwitch, SwitchType, Toggle};
use crate::wire::{Info, MtrfInfo, CH};

verus! {

broadcast use vstd::std_specs::hash::group_hash_axioms;

/// The room of the bedroom's radio devices.
pub const LOC: &'static str = "bedroom";

/// The kind of the bedroom's radio devices.
pub const SWITCH: &'static str = "switch";

/// The channel of the bedroom's left wall switch.
pub const LEFT_SWITCH_ID: CH = 0;

/// The channel of the bedroom's right wall switch.
pub const RIGHT_SWITCH_ID: CH = 1;

/// The device-service name of the bedroom lamp.
pub const BEDROOM_LAMP: &'static str = "bedroom_lamp";

/// The device-service name of the bedroom curtain.
pub const BEDROOM_CURTAIN: &'static str = "bad_room_curtains";

/// The device-service name of the bedroom's switch group that turns everything off.
pub const BEDROOM_OFF_ALL: &'static str = "bedroom_1";

/// The device-service name of the hall's curtain.
pub const HALL_CURTAIN: &'static str = "living_room_curtains";

/// Why building a room failed: a service URL did not parse, or a device
/// could not be turned into a HomeKit accessory.
#[derive(Debug)]
pub enum SetupError<E> {
    Url(ProxyError),
    Publish(E),
}

/// Collects the devices of the home while the rooms are built: radio devices
/// by channel, and the accessories to publish over HomeKit, in order.
pub struct Handlers<D, H> {
    mtrf: MtrfInfo<D>,
    hap: Vec<H>,
}

impl<D, H> Handlers<D, H> {
    /// The radio devices registered so far, by channel.
    pub closed spec fn radio(&self) -> Map<CH, (D, Info)> {
        self.mtrf.devs@
    }

    /// The HomeKit accessories registered so far, in order.
    pub closed spec fn homekit(&self) -> Seq<H> {
        self.hap@
    }

    /// The radio registry is always finite: it is the view of a hash map.
    pub proof fn lemma_radio_finite(&self)
        ensures
            self.radio().dom().finite(),
    {
        vstd::std_specs::hash::axiom_hashmap_view_finite_dom(self.mtrf.devs);
    }

    /// Nothing registered yet.
    pub fn new() -> (h: Self)
        ensures
            h.radio() == Map::<CH, (D, Info)>::empty(),
            h.radio().dom().finite(),
            h.homekit() == Seq::<H>::empty(),
    {
        Handlers { mtrf: MtrfInfo::new(), hap: Vec::new() }
    }

    /// Registers the radio device `dev` for channel `ch`, located at `loc`
    /// and called `name`; a device registered earlier on `ch` is replaced.
    pub fn mtrf(&mut self, loc: &'static str, name: &'static str, ch: CH, dev: D)
        ensures
            final(self).radio() == old(self).radio().insert(ch, (dev, Info { loc, name })),
            final(self).radio().dom().finite(),
            final(self).homekit() == old(self).homekit(),
    {
        self.mtrf.devs.insert(ch, (dev, Info { loc, name }));
    }

    /// Publishes the proxy switch `dev` over HomeKit: `convert` turns it into
    /// an accessory, which is registered as the next one; when `convert`
    /// fails, its error comes back and nothing is registered. On success the
    /// switch comes back.
    pub fn hap<E, F: Fn(ProxySwitch) -> Result<H, E>>(&mut self, dev: ProxySwitch, convert: F) -> (r:
        Result<ProxySwitch, E>)
        requires
            call_requires(convert, (dev,)),
        ensures
            final(self).radio() == old(self).radio(),
            final(self).radio().dom().finite(),
            match r {
                Ok(d) => d == dev && final(self).homekit().len() == old(self).homekit().len() + 1
                    && final(self).homekit().drop_last() == old(self).homekit() && call_ensures(
                    convert,
                    (dev,),
                    Ok(final(self).homekit().last()),
                ),
                Err(e) => call_ensures(convert, (dev,), Err(e)) && final(self).homekit() == old(
                    self,
                ).homekit(),
            },
    {
        let copy = dev.duplicate();
        match convert(copy) {
            Ok(acc) => {
                self.hap.push(acc);
                proof {
                    assert(self.hap@.drop_last() =~= old(self).hap@);
                }
                Ok(dev)
            },
            Err(e) => Err(e),
        }
    }

    /// Everything registered: the radio devices and the accessories.
    pub fn into_inner(self) -> (parts: (MtrfInfo<D>, Vec<H>))
        ensures
            parts.0.devs@ == self.radio(),
            parts.0.devs@.dom().finite(),
            parts.1@ == self.homekit(),
    {
        (self.mtrf, self.hap)
    }
}

impl<D, H> Default for Handlers<D, H> {
    fn default() -> (h: Self)
        ensures
            h.radio() == Map::<CH, (D, Info)>::empty(),
            h.homekit() == Seq::<H>::empty(),
    {
        Handlers::new()
    }
}

/// The hall and its devices.
pub struct Hall {
    pub curtain: ProxySwitch,
}

impl Hall {
    /// Builds the hall: its curtain, published over HomeKit through `convert`.
    pub fn new<D, H, E, F: Fn(ProxySwitch) -> Result<H, E>>(
        hdlr: &mut Handlers<D, H>,
        convert: F,
    ) -> (hall: Result<Hall, SetupError<E>>)
        requires
            forall|s: ProxySwitch| call_requires(convert, (s,)),
        ensures
            final(hdlr).radio() == old(hdlr).radio(),
            final(hdlr).radio().dom().finite(),
            ({
                let built = ProxySwitch::built(HALL_CURTAIN, SwitchType::Curtain);
                let hk = final(hdlr).homekit();
                let old_hk = old(hdlr).homekit();
                &&& built is None ==> (hall matches Err(SetupError::Url(e)) && e is InvalidUrl
                    && hk == old_hk)
                &&& built is Some ==> !(hall matches Err(SetupError::Url(_)))
                &&& hall matches Ok(h) ==> (built == Some(h.curtain) && hk.len() == old_hk.len() + 1
                    && hk.drop_last() == old_hk && call_ensures(convert, (h.curtain,), Ok(hk.last())))
                &&& hall matches Err(SetupError::Publish(e)) ==> (built is Some && call_ensures(
                    convert,
                    (built.unwrap(),),
                    Err(e),
                ) && hk == old_hk)
            }),
    {
        let curtain = match ProxySwitch::new(HALL_CURTAIN, SwitchType::Curtain) {
            Ok(c) => c,
            Err(e) => return Err(SetupError::Url(e)),
        };
        match hdlr.hap(curtain, convert) {
            Ok(c) => Ok(Hall { curtain: c }),
            Err(e) => Err(SetupError::Publish(e)),
        }
    }
}

/// The bedroom's devices on the device service: its lamp, its curtain, and
/// the switch group that turns everything off.
pub struct BedroomDevices {
    pub lamp: ProxySwitch,
    pub curtain: ProxySwitch,
    pub switch_off_all: Toggle,
}

/// The radio registry after the bedroom's two wall switches: `left` on
/// `LEFT_SWITCH_ID` and then `right` on `RIGHT_SWITCH_ID`, both in the
/// bedroom and called `switch`.
pub open spec fn with_bedroom_switches<D>(radio: Map<CH, (D, Info)>, left: D, right: D) -> Map<
    CH,
    (D, Info),
> {
    radio.insert(LEFT_SWITCH_ID, (left, Info { loc: LOC, name: SWITCH })).insert(
        RIGHT_SWITCH_ID,
        (right, Info { loc: LOC, name: SWITCH }),
    )
}

/// Builds the bedroom's devices and registers them, in this order: the lamp
/// and then the curtain are published over HomeKit through `convert`; the
/// left and then the right wall switch are registered on their channels as
/// `left` and `right`; last the switch group is set up. The first failure
/// ends the building and leaves what was registered before it.
pub fn bedroom<D, H, E, F: Fn(ProxySwitch) -> Result<H, E>>(
    hdlr: &mut Handlers<D, H>,
    left: D,
    right: D,
    convert: F,
) -> (b: Result<BedroomDevices, SetupError<E>>)
    requires
        forall|s: ProxySwitch| call_requires(convert, (s,)),
    ensures
        final(hdlr).radio().dom().finite(),
        ({
            let lamp = ProxySwitch::built(BEDROOM_LAMP, SwitchType::Light);
            let curtain = ProxySwitch::built(BEDROOM_CURTAIN, SwitchType::Curtain);
            let toggle = Toggle::built(BEDROOM_OFF_ALL);
            let old_hk = old(hdlr).homekit();
            let hk = final(hdlr).homekit();
            let n = old_hk.len();
            &&& b matches Ok(bd) ==> {
                &&& lamp == Some(bd.lamp)
                &&& curtain == Some(bd.curtain)
                &&& toggle == Some(bd.switch_off_all)
                &&& hk.len() == n + 2
                &&& hk.subrange(0, n as int) == old_hk
                &&& call_ensures(convert, (bd.lamp,), Ok(hk[n as int]))
                &&& call_ensures(convert, (bd.curtain,), Ok(hk[n + 1int]))
                &&& final(hdlr).radio() == with_bedroom_switches(old(hdlr).radio(), left, right)
            }
            &&& lamp is None ==> (b matches Err(SetupError::Url(e)) && e is InvalidUrl && hk == old_hk
                && final(hdlr).radio() == old(hdlr).radio())
            &&& b matches Err(SetupError::Url(e)) ==> e is InvalidUrl && (lamp is None || curtain is None
                || toggle is None)
            &&& (lamp is Some && curtain is Some && toggle is Some) ==> !(b matches Err(
                SetupError::Url(_),
            ))
            &&& b matches Err(SetupError::Publish(e)) ==> final(hdlr).radio() == old(hdlr).radio()
                && lamp is Some && ((hk == old_hk && call_ensures(convert, (lamp.unwrap(),), Err(e)))
                || (curtain is Some && hk.len() == n + 1 && hk.subrange(0, n as int) == old_hk
                && call_ensures(convert, (lamp.unwrap(),), Ok(hk[n as int])) && call_ensures(
                convert,
                (curtain.unwrap(),),
                Err(e),
            )))
            &&& (b matches Err(SetupError::Url(_)) && lamp is Some) ==> hk.len() >= n + 1
                && hk.subrange(0, n as int) == old_hk && call_ensures(
                convert,
                (lamp.unwrap(),),
                Ok(hk[n as int]),
            )
            &&& (b matches Err(SetupError::Url(_)) && lamp is Some && curtain is None) ==> hk.len()
                == n + 1 && final(hdlr).radio() == old(hdlr).radio()
            &&& (b matches Err(SetupError::Url(_)) && lamp is Some && curtain is Some) ==> toggle is None
                && hk.len() == n + 2 && call_ensures(convert, (curtain.unwrap(),), Ok(hk[n + 1int]))
                && final(hdlr).radio() == with_bedroom_switches(old(hdlr).radio(), left, right)
        }),
{
    let ghost n = old(hdlr).homekit().len();
    let lamp = match ProxySwitch::new(BEDROOM_LAMP, SwitchType::Light) {
        Ok(s) => s,
        Err(e) => return Err(SetupError::Url(e)),
    };
    let lamp = match hdlr.hap(lamp, &convert) {
        Ok(s) => s,
        Err(e) => return Err(SetupError::Publish(e)),
    };
    let ghost after_lamp = hdlr.homekit();
    let curtain = match ProxySwitch::new(BEDROOM_CURTAIN, SwitchType::Curtain) {
        Ok(s) => s,
        Err(e) => return Err(SetupError::Url(e)),
    };
    let curtain = match hdlr.hap(curtain, &convert) {
        Ok(s) => s,
        Err(e) => {
            proof {
                assert(hdlr.homekit().subrange(0, n as int) =~= old(hdlr).homekit());
            }
            return Err(SetupError::Publish(e));
        },
    };
    proof {
        assert(hdlr.homekit().subrange(0, n as int) =~= old(hdlr).homekit());
        assert(hdlr.homekit()[n as int] == after_lamp.last());
    }
    hdlr.mtrf(LOC, SWITCH, LEFT_SWITCH_ID, left);
    hdlr.mtrf(LOC, SWITCH, RIGHT_SWITCH_ID, right);
    let switch_off_all = match Toggle::new(BEDROOM_OFF_ALL) {
        Ok(t) => t,
        Err(e) => return Err(SetupError::Url(e)),
    };
    Ok(BedroomDevices { lamp, curtain, switch_off_all })
}

/// The device registered last on a channel is the one that channel routes
/// to; registering on one channel leaves every other channel's route as it
/// was; and the registry grows by one exactly when the channel was free.
pub proof fn lemma_registration_routes<D>(
    routes: Map<CH, (D, Info)>,
    ch: CH,
    dev: D,
    info: Info,
    other: CH,
)
    requires
        routes.dom().finite(),
    ensures
        routes.insert(ch, (dev, info)).contains_key(ch),
        routes.insert(ch, (dev, info))[ch] == (dev, info),
        other != ch ==> (routes.insert(ch, (dev, info)).contains_key(other) <==> routes.contains_key(
            other,
        )),
        other != ch && routes.contains_key(other) ==> routes.insert(ch, (dev, info))[other]
            == routes[other],
        routes.insert(ch, (dev, info)).len() == (if routes.contains_key(ch) {
            routes.len()
        } else {
            routes.len() + 1
        }),
{
    assert(routes.insert(ch, (dev, info)).dom() =~= routes.dom().insert(ch));
}

/// The radio registry after registering each of `regs` in order on top of `radio`.
pub open spec fn radio_after<D>(radio: Map<CH, (D, Info)>, regs: Seq<(CH, (D, Info))>) -> Map<
    CH,
    (D, Info),
>
    decreases regs.len(),
{
    if regs.len() == 0 {
        radio
    } else {
        radio_after(radio, regs.drop_last()).insert(regs.last().0, regs.last().1)
    }
}

/// The accessories after publishing each of `accs` in order after `hk`.
pub open spec fn homekit_after<H>(hk: Seq<H>, accs: Seq<H>) -> Seq<H>
    decreases accs.len(),
{
    if accs.len() == 0 {
        hk
    } else {
        homekit_after(hk, accs.drop_last()).push(accs.last())
    }
}

/// Over any number of registrations, the channels that route somewhere
/// are the channels there were before and the channels registered, and
/// the registry stays finite.
pub proof fn lemma_registered_channels<D>(radio: Map<CH, (D, Info)>, regs: Seq<(CH, (D, Info))>)
    requires
        radio.dom().finite(),
    ensures
        radio_after(radio, regs).dom() == radio.dom().union(
            Set::new(|c: CH| exists|i: int| 0 <= i < regs.len() && #[trigger] regs[i].0 == c),
        ),
        radio_after(radio, regs).dom().finite(),
    decreases regs.len(),
{
    if regs.len() > 0 {
        let prev = regs.drop_last();
        lemma_registered_channels(radio, prev);
        let lhs = radio_after(radio, regs).dom();
        let rhs = radio.dom().union(
            Set::new(|c: CH| exists|i: int| 0 <= i < regs.len() && #[trigger] regs[i].0 == c),
        );
        assert forall|c: CH| lhs.contains(c) <==> rhs.contains(c) by {
            if exists|i: int| 0 <= i < prev.len() && #[trigger] prev[i].0 == c {
                let i = choose|i: int| 0 <= i < prev.len() && #[trigger] prev[i].0 == c;
                assert(regs[i].0 == c);
            }
            if exists|i: int| 0 <= i < regs.len() && #[trigger] regs[i].0 == c {
                let i = choose|i: int| 0 <= i < regs.len() && #[trigger] regs[i].0 == c;
                if i < prev.len() {
                    assert(prev[i].0 == c);
                }
            }
        }
        assert(lhs =~= rhs);
    }
}

/// Over any number of publications, the accessories come out in the order
/// they were published, after those there were before.
pub proof fn lemma_published_in_order<H>(hk: Seq<H>, accs: Seq<H>)
    ensures
        homekit_after(hk, accs) == hk + accs,
    decreases accs.len(),
{
    if accs.len() > 0 {
        lemma_published_in_order(hk, accs.drop_last());
        assert(hk + accs =~= (hk + accs.drop_last()).push(accs.last()));
    }
}

/// Ties a run of registrations to `radio_after`: if each registry in
/// `states` comes from the one before by registering the matching entry of
/// `regs` (the contract of `Handlers::mtrf`), the last one is `radio_after`
/// of the first; its channels are the first's and those registered.
pub proof fn lemma_run_of_registrations<D>(
    states: Seq<Map<CH, (D, Info)>>,
    regs: Seq<(CH, (D, Info))>,
)
    requires
        states.len() == regs.len() + 1,
        states[0].dom().finite(),
        forall|i: int|
            0 <= i < regs.len() ==> #[trigger] states[i + 1] == states[i].insert(
                regs[i].0,
                regs[i].1,
            ),
    ensures
        states.last() == radio_after(states[0], regs),
        states.last().dom() == states[0].dom().union(
            Set::new(|c: CH| exists|i: int| 0 <= i < regs.len() && #[trigger] regs[i].0 == c),
        ),
        states.last().dom().finite(),
    decreases regs.len(),
{
    if regs.len() > 0 {
        let ps = states.drop_last();
        let pr = regs.drop_last();
        assert forall|i: int| 0 <= i < pr.len() implies #[trigger] ps[i + 1] == ps[i].insert(
            pr[i].0,
            pr[i].1,
        ) by {
            assert(states[i + 1] == states[i].insert(regs[i].0, regs[i].1));
        }
        lemma_run_of_registrations(ps, pr);
        assert(states[regs.len() - 1 + 1] == states[regs.len() - 1].insert(
            regs[regs.len() - 1].0,
            regs[regs.len() - 1].1,
        ));
    }
    lemma_registered_channels(states[0], regs);
}

/// Ties a run of publications to the call order: if each accessory list in
/// `states` comes from the one before by appending the matching entry of
/// `accs` (the contract of a successful `Handlers::hap`), the last list is
/// the first followed by `accs`, in order.
pub proof fn lemma_run_of_publications<H>(states: Seq<Seq<H>>, accs: Seq<H>)
    requires
        states.len() == accs.len() + 1,
        forall|i: int| 0 <= i < accs.len() ==> #[trigger] states[i + 1] == states[i].push(accs[i]),
    ensures
        states.last() == homekit_after(states[0], accs),
        states.last() == states[0] + accs,
    decreases accs.len(),
{
    if accs.len() > 0 {
        let ps = states.drop_last();
        let pa = accs.drop_last();
        assert forall|i: int| 0 <= i < pa.len() implies #[trigger] ps[i + 1] == ps[i].push(pa[i]) by {
            assert(states[i + 1] == states[i].push(accs[i]));
        }
        lemma_run_of_publications(ps, pa);
        assert(states[accs.len() - 1 + 1] == states[accs.len() - 1].push(accs[accs.len() - 1]));
    }
    lemma_published_in_order(states[0], accs);
}

/// The devices of the home that live on the device service.
pub struct HomeDevices {
    pub bedroom: BedroomDevices,
    pub hall: Hall,
}

/// Builds the home on a fresh registry: the bedroom first, then the hall.
/// On success the registry holds the bedroom's two wall switches and, in
/// order, the accessories of the bedroom lamp, the bedroom curtain and the
/// hall curtain.
pub fn init<D, H, E, F: Fn(ProxySwitch) -> Result<H, E>>(left: D, right: D, convert: F) -> (r:
    Result<(HomeDevices, Handlers<D, H>), SetupError<E>>)
    requires
        forall|s: ProxySwitch| call_requires(convert, (s,)),
    ensures
        ({
            let lamp = ProxySwitch::built(BEDROOM_LAMP, SwitchType::Light);
            let curtain = ProxySwitch::built(BEDROOM_CURTAIN, SwitchType::Curtain);
            let toggle = Toggle::built(BEDROOM_OFF_ALL);
            let hall = ProxySwitch::built(HALL_CURTAIN, SwitchType::Curtain);
            &&& r matches Ok((devs, h)) ==> {
                &&& lamp == Some(devs.bedroom.lamp)
                &&& curtain == Some(devs.bedroom.curtain)
                &&& toggle == Some(devs.bedroom.switch_off_all)
                &&& hall == Some(devs.hall.curtain)
                &&& h.homekit().len() == 3
                &&& call_ensures(convert, (devs.bedroom.lamp,), Ok(h.homekit()[0]))
                &&& call_ensures(convert, (devs.bedroom.curtain,), Ok(h.homekit()[1]))
                &&& call_ensures(convert, (devs.hall.curtain,), Ok(h.homekit()[2]))
                &&& h.radio() == with_bedroom_switches(Map::empty(), left, right)
                &&& h.radio().dom().finite()
            }
            &&& r matches Err(SetupError::Url(e)) ==> e is InvalidUrl && (lamp is None || curtain is None
                || toggle is None || hall is None)
            &&& (lamp is Some && curtain is Some && toggle is Some && hall is Some) ==> !(r matches Err(
                SetupError::Url(_),
            ))
            &&& r matches Err(SetupError::Publish(e)) ==> ((lamp matches Some(l) && call_ensures(
                convert,
                (l,),
                Err(e),
            )) || (curtain matches Some(c) && call_ensures(convert, (c,), Err(e))) || (
            hall matches Some(c) && call_ensures(convert, (c,), Err(e))))
        }),
{
    let mut handlers: Handlers<D, H> = Handlers::new();
    let bedroom = match bedroom(&mut handlers, left, right, &convert) {
        Ok(b) => b,
        Err(e) => return Err(e),
    };
    let ghost after_bedroom = handlers.homekit();
    let hall = match Hall::new(&mut handlers, &convert) {
        Ok(h) => h,
        Err(e) => return Err(e),
    };
    proof {
        assert(handlers.homekit()[0] == after_bedroom[0]);
        assert(handlers.homekit()[1] == after_bedroom[1]);
    }
    Ok((HomeDevices { bedroom, hall }, handlers))
}

} // verus!
