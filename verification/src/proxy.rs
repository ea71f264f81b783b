use vstd::prelude::*;
use vstd::string::*;
use crate::text::{decimal, push_decimal};

verus! {

/// Declares the URL type that reqwest re-exports from the `url` crate, so
/// that values of it can be carried through verified code.
#[verifier::external_type_specification]
#[verifier::external_body]
pub struct ExUrl(reqwest::Url);

/// The port of the device service that proxy switches talk to.
pub const OLD_SERVICE_PORT: u16 = 8080;

/// What `reqwest::Url::parse` gives for a text: the URL, or `None` where it
/// rejects the text.
pub uninterp spec fn parsed_url(text: Seq<char>) -> Option<reqwest::Url>;

/// Calls `reqwest::Url::parse` (that is, `url::Url::parse`). Claims that the
/// outcome depends on the text alone, named by `parsed_url`; which texts are
/// accepted and what the URL holds is not stated.
#[verifier::external_body]
fn parse_url(text: &str) -> (url: Result<reqwest::Url, ProxyError>)
    ensures
        url == (match parsed_url(text@) {
            Some(u) => Ok(u),
            None => Err(ProxyError::InvalidUrl),
        }),
{
    match reqwest::Url::parse(text) {
        Ok(u) => Ok(u),
        Err(_) => Err(ProxyError::InvalidUrl),
    }
}

/// Calls `Clone::clone` on a `reqwest::Url`, whose `Clone` is derived; claims
/// the copy equals the original.
#[verifier::external_body]
fn clone_url(url: &reqwest::Url) -> (copy: reqwest::Url)
    ensures
        copy == *url,
{
    url.clone()
}

/// What a proxy switch drives on the device service.
#[derive(Clone, Copy, Debug, PartialEq, Eq, Structural)]
pub enum SwitchType {
    Light,
    Curtain,
}

/// Why a request to the device service failed.
#[derive(Clone, Copy, Debug)]
pub enum ProxyError {
    /// A service URL could not be parsed.
    InvalidUrl,
    /// The service answered a change of `name` with a status other than success.
    ChangeFailed { name: &'static str, status: u16 },
}

/// The state document of a light on the device service.
#[derive(Clone, Copy, Debug, PartialEq, Eq, Structural)]
pub struct LightState {
    pub is_on: bool,
}

/// The state document of a curtain on the device service.
#[derive(Clone, Copy, Debug, PartialEq, Eq, Structural)]
pub struct CurtainState {
    pub is_open: bool,
}

/// A state document exchanged with the device service.
#[derive(Clone, Copy, Debug, PartialEq, Eq, Structural)]
pub enum StateBody {
    Light(LightState),
    Curtain(CurtainState),
}

/// The power state a document reports: a light's `is_on`, a curtain's `is_open`.
pub open spec fn body_power(body: StateBody) -> bool {
    match body {
        StateBody::Light(s) => s.is_on,
        StateBody::Curtain(s) => s.is_open,
    }
}

/// The document that sets a device of kind `tp` to `is_on`.
pub open spec fn body_for(tp: SwitchType, is_on: bool) -> StateBody {
    match tp {
        SwitchType::Light => StateBody::Light(LightState { is_on }),
        SwitchType::Curtain => StateBody::Curtain(CurtainState { is_open: is_on }),
    }
}

/// An HTTP status counts as success when it lies in `200..300`.
pub open spec fn status_ok(status: u16) -> bool {
    200 <= status < 300
}

/// `http://localhost:<port>`, the root of the device service.
pub open spec fn service_root() -> Seq<char> {
    "http://localhost:"@ + decimal(OLD_SERVICE_PORT as nat)
}

/// The URL that reports the state of device `name`.
pub open spec fn info_url_text(name: Seq<char>) -> Seq<char> {
    service_root() + "/odin/api/v1/device/"@ + name + "/info"@
}

/// The URL that changes the state of device `name`.
pub open spec fn update_url_text(name: Seq<char>) -> Seq<char> {
    service_root() + "/odin/api/v1/device/"@ + name + "/update"@
}

/// The URL that toggles the switch group `name`.
pub open spec fn toggle_url_text(name: Seq<char>) -> Seq<char> {
    service_root() + "/odin/api/switch/"@ + name + "/toggle"@
}

fn service_url(prefix: &str, name: &str, suffix: &str) -> (url: String)
    ensures
        url@ == service_root() + prefix@ + name@ + suffix@,
{
    let mut url = String::from_str("http://localhost:");
    push_decimal(&mut url, OLD_SERVICE_PORT as u64);
    url.append(prefix);
    url.append(name);
    url.append(suffix);
    url
}

/// Builds the URL that reports the state of device `name`.
pub fn info_url(name: &str) -> (url: String)
    ensures
        url@ == info_url_text(name@),
{
    service_url("/odin/api/v1/device/", name, "/info")
}

/// Builds the URL that changes the state of device `name`.
pub fn update_url(name: &str) -> (url: String)
    ensures
        url@ == update_url_text(name@),
{
    service_url("/odin/api/v1/device/", name, "/update")
}

/// Builds the URL that toggles the switch group `name`.
pub fn toggle_url(name: &str) -> (url: String)
    ensures
        url@ == toggle_url_text(name@),
{
    service_url("/odin/api/switch/", name, "/toggle")
}

/// Whether an HTTP status means success (`200..300`), as `StatusCode::is_success` says.
pub fn is_success(status: u16) -> (ok: bool)
    ensures
        ok == status_ok(status),
{
    200 <= status && status < 300
}

/// The power state a document reports.
pub fn power_of(body: &StateBody) -> (on: bool)
    ensures
        on == body_power(*body),
{
    match body {
        StateBody::Light(s) => s.is_on,
        StateBody::Curtain(s) => s.is_open,
    }
}

/// A light or curtain that the device service drives over HTTP.
pub struct Switch {
    name: &'static str,
    info_url: reqwest::Url,
    update_url: reqwest::Url,
    tp: SwitchType,
}

impl Switch {
    /// The switch that `Switch::new(name, tp)` builds, or `None` where one of
    /// its two URLs does not parse.
    pub closed spec fn built(name: &'static str, tp: SwitchType) -> Option<Switch> {
        match (parsed_url(info_url_text(name@)), parsed_url(update_url_text(name@))) {
            (Some(i), Some(u)) => Some(Switch::assembled(name, tp, i, u)),
            _ => None,
        }
    }

    /// The switch for device `name` of kind `tp` with the URLs `info` and `update`.
    pub closed spec fn assembled(
        name: &'static str,
        tp: SwitchType,
        info: reqwest::Url,
        update: reqwest::Url,
    ) -> Switch {
        Switch { name, info_url: info, update_url: update, tp }
    }

    /// What `built` holds: a switch exactly when both URLs parse, named
    /// `name`, of kind `tp`, with the two parsed URLs.
    pub proof fn lemma_built(name: &'static str, tp: SwitchType)
        ensures
            Switch::built(name, tp) is Some <==> (parsed_url(info_url_text(name@)) is Some
                && parsed_url(update_url_text(name@)) is Some),
            Switch::built(name, tp) matches Some(s) ==> s.device_name() == name@ && s.kind() == tp
                && Some(s.info_target()) == parsed_url(info_url_text(name@)) && Some(
                s.update_target(),
            ) == parsed_url(update_url_text(name@)),
    {
    }

    /// The device's name on the service.
    pub closed spec fn device_name(&self) -> Seq<char> {
        self.name@
    }

    /// What the device is.
    pub closed spec fn kind(&self) -> SwitchType {
        self.tp
    }

    /// Where the device's state is read.
    pub closed spec fn info_target(&self) -> reqwest::Url {
        self.info_url
    }

    /// Where the device's state is changed.
    pub closed spec fn update_target(&self) -> reqwest::Url {
        self.update_url
    }

    /// Assembles a switch from the outcomes of parsing its two URLs: fails
    /// with the first failure, else holds both URLs.
    pub fn from_urls(
        name: &'static str,
        tp: SwitchType,
        info: Result<reqwest::Url, ProxyError>,
        update: Result<reqwest::Url, ProxyError>,
    ) -> (sw: Result<Switch, ProxyError>)
        ensures
            match (info, update) {
                (Ok(i), Ok(u)) => sw == Ok::<Switch, ProxyError>(Switch::assembled(name, tp, i, u))
                    && Switch::assembled(name, tp, i, u).device_name() == name@ && Switch::assembled(
                    name,
                    tp,
                    i,
                    u,
                ).kind() == tp && Switch::assembled(name, tp, i, u).info_target() == i
                    && Switch::assembled(name, tp, i, u).update_target() == u,
                (Err(e), _) => sw matches Err(f) && f == e,
                (Ok(_), Err(e)) => sw matches Err(f) && f == e,
            },
    {
        let info_url = match info {
            Ok(u) => u,
            Err(e) => return Err(e),
        };
        let update_url = match update {
            Ok(u) => u,
            Err(e) => return Err(e),
        };
        Ok(Switch { name, info_url, update_url, tp })
    }

    /// A switch for device `name` of kind `tp`, with its state and update
    /// URLs on the device service; fails where either URL does not parse.
    pub fn new(name: &'static str, tp: SwitchType) -> (sw: Result<Switch, ProxyError>)
        ensures
            match (parsed_url(info_url_text(name@)), parsed_url(update_url_text(name@))) {
                (Some(i), Some(u)) => sw matches Ok(s) && s.device_name() == name@ && s.kind()
                    == tp && s.info_target() == i && s.update_target() == u,
                _ => sw matches Err(e) && e is InvalidUrl,
            },
            sw == (match Switch::built(name, tp) {
                Some(s) => Ok(s),
                None => Err(ProxyError::InvalidUrl),
            }),
    {
        let info = parse_url(info_url(name).as_str());
        let update = parse_url(update_url(name).as_str());
        Switch::from_urls(name, tp, info, update)
    }

    /// A second switch for the same device.
    pub fn duplicate(&self) -> (copy: Switch)
        ensures
            copy == *self,
    {
        Switch {
            name: self.name,
            info_url: clone_url(&self.info_url),
            update_url: clone_url(&self.update_url),
            tp: self.tp,
        }
    }

    /// The device's name on the service.
    pub fn name(&self) -> (name: &'static str)
        ensures
            name@ == self.device_name(),
    {
        self.name
    }

    /// What the device is.
    pub fn tp(&self) -> (tp: SwitchType)
        ensures
            tp == self.kind(),
    {
        self.tp
    }

    /// Where the device's state is read.
    pub fn info_url(&self) -> (url: &reqwest::Url)
        ensures
            *url == self.info_target(),
    {
        &self.info_url
    }

    /// Where the device's state is changed.
    pub fn update_url(&self) -> (url: &reqwest::Url)
        ensures
            *url == self.update_target(),
    {
        &self.update_url
    }

    /// The document to post to set the device to `is_on`.
    pub fn update_body(&self, is_on: bool) -> (body: StateBody)
        ensures
            body == body_for(self.kind(), is_on),
    {
        match self.tp {
            SwitchType::Light => StateBody::Light(LightState { is_on }),
            SwitchType::Curtain => StateBody::Curtain(CurtainState { is_open: is_on }),
        }
    }

    /// The document that flips the device, given the state it reported.
    pub fn switch_body(&self, reported: &StateBody) -> (body: StateBody)
        ensures
            body == body_for(self.kind(), !body_power(*reported)),
    {
        self.update_body(!power_of(reported))
    }

    /// What a change request comes to, given the status the service answered.
    pub fn update_result(&self, status: u16) -> (r: Result<(), ProxyError>)
        ensures
            status_ok(status) ==> r is Ok,
            !status_ok(status) ==> (r matches Err(ProxyError::ChangeFailed { name, status: s })
                && name@ == self.device_name() && s == status),
    {
        if is_success(status) {
            Ok(())
        } else {
            Err(ProxyError::ChangeFailed { name: self.name, status })
        }
    }
}

/// A group switch on the device service that turns a set of devices off.
pub struct Toggle {
    name: &'static str,
    url: reqwest::Url,
}

impl Toggle {
    /// The toggle that `Toggle::new(name)` builds, or `None` where its URL does not parse.
    pub closed spec fn built(name: &'static str) -> Option<Toggle> {
        match parsed_url(toggle_url_text(name@)) {
            Some(u) => Some(Toggle::assembled(name, u)),
            None => None,
        }
    }

    /// The toggle for group `name` with the URL `url`.
    pub closed spec fn assembled(name: &'static str, url: reqwest::Url) -> Toggle {
        Toggle { name, url }
    }

    /// What `built` holds: a toggle exactly when the URL parses, named `name`,
    /// with the parsed URL.
    pub proof fn lemma_built(name: &'static str)
        ensures
            Toggle::built(name) is Some <==> parsed_url(toggle_url_text(name@)) is Some,
            Toggle::built(name) matches Some(t) ==> t.group_name() == name@ && Some(t.target())
                == parsed_url(toggle_url_text(name@)),
    {
    }

    /// The group's name on the service.
    pub closed spec fn group_name(&self) -> Seq<char> {
        self.name@
    }

    /// Where the group is toggled.
    pub closed spec fn target(&self) -> reqwest::Url {
        self.url
    }

    /// Assembles a toggle from the outcome of parsing its URL.
    pub fn from_url(name: &'static str, url: Result<reqwest::Url, ProxyError>) -> (t: Result<
        Toggle,
        ProxyError,
    >)
        ensures
            match url {
                Ok(u) => t == Ok::<Toggle, ProxyError>(Toggle::assembled(name, u))
                    && Toggle::assembled(name, u).group_name() == name@ && Toggle::assembled(
                    name,
                    u,
                ).target() == u,
                Err(e) => t matches Err(f) && f == e,
            },
    {
        match url {
            Ok(u) => Ok(Toggle { name, url: u }),
            Err(e) => Err(e),
        }
    }

    /// A toggle for the switch group `name`; fails where its URL does not parse.
    pub fn new(name: &'static str) -> (t: Result<Toggle, ProxyError>)
        ensures
            match parsed_url(toggle_url_text(name@)) {
                Some(u) => t matches Ok(tg) && tg.group_name() == name@ && tg.target() == u,
                None => t matches Err(e) && e is InvalidUrl,
            },
            t == (match Toggle::built(name) {
                Some(tg) => Ok(tg),
                None => Err(ProxyError::InvalidUrl),
            }),
    {
        Toggle::from_url(name, parse_url(toggle_url(name).as_str()))
    }

    /// The group's name on the service.
    pub fn name(&self) -> (name: &'static str)
        ensures
            name@ == self.group_name(),
    {
        self.name
    }

    /// Where the group is toggled.
    pub fn url(&self) -> (url: &reqwest::Url)
        ensures
            *url == self.target(),
    {
        &self.url
    }

    /// What a toggle request comes to, given the status the service answered.
    pub fn toggle_result(&self, status: u16) -> (r: Result<(), ProxyError>)
        ensures
            status_ok(status) ==> r is Ok,
            !status_ok(status) ==> (r matches Err(ProxyError::ChangeFailed { name, status: s })
                && name@ == self.group_name() && s == status),
    {
        if is_success(status) {
            Ok(())
        } else {
            Err(ProxyError::ChangeFailed { name: self.name, status })
        }
    }
}

/// Reading back what an update wrote gives the written state: the document
/// that sets a device to `is_on` reports `is_on`.
pub proof fn lemma_update_body_reads_back(tp: SwitchType, is_on: bool)
    ensures
        body_power(body_for(tp, is_on)) == is_on,
{
}

/// Switching flips the device: the document sent after a reported state
/// reports the opposite state, in the shape of the device's kind.
pub proof fn lemma_switch_body_flips(tp: SwitchType, reported: StateBody)
    ensures
        body_power(body_for(tp, !body_power(reported))) == !body_power(reported),
        body_for(tp, !body_power(reported)) is Light <==> tp == SwitchType::Light,
{
}

} // verus!
