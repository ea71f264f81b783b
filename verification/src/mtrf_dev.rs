use vstd::prelude::*;
use vstd::string::*;
use crate::text::{decimal, push_decimal};
use crate::wire::{Cmd, Message, CH};

verus! {

/// What a radio wall switch does with a message.
#[derive(Clone, Copy, Debug, PartialEq, Eq, Structural)]
pub enum SwitchOutcome {
    /// The light changed state: run the switch's action.
    Fire,
    /// The light already was in the requested state: nothing to do.
    Keep,
    /// The command is not one a switch understands: nothing to do.
    Unsupported,
}

/// The power state after a command, and what the switch does with it.
/// `On` and `Off` fire only when they change the state; `Switch` always
/// flips it and fires; other commands leave it alone.
pub open spec fn switch_step(is_on: bool, cmd: Cmd) -> (bool, SwitchOutcome) {
    match cmd {
        Cmd::On => if is_on {
            (true, SwitchOutcome::Keep)
        } else {
            (true, SwitchOutcome::Fire)
        },
        Cmd::Off => if is_on {
            (false, SwitchOutcome::Fire)
        } else {
            (false, SwitchOutcome::Keep)
        },
        Cmd::Switch => (!is_on, SwitchOutcome::Fire),
        _ => (is_on, SwitchOutcome::Unsupported),
    }
}

/// How a switch describes itself: `MtrfSwitch(<channel>:on)` or `MtrfSwitch(<channel>:off)`.
pub open spec fn switch_text(ch: CH, is_on: bool) -> Seq<char> {
    "MtrfSwitch("@ + decimal(ch as nat) + ":"@ + (if is_on {
        "on"@
    } else {
        "off"@
    }) + ")"@
}

/// A radio wall switch bound to a channel. It remembers whether its light
/// is on and carries the action to run when the light changes state.
pub struct Switch<F> {
    is_on: bool,
    ch: CH,
    switch: F,
}

impl<F> Switch<F> {
    /// Whether the switch's light is on.
    pub closed spec fn powered(&self) -> bool {
        self.is_on
    }

    /// The channel the switch listens on.
    pub closed spec fn channel(&self) -> CH {
        self.ch
    }

    /// The action the switch runs when its light changes state.
    pub closed spec fn on_change(&self) -> F {
        self.switch
    }

    /// A switch on channel `ch` whose light is off, running `on_switch` on each change.
    pub fn on_switch(ch: CH, on_switch: F) -> (s: Switch<F>)
        ensures
            !s.powered(),
            s.channel() == ch,
            s.on_change() == on_switch,
    {
        Switch { is_on: false, ch, switch: on_switch }
    }

    /// The channel the switch listens on.
    pub fn ch(&self) -> (ch: CH)
        ensures
            ch == self.channel(),
    {
        self.ch
    }

    /// Whether the switch's light is on.
    pub fn is_on(&self) -> (on: bool)
        ensures
            on == self.powered(),
    {
        self.is_on
    }

    /// The action to run when the light changes state.
    pub fn action(&self) -> (f: &F)
        ensures
            *f == self.on_change(),
    {
        &self.switch
    }

    /// Applies a message to the switch: updates the light's state and says
    /// whether to run the action.
    pub fn on_msg(&mut self, msg: Message) -> (outcome: SwitchOutcome)
        ensures
            (final(self).powered(), outcome) == switch_step(old(self).powered(), msg.cmd),
            final(self).channel() == old(self).channel(),
            final(self).on_change() == old(self).on_change(),
    {
        match msg.cmd {
            Cmd::On => {
                if self.is_on {
                    SwitchOutcome::Keep
                } else {
                    self.is_on = true;
                    SwitchOutcome::Fire
                }
            },
            Cmd::Off => {
                if self.is_on {
                    self.is_on = false;
                    SwitchOutcome::Fire
                } else {
                    SwitchOutcome::Keep
                }
            },
            Cmd::Switch => {
                self.is_on = !self.is_on;
                SwitchOutcome::Fire
            },
            _ => SwitchOutcome::Unsupported,
        }
    }

    /// The switch's debug text, such as `MtrfSwitch(1:on)`.
    pub fn describe(&self) -> (text: String)
        ensures
            text@ == switch_text(self.channel(), self.powered()),
    {
        let mut text = String::from_str("MtrfSwitch(");
        push_decimal(&mut text, self.ch as u64);
        text.append(":");
        if self.is_on {
            text.append("on");
        } else {
            text.append("off");
        }
        text.append(")");
        text
    }
}

/// Two `Switch` commands in a row bring the light back to where it was,
/// and each of them runs the action.
pub proof fn lemma_switch_twice_restores(is_on: bool)
    ensures
        switch_step(switch_step(is_on, Cmd::Switch).0, Cmd::Switch).0 == is_on,
        switch_step(is_on, Cmd::Switch).1 == SwitchOutcome::Fire,
        switch_step(switch_step(is_on, Cmd::Switch).0, Cmd::Switch).1 == SwitchOutcome::Fire,
{
}

/// `On` and `Off` are idempotent: repeating one leaves the light as it is
/// and does not run the action again.
pub proof fn lemma_on_off_idempotent(is_on: bool, cmd: Cmd)
    requires
        cmd == Cmd::On || cmd == Cmd::Off,
    ensures
        switch_step(switch_step(is_on, cmd).0, cmd) == (switch_step(is_on, cmd).0, SwitchOutcome::Keep),
{
}

/// `On` and `Off` run the action exactly when they change the light's state,
/// and afterwards the light is on exactly after `On`.
pub proof fn lemma_fires_iff_changed(is_on: bool, cmd: Cmd)
    requires
        cmd == Cmd::On || cmd == Cmd::Off,
    ensures
        (switch_step(is_on, cmd).1 == SwitchOutcome::Fire) <==> (switch_step(is_on, cmd).0 != is_on),
        switch_step(is_on, cmd).0 == (cmd == Cmd::On),
{
}

/// Commands other than `On`, `Off` and `Switch` never change the light and never run the action.
pub proof fn lemma_other_commands_ignored(is_on: bool, cmd: Cmd)
    requires
        cmd != Cmd::On,
        cmd != Cmd::Off,
        cmd != Cmd::Switch,
    ensures
        switch_step(is_on, cmd) == (is_on, SwitchOutcome::Unsupported),
{
}

} // verus!
