use vstd::prelude::*;

verus! {

/// The recipients the bot can write to.
#[derive(Clone, Copy, Debug, PartialEq, Eq, Structural)]
pub enum User {
    Root,
}

/// Why the bot could not deliver a message.
#[derive(Clone, Copy, Debug, PartialEq, Eq, Structural)]
pub enum BotError {
    Unavailable,
}

/// The notification bot. It accepts every message and delivers none yet:
/// there is no chat service behind it.
pub struct TBot {}

impl TBot {
    /// Creates the bot; this always succeeds.
    pub fn new() -> (bot: Result<TBot, BotError>)
        ensures
            bot is Ok,
    {
        Ok(TBot {  })
    }

    /// Accepts `_msg` for `_usr`; this always succeeds.
    pub fn send_msg(&self, _usr: User, _msg: String) -> (r: Result<(), BotError>)
        ensures
            r is Ok,
    {
        Ok(())
    }
}

} // verus!
