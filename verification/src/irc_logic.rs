//! Chat-side decisions: what the relay does for one inbound chat event.
use crate::IrcMessage;
use vstd::prelude::*;

verus! {

/// One inbound chat event, as the relay models it.
pub enum IrcEvent {
    /// A channel message: its target, the sending nickname if the event
    /// carried one, and the text.
    Privmsg { target: String, nick: Option<String>, content: String },
    /// A keep-alive ping with one or two server tokens.
    Ping { server1: String, server2: Option<String> },
    /// The server signalled the end of its message of the day, or that it has
    /// none: the session is fully established.
    EndOfMotd,
    /// Anything else; the relay ignores it.
    Other,
}

/// What the chat relay does for one event.
pub enum IrcAction {
    /// Hand the message to the mesh side.
    Forward(IrcMessage),
    /// Answer a keep-alive ping with the matching pong.
    Pong { server1: String, server2: Option<String> },
    /// Report the session as ready.
    Ready,
    /// Do nothing.
    Ignore,
}

/// Decides what one inbound chat event asks of the relay: a channel message
/// for the configured channel from anyone but the relay itself is forwarded, a
/// ping is answered in kind, the end of the server's message of the day
/// reports readiness, and everything else is ignored.
pub fn handle_irc_event(ev: IrcEvent, channel: &String, own_nick: &String) -> (a: IrcAction)
    ensures
        (match ev {
            IrcEvent::Privmsg { target, nick, content } => (match nick {
                Some(n) => {
                    if target@ == channel@ && n@ != own_nick@ {
                        a == IrcAction::Forward(IrcMessage { sender: n, content })
                    } else {
                        a == IrcAction::Ignore
                    }
                },
                None => a == IrcAction::Ignore,
            }),
            IrcEvent::Ping { server1, server2 } => a == (IrcAction::Pong { server1, server2 }),
            IrcEvent::EndOfMotd => a == IrcAction::Ready,
            IrcEvent::Other => a == IrcAction::Ignore,
        }),
{
    match ev {
        IrcEvent::Privmsg { target, nick, content } => {
            match nick {
                Some(n) => {
                    if target == *channel && !(n == *own_nick) {
                        IrcAction::Forward(IrcMessage { sender: n, content })
                    } else {
                        IrcAction::Ignore
                    }
                },
                None => IrcAction::Ignore,
            }
        },
        IrcEvent::Ping { server1, server2 } => IrcAction::Pong { server1, server2 },
        IrcEvent::EndOfMotd => IrcAction::Ready,
        IrcEvent::Other => IrcAction::Ignore,
    }
}

} // verus!
