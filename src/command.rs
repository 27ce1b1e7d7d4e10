//! Commands sent to the server over its control channel.
use vstd::prelude::*;

verus! {

/// A one-shot acknowledgment slot of an async channel.
#[verifier::external_type_specification]
#[verifier::external_body]
#[verifier::reject_recursive_types(T)]
pub struct ExSender<T>(async_std::channel::Sender<T>);

/// A request for the control channel.
pub enum MinecraftCommand {
    /// Turn automatic saving back on.
    SaveOn,
    /// Write the world to disk, flushing it when the flag is set.
    SaveAll(bool),
    /// Turn automatic saving off.
    SaveOff,
    /// Show a message to every player.
    Broadcast(String),
    /// Signal the sender once every earlier command has been handled.
    Await(async_std::channel::Sender<()>),
}

/// The console line of a broadcast of `msg`.
pub open spec fn broadcast_line(msg: Seq<char>) -> Seq<char> {
    "tellraw @a {\"text\":\""@ + msg + "\",\"color\":\"light_purple\"}"@
}

/// The console line that carries a command, if it is sent over the wire.
pub open spec fn console_line(cmd: MinecraftCommand) -> Option<Seq<char>> {
    match cmd {
        MinecraftCommand::SaveOn => Some("save-on"@),
        MinecraftCommand::SaveAll(flush) => Some(
            if flush {
                "save-all flush"@
            } else {
                "save-all"@
            },
        ),
        MinecraftCommand::SaveOff => Some("save-off"@),
        MinecraftCommand::Broadcast(msg) => Some(broadcast_line(msg@)),
        MinecraftCommand::Await(_) => None,
    }
}

impl MinecraftCommand {
    /// The console line to send for this command; `None` for the handshake,
    /// which is answered on its own channel instead.
    pub fn console_line(&self) -> (r: Option<String>)
        ensures
            r matches Some(s) ==> console_line(*self) == Some(s@),
            r is None <==> console_line(*self) is None,
    {
        match self {
            MinecraftCommand::SaveOn => Some("save-on".to_string()),
            MinecraftCommand::SaveAll(flush) => {
                if *flush {
                    Some("save-all flush".to_string())
                } else {
                    Some("save-all".to_string())
                }
            },
            MinecraftCommand::SaveOff => Some("save-off".to_string()),
            MinecraftCommand::Broadcast(msg) => {
                let mut line = "tellraw @a {\"text\":\"".to_string();
                line.append(msg.as_str());
                line.append("\",\"color\":\"light_purple\"}");
                Some(line)
            },
            MinecraftCommand::Await(_) => None,
        }
    }
}

} // verus!
