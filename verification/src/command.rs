//! The commands a user types at the chat prompt.

use vstd::prelude::*;

use crate::fields::{after_first_field, first_field, has_separator, split_first};

verus! {

/// A typed line, read as a command.
#[derive(Debug, Clone, PartialEq, Eq)]
pub enum Command {
    /// `set_name: <name>`: take `<name>` (the rest of the line) as this peer's name.
    SetName(String),
    /// `send: <message>`: send the rest of the line to the chat's own group.
    Send(String),
    /// `sendg: <group> <message>`: send a message to the named group.
    SendGroup(String, String),
    /// `sub: <group>`: join a group.
    Subscribe(String),
    /// `unsub: <group>`: leave a group.
    Unsubscribe(String),
    /// `ls ps`: list the known peers.
    ListPeers,
    /// `ls ts`: list the joined groups.
    ListTopics,
    /// `ls` followed by anything else: nothing to do.
    ListNothing,
    /// `help`: show the commands.
    Help,
    /// `clear`: clear the screen.
    Clear,
    /// Any other first word.
    Unknown,
}

/// What a [`Command`] says, with its texts as character sequences.
pub enum CommandView {
    SetName(Seq<char>),
    Send(Seq<char>),
    SendGroup(Seq<char>, Seq<char>),
    Subscribe(Seq<char>),
    Unsubscribe(Seq<char>),
    ListPeers,
    ListTopics,
    ListNothing,
    Help,
    Clear,
    Unknown,
}

impl View for Command {
    type V = CommandView;

    open spec fn view(&self) -> CommandView {
        match self {
            Command::SetName(n) => CommandView::SetName(n@),
            Command::Send(b) => CommandView::Send(b@),
            Command::SendGroup(g, b) => CommandView::SendGroup(g@, b@),
            Command::Subscribe(g) => CommandView::Subscribe(g@),
            Command::Unsubscribe(g) => CommandView::Unsubscribe(g@),
            Command::ListPeers => CommandView::ListPeers,
            Command::ListTopics => CommandView::ListTopics,
            Command::ListNothing => CommandView::ListNothing,
            Command::Help => CommandView::Help,
            Command::Clear => CommandView::Clear,
            Command::Unknown => CommandView::Unknown,
        }
    }
}

/// The command a line states. Its first field names the command; the
/// argument is the rest of the line after the first space (for `sendg:`,
/// the group is the first field of that rest and the message what follows
/// the group; for `sub:`, `unsub:` and `ls`, only the first field of the rest
/// counts).
pub open spec fn command_of(line: Seq<char>) -> CommandView {
    let head = first_field(line);
    let rest = after_first_field(line);
    if head == "set_name:"@ {
        CommandView::SetName(rest)
    } else if head == "send:"@ {
        CommandView::Send(rest)
    } else if head == "sendg:"@ {
        CommandView::SendGroup(first_field(rest), after_first_field(rest))
    } else if head == "sub:"@ {
        CommandView::Subscribe(first_field(rest))
    } else if head == "unsub:"@ {
        CommandView::Unsubscribe(first_field(rest))
    } else if head == "ls"@ {
        if first_field(rest) == "ps"@ {
            CommandView::ListPeers
        } else if first_field(rest) == "ts"@ {
            CommandView::ListTopics
        } else {
            CommandView::ListNothing
        }
    } else if head == "help"@ {
        CommandView::Help
    } else if head == "clear"@ {
        CommandView::Clear
    } else {
        CommandView::Unknown
    }
}

/// The line is one of the group commands but stops before its group: the
/// chat gives up on such a line rather than read it.
pub open spec fn lacks_group(line: Seq<char>) -> bool {
    let head = first_field(line);
    &&& head == "sendg:"@ || head == "sub:"@ || head == "unsub:"@
    &&& !has_separator(line)
}

/// The reason the chat gives when it gives up on a line that lacks its group.
pub open spec fn lacking_group_reason(line: Seq<char>) -> Seq<char> {
    let head = first_field(line);
    if head == "sendg:"@ {
        "Topic not setted."@
    } else if head == "sub:"@ {
        "Topic not subscribed"@
    } else {
        "Topic not unsubscribed"@
    }
}

/// Tells whether `line` is a group command without its group, and if so the
/// reason to give up on it.
pub fn missing_group(line: &str) -> (reason: Option<String>)
    ensures
        reason is Some <==> lacks_group(line@),
        reason matches Some(r) ==> r@ == lacking_group_reason(line@),
{
    let (head, rest) = split_first(line);
    if rest.is_some() {
        return None;
    }
    if head == String::from_str("sendg:") {
        Some(String::from_str("Topic not setted."))
    } else if head == String::from_str("sub:") {
        Some(String::from_str("Topic not subscribed"))
    } else if head == String::from_str("unsub:") {
        Some(String::from_str("Topic not unsubscribed"))
    } else {
        None
    }
}

/// Reads a typed line as a command.
pub fn parse_command(line: &str) -> (cmd: Command)
    requires
        !lacks_group(line@),
    ensures
        cmd@ == command_of(line@),
{
    let (head, rest) = split_first(line);
    let rest_text = match rest {
        Some(r) => r,
        None => String::new(),
    };
    if head == String::from_str("set_name:") {
        Command::SetName(rest_text)
    } else if head == String::from_str("send:") {
        Command::Send(rest_text)
    } else if head == String::from_str("sendg:") {
        let (group, body) = split_first(rest_text.as_str());
        let body_text = match body {
            Some(b) => b,
            None => String::new(),
        };
        Command::SendGroup(group, body_text)
    } else if head == String::from_str("sub:") {
        let (group, _) = split_first(rest_text.as_str());
        Command::Subscribe(group)
    } else if head == String::from_str("unsub:") {
        let (group, _) = split_first(rest_text.as_str());
        Command::Unsubscribe(group)
    } else if head == String::from_str("ls") {
        let (what, _) = split_first(rest_text.as_str());
        if what == String::from_str("ps") {
            Command::ListPeers
        } else if what == String::from_str("ts") {
            Command::ListTopics
        } else {
            Command::ListNothing
        }
    } else if head == String::from_str("help") {
        Command::Help
    } else if head == String::from_str("clear") {
        Command::Clear
    } else {
        Command::Unknown
    }
}

} // verus!
