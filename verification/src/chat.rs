//! What the chat does with a typed line, and how it settles the name a peer
//! claims.

use vstd::prelude::*;
use vstd::utf8::{decode_utf8, encode_utf8, valid_utf8};

use crate::command::{command_of, lacks_group, parse_command, Command, CommandView};
use crate::fields::split_first;

verus! {

/// The name a peer goes by until it has claimed one.
pub open spec fn anonymous() -> Seq<char> {
    "anonymous"@
}

/// The name a peer goes by until it has claimed one.
pub fn default_name() -> (name: String)
    ensures
        name@ == anonymous(),
{
    String::from_str("anonymous")
}

/// The group every peer of the chat joins at start-up.
pub open spec fn main_group() -> Seq<char> {
    "mainet"@
}

/// The group every peer of the chat joins at start-up.
pub fn main_topic() -> (topic: String)
    ensures
        topic@ == main_group(),
{
    String::from_str("mainet")
}

/// The text of a chat message: the sender's name, a colon, a space and the body.
pub open spec fn chat_text(name: Seq<char>, body: Seq<char>) -> Seq<char> {
    name + ": "@ + body
}

/// The bytes that carry a chat message: its text in UTF-8.
pub open spec fn chat_bytes(name: Seq<char>, body: Seq<char>) -> Seq<u8> {
    encode_utf8(chat_text(name, body))
}

/// The lines that `help` shows.
pub open spec fn help_lines() -> Seq<Seq<char>> {
    seq![
        "Commands..."@,
        "help"@,
        "ls ps"@,
        "ls ts"@,
        "set_name: <name>"@,
        "send: <message>"@,
        "sendg: <group> <message>"@,
        "sub: <group>"@,
        "unsub: <group>"@,
    ]
}

/// The terminal sequence that clears the screen and homes the cursor.
pub open spec fn clear_screen() -> Seq<char> {
    "\x1B[2J\x1B[1;1H"@
}

/// What the chat says of a line it cannot read.
pub open spec fn no_command() -> Seq<char> {
    "[#]No command found."@
}

/// What the network side of the chat is asked to do.
#[derive(Debug, Clone, PartialEq, Eq)]
pub enum Action {
    /// Ask the DHT for the peers that provide this name.
    FindProviders(String),
    /// Publish these bytes on the group of this name.
    Publish(String, Vec<u8>),
    /// Join the group of this name.
    Subscribe(String),
    /// Leave the group of this name.
    Unsubscribe(String),
    /// Show the known peers, numbered from one.
    ListPeers,
    /// Show the joined groups, numbered from one.
    ListTopics,
    /// Show these lines.
    Print(Vec<String>),
    /// Nothing.
    Nothing,
}

/// What an [`Action`] says, with its texts and bytes as sequences.
pub enum ActionView {
    FindProviders(Seq<char>),
    Publish(Seq<char>, Seq<u8>),
    Subscribe(Seq<char>),
    Unsubscribe(Seq<char>),
    ListPeers,
    ListTopics,
    Print(Seq<Seq<char>>),
    Nothing,
}

impl View for Action {
    type V = ActionView;

    open spec fn view(&self) -> ActionView {
        match self {
            Action::FindProviders(n) => ActionView::FindProviders(n@),
            Action::Publish(t, m) => ActionView::Publish(t@, m@),
            Action::Subscribe(t) => ActionView::Subscribe(t@),
            Action::Unsubscribe(t) => ActionView::Unsubscribe(t@),
            Action::ListPeers => ActionView::ListPeers,
            Action::ListTopics => ActionView::ListTopics,
            Action::Print(lines) => ActionView::Print(lines@.map_values(|l: String| l@)),
            Action::Nothing => ActionView::Nothing,
        }
    }
}

/// What the chat asks of the network for a command, given the peer's name
/// and the group that `send:` goes to.
pub open spec fn action_for(cmd: CommandView, name: Seq<char>, topic: Seq<char>) -> ActionView {
    match cmd {
        CommandView::SetName(chosen) => ActionView::FindProviders(chosen),
        CommandView::Send(body) => ActionView::Publish(topic, chat_bytes(name, body)),
        CommandView::SendGroup(group, body) => ActionView::Publish(group, chat_bytes(name, body)),
        CommandView::Subscribe(group) => ActionView::Subscribe(group),
        CommandView::Unsubscribe(group) => ActionView::Unsubscribe(group),
        CommandView::ListPeers => ActionView::ListPeers,
        CommandView::ListTopics => ActionView::ListTopics,
        CommandView::ListNothing => ActionView::Nothing,
        CommandView::Help => ActionView::Print(help_lines()),
        CommandView::Clear => ActionView::Print(seq![clear_screen()]),
        CommandView::Unknown => ActionView::Print(seq![no_command()]),
    }
}

/// The peer's name after a command: `set_name:` takes the chosen name at
/// once, every other command keeps the name.
pub open spec fn name_after(cmd: CommandView, name: Seq<char>) -> Seq<char> {
    match cmd {
        CommandView::SetName(chosen) => chosen,
        _ => name,
    }
}

/// The bytes of the message `name: body`.
fn chat_message(name: &String, body: &String) -> (bytes: Vec<u8>)
    ensures
        bytes@ == chat_bytes(name@, body@),
{
    let mut text = name.clone();
    text.append(": ");
    text.append(body.as_str());
    text.as_str().as_bytes_vec()
}

/// Owned copies of the given texts, in order.
fn lines_of(texts: &[&str]) -> (lines: Vec<String>)
    ensures
        lines@.map_values(|l: String| l@) == texts@.map_values(|t: &str| t@),
{
    let mut lines: Vec<String> = Vec::new();
    let mut i: usize = 0;
    while i < texts.len()
        invariant
            i <= texts@.len(),
            lines@.len() == i,
            forall|k: int| 0 <= k < i ==> #[trigger] lines@[k]@ == texts@[k]@,
        decreases texts@.len() - i,
    {
        lines.push(String::from_str(texts[i]));
        i = i + 1;
    }
    assert(lines@.map_values(|l: String| l@) =~= texts@.map_values(|t: &str| t@));
    lines
}

/// Reads a typed line and says what the network is to do with it; a
/// `set_name:` line also renames the peer.
pub fn handle_input_command(name: &mut String, line: &String, topic: &String) -> (action: Action)
    requires
        !lacks_group(line@),
    ensures
        action@ == action_for(command_of(line@), old(name)@, topic@),
        final(name)@ == name_after(command_of(line@), old(name)@),
{
    let cmd = parse_command(line.as_str());
    match cmd {
        Command::SetName(chosen) => {
            let lookup = chosen.clone();
            *name = chosen;
            Action::FindProviders(lookup)
        },
        Command::Send(body) => Action::Publish(topic.clone(), chat_message(name, &body)),
        Command::SendGroup(group, body) => {
            let message = chat_message(name, &body);
            Action::Publish(group, message)
        },
        Command::Subscribe(group) => Action::Subscribe(group),
        Command::Unsubscribe(group) => Action::Unsubscribe(group),
        Command::ListPeers => Action::ListPeers,
        Command::ListTopics => Action::ListTopics,
        Command::ListNothing => Action::Nothing,
        Command::Help => {
            let texts = [
                "Commands...",
                "help",
                "ls ps",
                "ls ts",
                "set_name: <name>",
                "send: <message>",
                "sendg: <group> <message>",
                "sub: <group>",
                "unsub: <group>",
            ];
            let lines = lines_of(&texts);
            assert(lines@.map_values(|l: String| l@) =~= help_lines());
            Action::Print(lines)
        },
        Command::Clear => {
            let mut lines: Vec<String> = Vec::new();
            lines.push(String::from_str("\x1B[2J\x1B[1;1H"));
            assert(lines@.map_values(|l: String| l@) =~= seq![clear_screen()]);
            Action::Print(lines)
        },
        Command::Unknown => {
            let mut lines: Vec<String> = Vec::new();
            lines.push(String::from_str("[#]No command found."));
            assert(lines@.map_values(|l: String| l@) =~= seq![no_command()]);
            Action::Print(lines)
        },
    }
}

/// What the chat program does with a typed line: it reads `set_name:` and
/// `send:` (which goes to the main group) and lets every other line pass.
pub open spec fn chat_action_for(line: Seq<char>, name: Seq<char>) -> ActionView {
    match command_of(line) {
        CommandView::SetName(chosen) => ActionView::FindProviders(chosen),
        CommandView::Send(body) => ActionView::Publish(main_group(), chat_bytes(name, body)),
        _ => ActionView::Nothing,
    }
}

/// The chat program's reading of a typed line: `set_name:` renames the peer
/// and looks the name up, `send:` publishes on the main group, and every
/// other line is let pass.
pub fn handle_chat_line(name: &mut String, line: &String) -> (action: Action)
    ensures
        action@ == chat_action_for(line@, old(name)@),
        final(name)@ == name_after(command_of(line@), old(name)@),
{
    let (head, rest) = split_first(line.as_str());
    let rest_text = match rest {
        Some(r) => r,
        None => String::new(),
    };
    if head == String::from_str("set_name:") {
        let lookup = rest_text.clone();
        *name = rest_text;
        Action::FindProviders(lookup)
    } else if head == String::from_str("send:") {
        Action::Publish(main_topic(), chat_message(name, &rest_text))
    } else {
        Action::Nothing
    }
}

/// The note shown when the chosen name belongs to another peer.
pub open spec fn name_taken_notice() -> Seq<char> {
    "[#] Error Name taken, name resetted."@
}

/// How the chat settles a name once the DHT has answered who provides it.
#[derive(Debug, Clone, PartialEq, Eq)]
pub enum NameClaim {
    /// Nobody else provides the name: start providing it.
    Claim(String),
    /// Another peer provides it: show the note, stop providing the name and
    /// go back to the default name.
    Release(String, String),
}

/// What a [`NameClaim`] says, with its texts as character sequences.
pub enum NameClaimView {
    Claim(Seq<char>),
    Release(Seq<char>, Seq<char>),
}

impl View for NameClaim {
    type V = NameClaimView;

    open spec fn view(&self) -> NameClaimView {
        match self {
            NameClaim::Claim(n) => NameClaimView::Claim(n@),
            NameClaim::Release(n, note) => NameClaimView::Release(n@, note@),
        }
    }
}

/// The claim made for `name` when the lookup found other providers
/// (`taken`) or none.
pub open spec fn claim_for(name: Seq<char>, taken: bool) -> NameClaimView {
    if taken {
        NameClaimView::Release(name, name_taken_notice())
    } else {
        NameClaimView::Claim(name)
    }
}

/// The name a peer keeps once the lookup of `name` has answered.
pub open spec fn name_settled(name: Seq<char>, taken: bool) -> Seq<char> {
    if taken {
        anonymous()
    } else {
        name
    }
}

/// Settles the peer's current name once the DHT says whether other peers
/// provide it: a free name is claimed and kept, a taken one is released and
/// the peer goes back to the default name.
pub fn settle_name(name: &mut String, taken: bool) -> (claim: NameClaim)
    ensures
        claim@ == claim_for(old(name)@, taken),
        final(name)@ == name_settled(old(name)@, taken),
{
    if taken {
        let old_name = name.clone();
        *name = default_name();
        NameClaim::Release(old_name, String::from_str("[#] Error Name taken, name resetted."))
    } else {
        NameClaim::Claim(name.clone())
    }
}

/// What `String::from_utf8_lossy` makes of these bytes.
pub uninterp spec fn lossy_text(bytes: Seq<u8>) -> Seq<char>;

/// Calls std's `String::from_utf8_lossy` and takes the text out of the `Cow`.
/// Claims: the text depends on the bytes alone (named `lossy_text`), and when
/// the bytes are valid UTF-8 it is their decoding, as the documentation says.
/// What it makes of invalid bytes (each maximal invalid run replaced by
/// U+FFFD) is left unsaid.
#[verifier::external_body]
fn from_utf8_lossy(bytes: &[u8]) -> (text: String)
    ensures
        text@ == lossy_text(bytes@),
        valid_utf8(bytes@) ==> text@ == decode_utf8(bytes@),
{
    String::from_utf8_lossy(bytes).into_owned()
}

/// The text shown for a message that arrives on a group.
pub fn render_message(data: &[u8]) -> (text: String)
    ensures
        text@ == lossy_text(data@),
        valid_utf8(data@) ==> text@ == decode_utf8(data@),
{
    from_utf8_lossy(data)
}

} // verus!
