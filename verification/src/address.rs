//! Choosing the peer to dial at start-up.
//!
//! The user is asked for an address until one is dialed with success, or a
//! blank line says to dial nobody. The address handed back is the last
//! non-blank line that was typed (empty when none was).

use vstd::prelude::*;

verus! {

/// Whether libp2p reads this text as a multiaddress.
pub uninterp spec fn multiaddr_accepts(text: Seq<char>) -> bool;

/// The binary encoding of the multiaddress that libp2p reads from this text.
pub uninterp spec fn multiaddr_bytes(text: Seq<char>) -> Seq<u8>;

/// Reads `text` with `<libp2p::Multiaddr as FromStr>::from_str` and, when it
/// parses, hands back the address's binary encoding (`Multiaddr::to_vec`).
/// Claims: whether it parses and the bytes it parses to depend on the text
/// alone (named `multiaddr_accepts` and `multiaddr_bytes`); empty text parses
/// (the parser reads an empty first part and no protocol); non-empty text
/// that does not start with `/` is refused. Which protocol strings parse, and
/// their encodings, are left unsaid.
#[verifier::external_body]
fn parse_multiaddr(text: &str) -> (addr: Option<Vec<u8>>)
    ensures
        addr is Some <==> multiaddr_accepts(text@),
        addr matches Some(bytes) ==> bytes@ == multiaddr_bytes(text@),
        text@.len() == 0 ==> addr is Some,
        text@.len() > 0 && text@[0] != '/' ==> addr is None,
{
    match text.parse::<libp2p::Multiaddr>() {
        Ok(a) => Some(a.to_vec()),
        Err(_) => None,
    }
}

/// Where the address prompt stands.
#[derive(Debug, Clone, PartialEq, Eq)]
pub enum Prompt {
    /// Waiting for a line; `last` is the last non-blank line typed so far.
    Asking(String),
    /// A line parsed as an address and is being dialed.
    Dialing(String),
    /// Finished with this address.
    Done(String),
}

/// What a [`Prompt`] says, with its texts as character sequences.
pub enum PromptView {
    Asking(Seq<char>),
    Dialing(Seq<char>),
    Done(Seq<char>),
}

impl View for Prompt {
    type V = PromptView;

    open spec fn view(&self) -> PromptView {
        match self {
            Prompt::Asking(last) => PromptView::Asking(last@),
            Prompt::Dialing(candidate) => PromptView::Dialing(candidate@),
            Prompt::Done(address) => PromptView::Done(address@),
        }
    }
}

/// What happened outside since the prompt last decided.
#[derive(Debug, Clone, PartialEq, Eq)]
pub enum PromptEvent {
    /// The user typed this line.
    Line(String),
    /// The dial that the prompt asked for succeeded (`true`) or failed.
    Dialed(bool),
}

/// What a [`PromptEvent`] says.
pub enum PromptEventView {
    Line(Seq<char>),
    Dialed(bool),
}

impl View for PromptEvent {
    type V = PromptEventView;

    open spec fn view(&self) -> PromptEventView {
        match self {
            PromptEvent::Line(line) => PromptEventView::Line(line@),
            PromptEvent::Dialed(ok) => PromptEventView::Dialed(*ok),
        }
    }
}

/// What the prompt asks to be done next.
#[derive(Debug, Clone, PartialEq, Eq)]
pub enum PromptAction {
    /// Show the prompt and read a line.
    Ask,
    /// Dial the address with this binary encoding.
    Dial(Vec<u8>),
    /// Stop asking; this is the address chosen.
    Finish(String),
}

/// What a [`PromptAction`] says, with its address and text as sequences.
pub enum PromptActionView {
    Ask,
    Dial(Seq<u8>),
    Finish(Seq<char>),
}

impl View for PromptAction {
    type V = PromptActionView;

    open spec fn view(&self) -> PromptActionView {
        match self {
            PromptAction::Ask => PromptActionView::Ask,
            PromptAction::Dial(addr) => PromptActionView::Dial(addr@),
            PromptAction::Finish(address) => PromptActionView::Finish(address@),
        }
    }
}

/// The event fits the prompt: a line while asking, a dial outcome while
/// dialing, nothing once done.
pub open spec fn event_fits(p: PromptView, e: PromptEventView) -> bool {
    match (p, e) {
        (PromptView::Asking(_), PromptEventView::Line(_)) => true,
        (PromptView::Dialing(_), PromptEventView::Dialed(_)) => true,
        _ => false,
    }
}

/// The prompt after an event that fits it, and what it asks next.
///
/// A blank line ends the prompt with the last non-blank line. A line that
/// parses as an address is dialed, with the address parsed from it; a dial that succeeds ends the prompt with
/// that line, one that fails makes it the last line and asks again. A line
/// that does not parse becomes the last line and the prompt asks again.
pub open spec fn prompt_next(p: PromptView, e: PromptEventView) -> (PromptView, PromptActionView) {
    match (p, e) {
        (PromptView::Asking(last), PromptEventView::Line(line)) => {
            if line.len() == 0 {
                (PromptView::Done(last), PromptActionView::Finish(last))
            } else if multiaddr_accepts(line) {
                (PromptView::Dialing(line), PromptActionView::Dial(multiaddr_bytes(line)))
            } else {
                (PromptView::Asking(line), PromptActionView::Ask)
            }
        },
        (PromptView::Dialing(candidate), PromptEventView::Dialed(ok)) => {
            if ok {
                (PromptView::Done(candidate), PromptActionView::Finish(candidate))
            } else {
                (PromptView::Asking(candidate), PromptActionView::Ask)
            }
        },
        _ => (p, PromptActionView::Ask),
    }
}

impl Prompt {
    /// A prompt that has not read anything yet; it starts by asking.
    pub fn new() -> (p: Prompt)
        ensures
            p@ == PromptView::Asking(Seq::empty()),
    {
        Prompt::Asking(String::new())
    }

    /// Takes in what happened and says what to do next.
    pub fn step(self, event: PromptEvent) -> (out: (Prompt, PromptAction))
        requires
            event_fits(self@, event@),
        ensures
            (out.0@, out.1@) == prompt_next(self@, event@),
            event@ matches PromptEventView::Line(l) ==> (l.len() > 0 && l[0] != '/' ==> !multiaddr_accepts(l)),
    {
        match (self, event) {
            (Prompt::Asking(last), PromptEvent::Line(line)) => {
                if line.as_str().is_empty() {
                    let address = last.clone();
                    (Prompt::Done(last), PromptAction::Finish(address))
                } else {
                    match parse_multiaddr(line.as_str()) {
                        Some(addr) => (Prompt::Dialing(line), PromptAction::Dial(addr)),
                        None => (Prompt::Asking(line), PromptAction::Ask),
                    }
                }
            },
            (Prompt::Dialing(candidate), PromptEvent::Dialed(ok)) => {
                if ok {
                    let address = candidate.clone();
                    (Prompt::Done(candidate), PromptAction::Finish(address))
                } else {
                    (Prompt::Asking(candidate), PromptAction::Ask)
                }
            },
            (p, _) => (p, PromptAction::Ask),
        }
    }
}

/// The text the prompt would hand back if it ended now: the last non-blank
/// line, the line being dialed, or the address it finished with.
pub open spec fn remembered(p: PromptView) -> Seq<char> {
    match p {
        PromptView::Asking(last) => last,
        PromptView::Dialing(candidate) => candidate,
        PromptView::Done(address) => address,
    }
}

/// The prompt after a run of events, one after the other.
pub open spec fn replay(p: PromptView, events: Seq<PromptEventView>) -> PromptView
    decreases events.len(),
{
    if events.len() == 0 {
        p
    } else {
        replay(prompt_next(p, events[0]).0, events.drop_first())
    }
}

/// Every event of the run fits the prompt as it stands when the event comes.
pub open spec fn run_fits(p: PromptView, events: Seq<PromptEventView>) -> bool
    decreases events.len(),
{
    if events.len() == 0 {
        true
    } else {
        event_fits(p, events[0]) && run_fits(prompt_next(p, events[0]).0, events.drop_first())
    }
}

/// The last non-blank line typed during the run, or `before` when none was.
pub open spec fn last_typed(events: Seq<PromptEventView>, before: Seq<char>) -> Seq<char>
    decreases events.len(),
{
    if events.len() == 0 {
        before
    } else {
        let next = match events[0] {
            PromptEventView::Line(line) => if line.len() == 0 {
                before
            } else {
                line
            },
            PromptEventView::Dialed(_) => before,
        };
        last_typed(events.drop_first(), next)
    }
}

/// The line shown each time the prompt asks for an address.
pub open spec fn address_prompt_text() -> Seq<char> {
    "Enter an address (blank to get a new one)"@
}

/// The line shown each time the prompt asks for an address.
pub fn address_prompt() -> (text: String)
    ensures
        text@ == address_prompt_text(),
{
    String::from_str("Enter an address (blank to get a new one)")
}

/// What `format!("{:?}", text)` writes for this text.
pub uninterp spec fn debug_text(text: Seq<char>) -> Seq<char>;

/// Writes `text` with std's `Debug` for `str` (quoted, with escapes).
/// Claims only that the result depends on the text alone (named
/// `debug_text`); the quoting and escaping rules are left unsaid.
#[verifier::external_body]
fn debug_quoted(text: &str) -> (quoted: String)
    ensures
        quoted@ == debug_text(text@),
{
    format!("{:?}", text)
}

/// The line shown when the dial of the typed line succeeded.
pub fn dialed_notice(line: &str) -> (notice: String)
    ensures
        notice@ == "Dialed "@ + debug_text(line@),
{
    let mut notice = String::from_str("Dialed ");
    let quoted = debug_quoted(line);
    notice.append(quoted.as_str());
    notice
}

/// The line shown when a dial failed, given the dialer's account of why.
pub fn dial_failed_notice(reason: &str) -> (notice: String)
    ensures
        notice@ == "Dialed error"@ + reason@,
{
    let mut notice = String::from_str("Dialed error");
    notice.append(reason);
    notice
}

} // verus!
