//! Properties of the chat that span its functions.

use vstd::prelude::*;
use vstd::utf8::{decode_utf8, encode_utf8_decode_utf8, encode_utf8_valid_utf8, valid_utf8};

use crate::address::{
    event_fits, last_typed, prompt_next, remembered, replay, run_fits, PromptEventView, PromptView,
};
use crate::chat::{
    action_for, anonymous, chat_action_for, chat_bytes, chat_text, claim_for, main_group,
    name_after, name_settled, ActionView, NameClaimView,
};
use crate::command::command_of;
use crate::command::CommandView;
use crate::fields::{
    after_first_field, field_end, first_field, has_separator, is_first_space, lemma_field_end,
    lemma_field_end_bounds,
};
use crate::listing::{decimal, digit, numbered};
use crate::address::{multiaddr_accepts, multiaddr_bytes, PromptActionView};
use vstd::utf8::encode_utf8;

verus! {

/// A line is its first field, then (when it holds a space) a single space
/// and the rest: the argument of a command is exactly the text that follows
/// the first space, other spaces included.
pub proof fn lemma_line_reassembles(line: Seq<char>)
    ensures
        has_separator(line) ==> line == first_field(line) + seq![' '] + after_first_field(line),
        !has_separator(line) ==> first_field(line) == line && after_first_field(line) == Seq::<char>::empty(),
{
    lemma_field_end_bounds(line);
    if has_separator(line) {
        assert(line =~= first_field(line) + seq![' '] + after_first_field(line));
    } else {
        assert(first_field(line) =~= line);
    }
}

/// The bytes a peer publishes for a message are valid UTF-8 and decode to
/// `name: body`, so a peer that receives them shows exactly that text.
pub proof fn lemma_message_round_trip(name: Seq<char>, body: Seq<char>)
    ensures
        valid_utf8(chat_bytes(name, body)),
        decode_utf8(chat_bytes(name, body)) == chat_text(name, body),
{
    encode_utf8_valid_utf8(chat_text(name, body));
    encode_utf8_decode_utf8(chat_text(name, body));
}

/// `set_name: <name>` looks `<name>` up and takes it at once; when the
/// lookup answers, the peer keeps and claims the name if no other peer
/// provides it, and otherwise releases it and goes back to the default name.
pub proof fn lemma_chosen_name_settles(name: Seq<char>, line: Seq<char>, topic: Seq<char>, taken: bool)
    requires
        first_field(line) == "set_name:"@,
    ensures
        action_for(command_of(line), name, topic) == ActionView::FindProviders(after_first_field(line)),
        name_after(command_of(line), name) == after_first_field(line),
        claim_for(name_after(command_of(line), name), taken) == (if taken {
            NameClaimView::Release(after_first_field(line), crate::chat::name_taken_notice())
        } else {
            NameClaimView::Claim(after_first_field(line))
        }),
        name_settled(name_after(command_of(line), name), taken) == (if taken {
            anonymous()
        } else {
            after_first_field(line)
        }),
{
}

/// Reading a line changes the peer's name only when its first word is
/// `set_name:`, and the group given for `send:` matters to nothing else:
/// with any other first word the action is the same whatever that group is.
pub proof fn lemma_only_set_name_renames(name: Seq<char>, line: Seq<char>, topic: Seq<char>, other: Seq<char>)
    ensures
        first_field(line) != "set_name:"@ ==> name_after(command_of(line), name) == name,
        first_field(line) != "send:"@ ==> action_for(command_of(line), name, topic)
            == action_for(command_of(line), name, other),
{
}

/// On `set_name:` and `send:` the chat program does what the full command
/// reader does with the main group as the group of `send:`; it lets every
/// other line pass.
pub proof fn lemma_chat_program_agrees(name: Seq<char>, line: Seq<char>)
    ensures
        (command_of(line) is SetName || command_of(line) is Send) ==> chat_action_for(line, name)
            == action_for(command_of(line), name, main_group()),
        !(command_of(line) is SetName || command_of(line) is Send) ==> chat_action_for(line, name)
            == ActionView::Nothing,
{
}

/// One step keeps the prompt's remembered text in line with the last
/// non-blank line typed.
proof fn lemma_step_remembers(p: PromptView, e: PromptEventView)
    requires
        event_fits(p, e),
    ensures
        remembered(prompt_next(p, e).0) == last_typed(seq![e], remembered(p)),
{
    reveal_with_fuel(last_typed, 2);
    assert(seq![e].drop_first() =~= Seq::<PromptEventView>::empty());
}

/// Over any run of events that fit, the text the prompt remembers is the last
/// non-blank line typed (or what it remembered before the run).
pub proof fn lemma_run_remembers(p: PromptView, events: Seq<PromptEventView>)
    requires
        run_fits(p, events),
    ensures
        remembered(replay(p, events)) == last_typed(events, remembered(p)),
    decreases events.len(),
{
    if events.len() > 0 {
        let q = prompt_next(p, events[0]).0;
        lemma_step_remembers(p, events[0]);
        lemma_run_remembers(q, events.drop_first());
        assert(last_typed(seq![events[0]], remembered(p)) == remembered(q)) by {
            assert(seq![events[0]].drop_first() =~= Seq::<PromptEventView>::empty());
        }
    }
}

/// A prompt started afresh that finishes hands back the last non-blank line
/// typed, or the empty text when every line was blank.
pub proof fn lemma_prompt_hands_back_last_line(events: Seq<PromptEventView>)
    requires
        run_fits(PromptView::Asking(Seq::empty()), events),
        replay(PromptView::Asking(Seq::empty()), events) is Done,
    ensures
        replay(PromptView::Asking(Seq::empty()), events) == PromptView::Done(
            last_typed(events, Seq::empty()),
        ),
{
    lemma_run_remembers(PromptView::Asking(Seq::empty()), events);
}

/// A finished prompt takes no further event.
pub proof fn lemma_done_is_final(address: Seq<char>, e: PromptEventView)
    ensures
        !event_fits(PromptView::Done(address), e),
{
}

/// `s` holds no space.
pub open spec fn spaceless(s: Seq<char>) -> bool {
    forall|i: int| 0 <= i < s.len() ==> s[i] != ' '
}

/// A line built as a space-free word, a space and any text splits back into
/// that word and that text.
pub proof fn lemma_split_joined(word: Seq<char>, text: Seq<char>)
    requires
        spaceless(word),
    ensures
        first_field(word + seq![' '] + text) == word,
        has_separator(word + seq![' '] + text),
        after_first_field(word + seq![' '] + text) == text,
{
    let line = word + seq![' '] + text;
    assert(is_first_space(line, word.len() as int));
    lemma_field_end(line, word.len() as int);
    assert(line.take(word.len() as int) =~= word);
    assert(line.skip(word.len() + 1int) =~= text);
}

/// A space-free word is a line with a single field.
pub proof fn lemma_split_word(word: Seq<char>)
    requires
        spaceless(word),
    ensures
        first_field(word) == word,
        !has_separator(word),
        after_first_field(word) == Seq::<char>::empty(),
{
    assert(is_first_space(word, word.len() as int));
    lemma_field_end(word, word.len() as int);
    assert(word.take(word.len() as int) =~= word);
}

/// `sendg: <group> <message>` is read as a send of the whole message, every
/// later space and word included, to that group.
pub proof fn lemma_group_send_reads_back(group: Seq<char>, message: Seq<char>)
    requires
        spaceless(group),
    ensures
        command_of("sendg:"@ + seq![' '] + (group + seq![' '] + message))
            == CommandView::SendGroup(group, message),
{
    reveal_strlit("sendg:");
    reveal_strlit("set_name:");
    reveal_strlit("send:");
    lemma_split_joined("sendg:"@, group + seq![' '] + message);
    lemma_split_joined(group, message);
}

/// `send: <message>` is read as a send of the whole message.
pub proof fn lemma_send_reads_back(message: Seq<char>)
    ensures
        command_of("send:"@ + seq![' '] + message) == CommandView::Send(message),
{
    reveal_strlit("send:");
    reveal_strlit("set_name:");
    lemma_split_joined("send:"@, message);
}

/// `set_name: <name>` chooses the whole name, spaces included.
pub proof fn lemma_set_name_reads_back(name: Seq<char>)
    ensures
        command_of("set_name:"@ + seq![' '] + name) == CommandView::SetName(name),
{
    reveal_strlit("set_name:");
    lemma_split_joined("set_name:"@, name);
}

/// A group send publishes, on the group, the UTF-8 bytes of the sender's
/// whole current name, a colon, a space and the whole message.
pub proof fn lemma_group_send_publishes(
    name: Seq<char>,
    group: Seq<char>,
    message: Seq<char>,
    topic: Seq<char>,
)
    requires
        spaceless(group),
    ensures
        action_for(command_of("sendg:"@ + seq![' '] + (group + seq![' '] + message)), name, topic)
            == ActionView::Publish(group, encode_utf8(name + seq![':', ' '] + message)),
{
    lemma_group_send_reads_back(group, message);
    reveal_strlit(": ");
    assert(name + ": "@ + message =~= name + seq![':', ' '] + message);
}

/// The chat program publishes `send: <message>` on the group "mainet" as the
/// UTF-8 bytes of the sender's whole current name, a colon, a space and the
/// whole message; after `set_name: <name>` that name is the whole chosen
/// name.
pub proof fn lemma_chat_send_publishes(name: Seq<char>, chosen: Seq<char>, message: Seq<char>, before: Seq<char>)
    ensures
        chat_action_for("send:"@ + seq![' '] + message, name)
            == ActionView::Publish("mainet"@, encode_utf8(name + seq![':', ' '] + message)),
        name_after(command_of("set_name:"@ + seq![' '] + chosen), before) == chosen,
{
    lemma_send_reads_back(message);
    lemma_set_name_reads_back(chosen);
    reveal_strlit(": ");
    assert(name + ": "@ + message =~= name + seq![':', ' '] + message);
}

/// A line that is not blank and does not parse as an address leaves the
/// prompt asking, with that line remembered, whatever it remembered before.
pub proof fn lemma_bad_line_keeps_asking(last: Seq<char>, line: Seq<char>)
    requires
        line.len() > 0,
        !multiaddr_accepts(line),
    ensures
        prompt_next(PromptView::Asking(last), PromptEventView::Line(line))
            == (PromptView::Asking(line), PromptActionView::Ask),
{
}

/// A line that parses as an address is dialed, with that line's address,
/// whatever the prompt remembered before.
pub proof fn lemma_good_line_is_dialed(last: Seq<char>, line: Seq<char>)
    requires
        line.len() > 0,
        multiaddr_accepts(line),
    ensures
        prompt_next(PromptView::Asking(last), PromptEventView::Line(line))
            == (PromptView::Dialing(line), PromptActionView::Dial(multiaddr_bytes(line))),
{
}

/// The prompt ends only on a blank line or a successful dial, and then hands
/// back the text it remembered.
pub proof fn lemma_prompt_ends_only_on_blank_or_success(p: PromptView, e: PromptEventView)
    requires
        event_fits(p, e),
    ensures
        prompt_next(p, e).0 is Done <==> (e == PromptEventView::Line(Seq::empty()) || e
            == PromptEventView::Dialed(true)),
        prompt_next(p, e).0 is Done ==> prompt_next(p, e) == (
            PromptView::Done(remembered(p)),
            PromptActionView::Finish(remembered(p)),
        ),
{
    if let PromptEventView::Line(l) = e {
        if l.len() == 0 {
            assert(l =~= Seq::<char>::empty());
        }
    }
}

/// The value of a run of decimal digits, most significant first.
pub open spec fn decimal_value(s: Seq<char>) -> int
    decreases s.len(),
{
    if s.len() == 0 {
        0
    } else {
        10 * decimal_value(s.drop_last()) + (s.last() as int - '0' as int)
    }
}

/// The character written for a digit has that digit's value.
pub proof fn lemma_digit_value(d: nat)
    requires
        d < 10,
    ensures
        digit(d) as int - '0' as int == d,
        '0' <= digit(d) <= '9',
{
    reveal_strlit("0123456789");
    assert("0123456789"@ =~= seq!['0', '1', '2', '3', '4', '5', '6', '7', '8', '9']);
}

/// The decimal writing of `n` is a non-empty run of decimal digits that
/// reads back as `n`, with no leading zero unless `n` is zero.
pub proof fn lemma_decimal_reads_back(n: nat)
    ensures
        decimal(n).len() > 0,
        decimal_value(decimal(n)) == n,
        forall|i: int| 0 <= i < decimal(n).len() ==> '0' <= #[trigger] decimal(n)[i] <= '9',
        n > 0 ==> decimal(n)[0] != '0',
    decreases n,
{
    lemma_digit_value(n % 10);
    if n < 10 {
        assert(decimal(n).drop_last() =~= Seq::<char>::empty());
        assert(decimal(n).last() == digit(n));
        assert(n % 10 == n);
        assert(decimal_value(decimal(n)) == 10 * decimal_value(Seq::<char>::empty()) + (digit(n) as int - '0' as int));
    } else {
        let q = n / 10;
        lemma_decimal_reads_back(q);
        assert(decimal(n).drop_last() =~= decimal(q));
        assert(decimal(n).last() == digit(n % 10));
        assert(10 * q + n % 10 == n) by (nonlinear_arith)
            requires q == n / 10;
        assert(q > 0) by (nonlinear_arith)
            requires q == n / 10, n >= 10;
    }
}

/// The listing line for position `p` is `[`, the decimal writing of `p`
/// (which reads back as `p`), `] ` and the item: it carries the position.
pub proof fn lemma_listing_line_carries_position(p: nat, item: Seq<char>)
    ensures
        numbered(p, item) == seq!['['] + decimal(p) + seq![']', ' '] + item,
        decimal_value(decimal(p)) == p,
{
    reveal_strlit("[");
    reveal_strlit("] ");
    assert(numbered(p, item) =~= seq!['['] + decimal(p) + seq![']', ' '] + item);
    lemma_decimal_reads_back(p);
}

} // verus!
