use mainet::address::{address_prompt, dial_failed_notice, dialed_notice};
use mainet::listing::{decimal_text, number_items};
use mainet::address::{Prompt, PromptAction, PromptEvent};
use mainet::chat::{
    default_name, handle_chat_line, handle_input_command, main_topic, render_message,
    settle_name, Action, NameClaim,
};
use mainet::command::{missing_group, parse_command, Command};
use mainet::fields::{find_space, split_first};

fn s(text: &str) -> String {
    text.to_string()
}

#[test]
fn splits_at_the_first_space_only() {
    assert_eq!(split_first("send: a  b"), (s("send:"), Some(s("a  b"))));
    assert_eq!(split_first("help"), (s("help"), None));
    assert_eq!(split_first("ls "), (s("ls"), Some(s(""))));
    assert_eq!(split_first(""), (s(""), None));
    assert_eq!(split_first(" x"), (s(""), Some(s("x"))));
}

#[test]
fn finds_spaces_by_character() {
    assert_eq!(find_space("héllo wörld"), 5);
    assert_eq!(find_space("abc"), 3);
    assert_eq!(find_space(""), 0);
}

#[test]
fn reads_set_name_with_every_later_space() {
    assert_eq!(parse_command("set_name: Bob  the builder"), Command::SetName(s("Bob  the builder")));
    assert_eq!(parse_command("set_name:"), Command::SetName(s("")));
}

#[test]
fn reads_send_and_group_send() {
    assert_eq!(parse_command("send: hello world"), Command::Send(s("hello world")));
    assert_eq!(
        parse_command("sendg: friends hi there"),
        Command::SendGroup(s("friends"), s("hi there"))
    );
    assert_eq!(parse_command("sendg: friends"), Command::SendGroup(s("friends"), s("")));
    assert_eq!(parse_command("sendg: "), Command::SendGroup(s(""), s("")));
}

#[test]
fn reads_group_membership_commands() {
    assert_eq!(parse_command("sub: rust extra words"), Command::Subscribe(s("rust")));
    assert_eq!(parse_command("unsub: rust"), Command::Unsubscribe(s("rust")));
}

#[test]
fn reads_listing_commands() {
    assert_eq!(parse_command("ls ps"), Command::ListPeers);
    assert_eq!(parse_command("ls ts"), Command::ListTopics);
    assert_eq!(parse_command("ls ts more"), Command::ListTopics);
    assert_eq!(parse_command("ls"), Command::ListNothing);
    assert_eq!(parse_command("ls xs"), Command::ListNothing);
}

#[test]
fn reads_other_commands() {
    assert_eq!(parse_command("help"), Command::Help);
    assert_eq!(parse_command("help me"), Command::Help);
    assert_eq!(parse_command("clear"), Command::Clear);
    assert_eq!(parse_command("hello there"), Command::Unknown);
    assert_eq!(parse_command(""), Command::Unknown);
    assert_eq!(parse_command("Send: x"), Command::Unknown);
}

#[test]
fn group_commands_without_group_are_refused() {
    assert_eq!(missing_group("sendg:"), Some(s("Topic not setted.")));
    assert_eq!(missing_group("sub:"), Some(s("Topic not subscribed")));
    assert_eq!(missing_group("unsub:"), Some(s("Topic not unsubscribed")));
    assert_eq!(missing_group("sub: "), None);
    assert_eq!(missing_group("send:"), None);
    assert_eq!(missing_group("hello"), None);
}

#[test]
fn set_name_renames_and_looks_the_name_up() {
    let mut name = default_name();
    let action = handle_input_command(&mut name, &s("set_name: carol"), &main_topic());
    assert_eq!(action, Action::FindProviders(s("carol")));
    assert_eq!(name, "carol");
}

#[test]
fn send_publishes_name_and_body_on_the_given_topic() {
    let mut name = s("alice");
    let action = handle_input_command(&mut name, &s("send: hi there"), &s("lobby"));
    assert_eq!(action, Action::Publish(s("lobby"), b"alice: hi there".to_vec()));
    assert_eq!(name, "alice");
}

#[test]
fn group_send_publishes_on_the_named_group() {
    let mut name = s("alice");
    let action = handle_input_command(&mut name, &s("sendg: dev ça va"), &s("lobby"));
    assert_eq!(action, Action::Publish(s("dev"), "alice: ça va".as_bytes().to_vec()));
}

#[test]
fn membership_and_listing_actions() {
    let mut name = s("alice");
    let topic = s("lobby");
    assert_eq!(handle_input_command(&mut name, &s("sub: dev"), &topic), Action::Subscribe(s("dev")));
    assert_eq!(handle_input_command(&mut name, &s("unsub: dev"), &topic), Action::Unsubscribe(s("dev")));
    assert_eq!(handle_input_command(&mut name, &s("ls ps"), &topic), Action::ListPeers);
    assert_eq!(handle_input_command(&mut name, &s("ls ts"), &topic), Action::ListTopics);
    assert_eq!(handle_input_command(&mut name, &s("ls"), &topic), Action::Nothing);
    assert_eq!(name, "alice");
}

#[test]
fn help_clear_and_unknown_print_lines() {
    let mut name = s("alice");
    let topic = s("lobby");
    let help = vec![
        "Commands...", "help", "ls ps", "ls ts", "set_name: <name>", "send: <message>",
        "sendg: <group> <message>", "sub: <group>", "unsub: <group>",
    ];
    assert_eq!(
        handle_input_command(&mut name, &s("help"), &topic),
        Action::Print(help.into_iter().map(s).collect())
    );
    assert_eq!(
        handle_input_command(&mut name, &s("clear"), &topic),
        Action::Print(vec![s("\x1B[2J\x1B[1;1H")])
    );
    assert_eq!(
        handle_input_command(&mut name, &s("what"), &topic),
        Action::Print(vec![s("[#]No command found.")])
    );
}

#[test]
fn chat_program_reads_only_set_name_and_send() {
    let mut name = default_name();
    assert_eq!(
        handle_chat_line(&mut name, &s("send: hey")),
        Action::Publish(s("mainet"), b"anonymous: hey".to_vec())
    );
    assert_eq!(handle_chat_line(&mut name, &s("sendg:")), Action::Nothing);
    assert_eq!(handle_chat_line(&mut name, &s("help")), Action::Nothing);
    assert_eq!(handle_chat_line(&mut name, &s("set_name: dave")), Action::FindProviders(s("dave")));
    assert_eq!(name, "dave");
}

#[test]
fn free_name_is_claimed_and_kept() {
    let mut name = s("erin");
    assert_eq!(settle_name(&mut name, false), NameClaim::Claim(s("erin")));
    assert_eq!(name, "erin");
}

#[test]
fn taken_name_is_released_and_reset() {
    let mut name = s("erin");
    assert_eq!(
        settle_name(&mut name, true),
        NameClaim::Release(s("erin"), s("[#] Error Name taken, name resetted."))
    );
    assert_eq!(name, "anonymous");
}

#[test]
fn chosen_name_that_is_taken_goes_back_to_default() {
    let mut name = s("frank");
    handle_input_command(&mut name, &s("set_name: grace"), &main_topic());
    let claim = settle_name(&mut name, true);
    assert_eq!(claim, NameClaim::Release(s("grace"), s("[#] Error Name taken, name resetted.")));
    assert_eq!(name, "anonymous");
}

#[test]
fn published_message_is_shown_as_sent() {
    let mut name = s("heidi");
    let action = handle_input_command(&mut name, &s("send: grüße 👋"), &main_topic());
    match action {
        Action::Publish(_, bytes) => assert_eq!(render_message(&bytes), "heidi: grüße 👋"),
        other => panic!("unexpected action {:?}", other),
    }
}

#[test]
fn invalid_bytes_are_shown_with_replacement() {
    assert_eq!(render_message(&[0xff, b'a']), "\u{FFFD}a");
    assert_eq!(render_message(b"plain"), "plain");
    assert_eq!(render_message(&[]), "");
}

#[test]
fn blank_first_line_dials_nobody() {
    let (p, a) = Prompt::new().step(PromptEvent::Line(s("")));
    assert_eq!(p, Prompt::Done(s("")));
    assert_eq!(a, PromptAction::Finish(s("")));
}

#[test]
fn unparsable_line_is_remembered_and_asked_again() {
    let (p, a) = Prompt::new().step(PromptEvent::Line(s("not an address")));
    assert_eq!(p, Prompt::Asking(s("not an address")));
    assert_eq!(a, PromptAction::Ask);
    let (p, a) = p.step(PromptEvent::Line(s("")));
    assert_eq!(p, Prompt::Done(s("not an address")));
    assert_eq!(a, PromptAction::Finish(s("not an address")));
}

#[test]
fn parsable_line_is_dialed() {
    let line = s("/ip4/127.0.0.1/tcp/4001");
    let (p, a) = Prompt::new().step(PromptEvent::Line(line.clone()));
    assert_eq!(p, Prompt::Dialing(line.clone()));
    let expected: libp2p::Multiaddr = line.parse().unwrap();
    assert_eq!(a, PromptAction::Dial(expected.to_vec()));
    let (p, a) = p.step(PromptEvent::Dialed(true));
    assert_eq!(p, Prompt::Done(line.clone()));
    assert_eq!(a, PromptAction::Finish(line));
}

#[test]
fn failed_dial_asks_again_and_keeps_the_line() {
    let line = s("/ip4/10.0.0.1/tcp/1");
    let (p, a) = Prompt::new().step(PromptEvent::Line(line.clone()));
    let expected: libp2p::Multiaddr = line.parse().unwrap();
    assert_eq!(a, PromptAction::Dial(expected.to_vec()));
    let (p, a) = p.step(PromptEvent::Dialed(false));
    assert_eq!(p, Prompt::Asking(line.clone()));
    assert_eq!(a, PromptAction::Ask);
    let (p, a) = p.step(PromptEvent::Line(s("")));
    assert_eq!(p, Prompt::Done(line.clone()));
    assert_eq!(a, PromptAction::Finish(line));
}

#[test]
fn malformed_protocol_is_not_dialed() {
    let (p, a) = Prompt::new().step(PromptEvent::Line(s("/ip4/not-an-ip/tcp/1")));
    assert_eq!(p, Prompt::Asking(s("/ip4/not-an-ip/tcp/1")));
    assert_eq!(a, PromptAction::Ask);
}

#[test]
fn failed_dial_then_successful_dial_of_next_line() {
    let first = s("/ip4/127.0.0.1/tcp/1");
    let second = s("/ip4/127.0.0.1/tcp/2");
    let (p, a) = Prompt::new().step(PromptEvent::Line(first.clone()));
    let first_addr: libp2p::Multiaddr = first.parse().unwrap();
    assert_eq!(a, PromptAction::Dial(first_addr.to_vec()));
    let (p, a) = p.step(PromptEvent::Dialed(false));
    assert_eq!(a, PromptAction::Ask);
    let (p, a) = p.step(PromptEvent::Line(second.clone()));
    let second_addr: libp2p::Multiaddr = second.parse().unwrap();
    assert_eq!(a, PromptAction::Dial(second_addr.to_vec()));
    let (p, a) = p.step(PromptEvent::Dialed(true));
    assert_eq!(p, Prompt::Done(second.clone()));
    assert_eq!(a, PromptAction::Finish(second));
}

#[test]
fn writes_numbers_in_decimal() {
    assert_eq!(decimal_text(0), "0");
    assert_eq!(decimal_text(7), "7");
    assert_eq!(decimal_text(10), "10");
    assert_eq!(decimal_text(1204), "1204");
    assert_eq!(decimal_text(usize::MAX), usize::MAX.to_string());
}

#[test]
fn numbers_listed_items_from_one() {
    let items: Vec<String> = (0..11).map(|i| format!("item{}", i)).collect();
    let lines = number_items(&items);
    assert_eq!(lines.len(), 11);
    assert_eq!(lines[0], "[1] item0");
    assert_eq!(lines[9], "[10] item9");
    assert_eq!(lines[10], "[11] item10");
    assert!(number_items(&Vec::new()).is_empty());
}

#[test]
fn prompt_and_dial_notices() {
    assert_eq!(address_prompt(), "Enter an address (blank to get a new one)");
    assert_eq!(dialed_notice("/ip4/1.2.3.4/tcp/5"), "Dialed \"/ip4/1.2.3.4/tcp/5\"");
    assert_eq!(dialed_notice("a\"b"), "Dialed \"a\\\"b\"");
    assert_eq!(dial_failed_notice(": refused"), "Dialed error: refused");
}
