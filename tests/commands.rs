use voicebot::channel::{channel_listing, find_voice_channel, push_decimal, same_chars, ChannelInfo};
use voicebot::command::{
    is_space_char, join_args, parse, push_all, same_text, split_on_spaces, Command,
};
use voicebot::handler::{
    join_target, leave_reply, respond, LeaveOutcome, Reply, Step, LISTING_COLOUR, LISTING_TITLE,
};

fn chars(s: &str) -> Vec<char> {
    s.chars().collect()
}

fn text(v: &[char]) -> String {
    v.iter().collect()
}

fn channel(id: u64, name: &str, voice: bool) -> ChannelInfo {
    ChannelInfo { id, name: chars(name), voice }
}

#[test]
fn split_keeps_empty_pieces() {
    let pieces = split_on_spaces(&chars("a  b "));
    let got: Vec<String> = pieces.iter().map(|p| text(p)).collect();
    assert_eq!(got, vec!["a", "", "b", ""]);
}

#[test]
fn split_of_empty_text_is_one_empty_piece() {
    let pieces = split_on_spaces(&chars(""));
    assert_eq!(pieces.len(), 1);
    assert!(pieces[0].is_empty());
}

#[test]
fn split_cuts_at_every_whitespace_character() {
    let pieces = split_on_spaces(&chars("!joinvc\tGeneral\nx\u{3000}y\u{A0}z"));
    let got: Vec<String> = pieces.iter().map(|p| text(p)).collect();
    assert_eq!(got, vec!["!joinvc", "General", "x", "y", "z"]);
}

#[test]
fn whitespace_characters_are_those_of_std() {
    for c in ['\t', '\n', '\u{0B}', '\u{0C}', '\r', ' ', '\u{85}', '\u{A0}', '\u{1680}',
        '\u{2000}', '\u{2005}', '\u{200A}', '\u{2028}', '\u{2029}', '\u{202F}', '\u{205F}',
        '\u{3000}', 'a', '!', '\u{200B}', '\u{1FFF}', '\u{0}', '\u{FEFF}']
    {
        assert_eq!(is_space_char(c), c.is_whitespace(), "{:?}", c);
    }
}

#[test]
fn push_all_appends_in_order() {
    let mut out = chars("ab");
    push_all(&mut out, &chars("cd"));
    assert_eq!(text(&out), "abcd");
    push_all(&mut out, &vec![]);
    assert_eq!(text(&out), "abcd");
}

#[test]
fn same_text_compares_every_character() {
    assert!(same_text(&chars("ping"), "ping"));
    assert!(!same_text(&chars("pong"), "ping"));
    assert!(!same_text(&chars("pin"), "ping"));
    assert!(same_chars(&chars("Général"), &chars("Général")));
    assert!(!same_chars(&chars("Général"), &chars("General")));
}

#[test]
fn parse_reads_each_command_word() {
    assert_eq!(parse(&chars("!ping")).command, Command::Ping);
    assert_eq!(parse(&chars("!channels")).command, Command::Channels);
    assert_eq!(parse(&chars("!leavevc")).command, Command::LeaveVoice);
    assert_eq!(parse(&chars("!joinvc x")).command, Command::JoinVoice);
    assert_eq!(parse(&chars("!setactivity x")).command, Command::SetActivity);
    assert_eq!(parse(&chars("!pingx")).command, Command::Other);
    assert_eq!(parse(&chars(" !ping")).command, Command::Other);
    assert_eq!(parse(&chars("")).command, Command::Other);
    assert_eq!(parse(&chars("!ping\nhi")).command, Command::Ping);
    assert_eq!(parse(&chars("!PING")).command, Command::Other);
}

#[test]
fn parse_needs_exactly_one_leading_mark() {
    assert_eq!(parse(&chars("ping")).command, Command::Other);
    assert_eq!(parse(&chars("p!ing")).command, Command::Other);
    assert_eq!(parse(&chars("!!ping")).command, Command::Other);
    assert_eq!(parse(&chars("!pi!ng")).command, Command::Other);
    assert_eq!(parse(&chars("!")).command, Command::Other);
}

#[test]
fn parse_gives_the_other_pieces_as_arguments() {
    let p = parse(&chars("!joinvc Music  room"));
    let args: Vec<String> = p.args.iter().map(|a| text(a)).collect();
    assert_eq!(args, vec!["Music", "", "room"]);
    assert!(parse(&chars("!ping")).args.is_empty());
}

#[test]
fn join_args_puts_one_space_between_neighbours() {
    let args = vec![chars("Rocket"), chars(""), chars("League")];
    assert_eq!(text(&join_args(&args)), "Rocket  League");
    assert_eq!(text(&join_args(&vec![])), "");
    assert_eq!(text(&join_args(&vec![chars(""), chars("")])), " ");
}

#[test]
fn respond_to_simple_commands() {
    assert!(matches!(respond(&chars("!ping")), Step::Say(Reply::Pong)));
    assert!(matches!(respond(&chars("!channels")), Step::ListChannels));
    assert!(matches!(respond(&chars("!leavevc now")), Step::LeaveVoice));
    assert!(matches!(respond(&chars("!hello")), Step::Ignore));
    assert!(matches!(respond(&chars("")), Step::Ignore));
    assert!(matches!(respond(&chars("ping")), Step::Ignore));
    assert!(matches!(respond(&chars("!!ping")), Step::Ignore));
    assert!(matches!(respond(&chars("pi!ng")), Step::Ignore));
    assert!(matches!(respond(&chars("channels")), Step::Ignore));
}

#[test]
fn respond_to_joinvc() {
    match respond(&chars("!joinvc General")) {
        Step::JoinVoice(name) => assert_eq!(text(&name), "General"),
        other => panic!("unexpected step {:?}", other),
    }
    match respond(&chars("!joinvc\tGeneral")) {
        Step::JoinVoice(name) => assert_eq!(text(&name), "General"),
        other => panic!("unexpected step {:?}", other),
    }
    assert!(matches!(respond(&chars("joinvc General")), Step::Ignore));
    match respond(&chars("!joinvc ")) {
        Step::JoinVoice(name) => assert!(name.is_empty()),
        other => panic!("unexpected step {:?}", other),
    }
    assert!(matches!(respond(&chars("!joinvc")), Step::Say(Reply::MissingChannelName)));
    assert!(matches!(
        respond(&chars("!joinvc Music room")),
        Step::Say(Reply::MissingChannelName)
    ));
}

#[test]
fn respond_to_setactivity() {
    match respond(&chars("!setactivity Rocket League")) {
        Step::SetActivity(a) => assert_eq!(text(&a), "Rocket League"),
        other => panic!("unexpected step {:?}", other),
    }
    match respond(&chars("!setactivity  ")) {
        Step::SetActivity(a) => assert_eq!(text(&a), " "),
        other => panic!("unexpected step {:?}", other),
    }
    assert!(matches!(respond(&chars("!setactivity")), Step::Say(Reply::MissingActivity)));
    assert!(matches!(respond(&chars("!setactivity ")), Step::Say(Reply::MissingActivity)));
}

#[test]
fn leave_outcomes_give_their_replies() {
    assert_eq!(leave_reply(LeaveOutcome::Left), Some(Reply::LeftVoice));
    assert_eq!(leave_reply(LeaveOutcome::NotInCall), Some(Reply::NotInVoice));
    assert_eq!(leave_reply(LeaveOutcome::Failed), None);
}

#[test]
fn reply_texts() {
    assert_eq!(Reply::Pong.text(), "Pong!");
    assert_eq!(Reply::LeftVoice.text(), "I left the voice channel !");
    assert_eq!(Reply::NotInVoice.text(), "I'm not in a voice channel!");
    assert_eq!(Reply::ChannelNotFound.text(), "Channel with this name not found!");
    assert_eq!(Reply::MissingChannelName.text(), "Please specify the channel name");
    assert_eq!(Reply::MissingActivity.text(), "Please specify the activity");
    assert_eq!(Reply::ActivitySet.text(), "Activity set !");
}

#[test]
fn find_voice_channel_takes_the_first_voice_match() {
    let channels = vec![
        channel(1, "Music", false),
        channel(2, "Lobby", true),
        channel(3, "Music", true),
        channel(4, "Music", true),
    ];
    assert_eq!(find_voice_channel(&channels, &chars("Music")), Some(3));
    assert_eq!(find_voice_channel(&channels, &chars("Lobby")), Some(2));
    assert_eq!(find_voice_channel(&channels, &chars("music")), None);
    assert_eq!(find_voice_channel(&vec![], &chars("Music")), None);
}

#[test]
fn join_target_reports_a_missing_channel() {
    let channels = vec![channel(10, "general", false), channel(11, "Voice", true)];
    assert_eq!(join_target(&channels, &chars("Voice")), Ok(11));
    assert_eq!(join_target(&channels, &chars("general")), Err(Reply::ChannelNotFound));
}

#[test]
fn decimal_digits() {
    let mut out = chars("id=");
    push_decimal(&mut out, 0);
    assert_eq!(text(&out), "id=0");
    let mut out = Vec::new();
    push_decimal(&mut out, 1234567890);
    assert_eq!(text(&out), "1234567890");
    let mut out = Vec::new();
    push_decimal(&mut out, u64::MAX);
    assert_eq!(text(&out), "18446744073709551615");
}

#[test]
fn listing_has_one_line_per_channel() {
    let channels = vec![channel(381, "general", false), channel(42, "Voice room", true)];
    assert_eq!(text(&channel_listing(&channels)), "381: general\n42: Voice room");
    assert_eq!(text(&channel_listing(&vec![channel(7, "", true)])), "7: ");
    assert_eq!(text(&channel_listing(&vec![])), "");
}

#[test]
fn listing_message_looks() {
    assert_eq!(LISTING_TITLE, "Guild channels");
    assert_eq!(LISTING_COLOUR, 0x00FF00);
}

#[test]
fn joining_the_pieces_gives_the_text_back() {
    for s in ["", " ", "!ping", "a  b ", "!joinvc Music room", "  x  "] {
        assert_eq!(text(&join_args(&split_on_spaces(&chars(s)))), s);
    }
    assert_eq!(text(&join_args(&split_on_spaces(&chars("a\tb\n c")))), "a b  c");
}

#[test]
fn arguments_joined_are_the_text_after_the_first_space() {
    let p = parse(&chars("!setactivity  Rocket League "));
    assert_eq!(text(&join_args(&p.args)), " Rocket League ");
    let p = parse(&chars("!setactivity\tchess\nclub"));
    assert_eq!(text(&join_args(&p.args)), "chess club");
    let p = parse(&chars("!setactivity"));
    assert!(p.args.is_empty());
}
