//! What the bot does in answer to a message. The decisions are made here, on
//! plain values; the program around the library carries out each step (a
//! reply, a request to the server, a voice connection) and hands back what
//! came of it.

use vstd::prelude::*;
use crate::channel::{ChannelInfo, find_voice_channel, first_voice_named};
use crate::command::{Command, args_of, command_of, join_args, join_spaces, parse};

verus! {

/// The title of the message that lists the channels.
pub const LISTING_TITLE: &'static str = "Guild channels";

/// The colour of the message that lists the channels (green).
pub const LISTING_COLOUR: u32 = 0x00FF00;

/// The fixed replies of the bot.
#[derive(Clone, Copy, Debug, PartialEq, Eq, Structural)]
pub enum Reply {
    Pong,
    LeftVoice,
    NotInVoice,
    ChannelNotFound,
    MissingChannelName,
    MissingActivity,
    ActivitySet,
}

/// The text of a reply.
pub open spec fn reply_text(r: Reply) -> Seq<char> {
    match r {
        Reply::Pong => "Pong!"@,
        Reply::LeftVoice => "I left the voice channel !"@,
        Reply::NotInVoice => "I'm not in a voice channel!"@,
        Reply::ChannelNotFound => "Channel with this name not found!"@,
        Reply::MissingChannelName => "Please specify the channel name"@,
        Reply::MissingActivity => "Please specify the activity"@,
        Reply::ActivitySet => "Activity set !"@,
    }
}

impl Reply {
    /// The text that the bot sends for this reply.
    pub fn text(&self) -> (r: &'static str)
        ensures
            r@ == reply_text(*self),
    {
        match self {
            Reply::Pong => "Pong!",
            Reply::LeftVoice => "I left the voice channel !",
            Reply::NotInVoice => "I'm not in a voice channel!",
            Reply::ChannelNotFound => "Channel with this name not found!",
            Reply::MissingChannelName => "Please specify the channel name",
            Reply::MissingActivity => "Please specify the activity",
            Reply::ActivitySet => "Activity set !",
        }
    }
}

/// The first thing the bot does in answer to a message.
#[derive(Clone, Debug)]
pub enum Step {
    /// Send this reply to the message's channel.
    Say(Reply),
    /// Fetch the server's channels and send their listing.
    ListChannels,
    /// Leave the server's voice channel, then answer by what came of it.
    LeaveVoice,
    /// Fetch the server's channels and join the voice channel of this name.
    JoinVoice(Vec<char>),
    /// Show this text as what the bot is playing, then say so.
    SetActivity(Vec<char>),
    /// Do nothing.
    Ignore,
}

/// Whether `r` is the bot's first step in answer to a message whose text is
/// `content`.
pub open spec fn answers(r: Step, content: Seq<char>) -> bool {
    let args = args_of(content);
    match command_of(content) {
        Command::Ping => r == Step::Say(Reply::Pong),
        Command::Channels => r is ListChannels,
        Command::LeaveVoice => r is LeaveVoice,
        Command::JoinVoice => if args.len() == 1 {
            r is JoinVoice && r->JoinVoice_0@ == args[0]
        } else {
            r == Step::Say(Reply::MissingChannelName)
        },
        Command::SetActivity => if join_spaces(args).len() == 0 {
            r == Step::Say(Reply::MissingActivity)
        } else {
            r is SetActivity && r->SetActivity_0@ == join_spaces(args)
        },
        Command::Other => r is Ignore,
    }
}

/// The bot's first step in answer to a message whose text is `content`.
pub fn respond(content: &Vec<char>) -> (r: Step)
    ensures
        answers(r, content@),
{
    let mut p = parse(content);
    match p.command {
        Command::Ping => Step::Say(Reply::Pong),
        Command::Channels => Step::ListChannels,
        Command::LeaveVoice => Step::LeaveVoice,
        Command::JoinVoice => {
            if p.args.len() == 1 {
                let name = p.args.remove(0);
                Step::JoinVoice(name)
            } else {
                Step::Say(Reply::MissingChannelName)
            }
        },
        Command::SetActivity => {
            let activity = join_args(&p.args);
            if activity.len() == 0 {
                Step::Say(Reply::MissingActivity)
            } else {
                Step::SetActivity(activity)
            }
        },
        Command::Other => Step::Ignore,
    }
}

/// What came of leaving the voice channel.
#[derive(Clone, Copy, Debug, PartialEq, Eq, Structural)]
pub enum LeaveOutcome {
    /// The bot left the channel.
    Left,
    /// The bot was in no voice channel of the server.
    NotInCall,
    /// Leaving failed for another reason.
    Failed,
}

/// The reply to send once the bot has tried to leave the voice channel, if
/// any: none where leaving failed for a reason other than not being in one.
pub fn leave_reply(outcome: LeaveOutcome) -> (r: Option<Reply>)
    ensures
        outcome == LeaveOutcome::Left ==> r == Some(Reply::LeftVoice),
        outcome == LeaveOutcome::NotInCall ==> r == Some(Reply::NotInVoice),
        outcome == LeaveOutcome::Failed ==> r is None,
{
    match outcome {
        LeaveOutcome::Left => Some(Reply::LeftVoice),
        LeaveOutcome::NotInCall => Some(Reply::NotInVoice),
        LeaveOutcome::Failed => None,
    }
}

/// The voice channel to join among the server's channels: the id of the first
/// voice channel called `name`, or the reply that none is.
pub fn join_target(channels: &Vec<ChannelInfo>, name: &Vec<char>) -> (r: Result<u64, Reply>)
    ensures
        match first_voice_named(channels@, name@) {
            Some(id) => r == Ok::<u64, Reply>(id),
            None => r == Err::<u64, Reply>(Reply::ChannelNotFound),
        },
{
    match find_voice_channel(channels, name) {
        Some(id) => Ok(id),
        None => Err(Reply::ChannelNotFound),
    }
}

} // verus!
