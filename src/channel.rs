//! The channels of a server as the bot sees them: finding a voice channel by
//! its name, and the text that lists them all.

use vstd::prelude::*;
use crate::command::push_all;

verus! {

/// What the bot reads of a channel: its id, its name, and whether it is a
/// voice channel.
#[derive(Clone, Debug)]
pub struct ChannelInfo {
    pub id: u64,
    pub name: Vec<char>,
    pub voice: bool,
}

/// Whether `c` is a voice channel called `name`.
pub open spec fn is_voice_named(c: ChannelInfo, name: Seq<char>) -> bool {
    c.voice && c.name@ == name
}

/// Whether `a` and `b` hold the same characters.
pub fn same_chars(a: &Vec<char>, b: &Vec<char>) -> (r: bool)
    ensures
        r == (a@ == b@),
{
    if a.len() != b.len() {
        return false;
    }
    let mut i: usize = 0;
    while i < a.len()
        invariant
            i <= a.len(),
            a.len() == b.len(),
            a@.take(i as int) == b@.take(i as int),
        decreases a.len() - i,
    {
        if a[i] != b[i] {
            assert(a@[i as int] != b@[i as int]);
            return false;
        }
        assert(a@.take(i + 1) =~= b@.take(i + 1));
        i = i + 1;
    }
    assert(a@ =~= a@.take(a.len() as int));
    assert(b@ =~= b@.take(b.len() as int));
    true
}

/// The id of the first voice channel of `cs` called `name`, if there is one.
pub open spec fn first_voice_named(cs: Seq<ChannelInfo>, name: Seq<char>) -> Option<u64>
    decreases cs.len(),
{
    if cs.len() == 0 {
        None
    } else if is_voice_named(cs[0], name) {
        Some(cs[0].id)
    } else {
        first_voice_named(cs.drop_first(), name)
    }
}

/// The id of the first voice channel of `channels` called `name`, or `None`
/// where there is none.
pub fn find_voice_channel(channels: &Vec<ChannelInfo>, name: &Vec<char>) -> (r: Option<u64>)
    ensures
        r == first_voice_named(channels@, name@),
{
    let mut i: usize = 0;
    assert(channels@.skip(0) =~= channels@);
    while i < channels.len()
        invariant
            i <= channels.len(),
            first_voice_named(channels@, name@) == first_voice_named(channels@.skip(i as int), name@),
        decreases channels.len() - i,
    {
        let c = &channels[i];
        assert(channels@.skip(i as int)[0] == channels@[i as int]);
        if c.voice && same_chars(&c.name, name) {
            return Some(c.id);
        }
        assert(channels@.skip(i as int).drop_first() =~= channels@.skip(i + 1));
        i = i + 1;
    }
    assert(channels@.skip(i as int).len() == 0);
    None
}

/// The character of a decimal digit.
pub open spec fn digit_char(d: nat) -> char {
    if d == 0 {
        '0'
    } else if d == 1 {
        '1'
    } else if d == 2 {
        '2'
    } else if d == 3 {
        '3'
    } else if d == 4 {
        '4'
    } else if d == 5 {
        '5'
    } else if d == 6 {
        '6'
    } else if d == 7 {
        '7'
    } else if d == 8 {
        '8'
    } else {
        '9'
    }
}

/// `n` written in decimal, without leading zeros.
pub open spec fn decimal(n: nat) -> Seq<char>
    decreases n,
{
    if n < 10 {
        seq![digit_char(n)]
    } else {
        decimal(n / 10).push(digit_char(n % 10))
    }
}

fn digit(d: u64) -> (c: char)
    requires
        d < 10,
    ensures
        c == digit_char(d as nat),
{
    if d == 0 {
        '0'
    } else if d == 1 {
        '1'
    } else if d == 2 {
        '2'
    } else if d == 3 {
        '3'
    } else if d == 4 {
        '4'
    } else if d == 5 {
        '5'
    } else if d == 6 {
        '6'
    } else if d == 7 {
        '7'
    } else if d == 8 {
        '8'
    } else {
        '9'
    }
}

/// Appends `n` written in decimal to `out`.
pub fn push_decimal(out: &mut Vec<char>, n: u64)
    ensures
        final(out)@ == old(out)@ + decimal(n as nat),
    decreases n,
{
    if n < 10 {
        out.push(digit(n));
    } else {
        push_decimal(out, n / 10);
        out.push(digit(n % 10));
    }
}

/// The line that lists one channel: its id, a colon, a space, its name.
pub open spec fn channel_line(c: ChannelInfo) -> Seq<char> {
    decimal(c.id as nat) + seq![':', ' '] + c.name@
}

/// The lines of all the channels, in order, with a line break between two
/// neighbours.
pub open spec fn listing(cs: Seq<ChannelInfo>) -> Seq<char>
    decreases cs.len(),
{
    if cs.len() == 0 {
        Seq::<char>::empty()
    } else if cs.len() == 1 {
        channel_line(cs[0])
    } else {
        listing(cs.drop_last()).push('\n') + channel_line(cs.last())
    }
}

/// The text that lists `channels`, one line each.
pub fn channel_listing(channels: &Vec<ChannelInfo>) -> (r: Vec<char>)
    ensures
        r@ == listing(channels@),
{
    let mut out: Vec<char> = Vec::new();
    let mut k: usize = 0;
    while k < channels.len()
        invariant
            k <= channels.len(),
            out@ == listing(channels@.take(k as int)),
        decreases channels.len() - k,
    {
        let ghost cs = channels@.take(k + 1);
        assert(cs.drop_last() =~= channels@.take(k as int));
        assert(cs.last() == channels@[k as int]);
        if k > 0 {
            out.push('\n');
        }
        let c = &channels[k];
        push_decimal(&mut out, c.id);
        out.push(':');
        out.push(' ');
        push_all(&mut out, &c.name);
        assert(out@ =~= listing(cs));
        k = k + 1;
    }
    assert(channels@.take(channels.len() as int) == channels@);
    out
}

} // verus!
