//! Reading a message as a command: the text is cut at each whitespace
//! character, the first piece names the command when it is `!` followed by
//! the command's name, and the other pieces are its arguments.

use vstd::prelude::*;

verus! {

/// Whether `c` is a whitespace character, as `char::is_whitespace` has it:
/// the characters of Unicode's `White_Space` property.
pub open spec fn is_space(c: char) -> bool {
    c == '\t' || c == '\n' || c == '\u{0B}' || c == '\u{0C}' || c == '\r' || c == ' '
        || c == '\u{85}' || c == '\u{A0}' || c == '\u{1680}' || ('\u{2000}' <= c
        && c <= '\u{200A}') || c == '\u{2028}' || c == '\u{2029}' || c == '\u{202F}'
        || c == '\u{205F}' || c == '\u{3000}'
}

/// Whether `c` is a whitespace character.
pub fn is_space_char(c: char) -> (r: bool)
    ensures
        r == is_space(c),
{
    c == '\t' || c == '\n' || c == '\u{0B}' || c == '\u{0C}' || c == '\r' || c == ' '
        || c == '\u{85}' || c == '\u{A0}' || c == '\u{1680}' || ('\u{2000}' <= c
        && c <= '\u{200A}') || c == '\u{2028}' || c == '\u{2029}' || c == '\u{202F}'
        || c == '\u{205F}' || c == '\u{3000}'
}

/// `s` with each whitespace character turned into a space.
pub open spec fn blank_spaces(s: Seq<char>) -> Seq<char> {
    s.map_values(|c: char| if is_space(c) { ' ' } else { c })
}

/// The pieces of `s` between whitespace characters, as
/// `str::split(char::is_whitespace)` gives them: one more piece than there are
/// whitespace characters, empty pieces included.
pub open spec fn split_spaces(s: Seq<char>) -> Seq<Seq<char>>
    decreases s.len(),
{
    if s.len() == 0 {
        seq![Seq::<char>::empty()]
    } else {
        let p = split_spaces(s.drop_last());
        if is_space(s.last()) {
            p.push(Seq::<char>::empty())
        } else {
            p.update(p.len() - 1, p.last().push(s.last()))
        }
    }
}

/// The pieces joined back with one space between two neighbours.
pub open spec fn join_spaces(parts: Seq<Seq<char>>) -> Seq<char>
    decreases parts.len(),
{
    if parts.len() == 0 {
        Seq::<char>::empty()
    } else if parts.len() == 1 {
        parts[0]
    } else {
        join_spaces(parts.drop_last()).push(' ') + parts.last()
    }
}

/// The text that each vector of characters holds.
pub open spec fn texts(v: Seq<Vec<char>>) -> Seq<Seq<char>> {
    v.map_values(|x: Vec<char>| x@)
}

proof fn lemma_split_nonempty(s: Seq<char>)
    ensures
        split_spaces(s).len() >= 1,
    decreases s.len(),
{
    if s.len() > 0 {
        lemma_split_nonempty(s.drop_last());
    }
}

/// Cutting a text at its whitespace and joining the pieces back with one
/// space between neighbours gives the text again, with each whitespace
/// character turned into a space: no other character is lost or added.
pub proof fn lemma_join_split(s: Seq<char>)
    ensures
        join_spaces(split_spaces(s)) == blank_spaces(s),
    decreases s.len(),
{
    if s.len() > 0 {
        let t = s.drop_last();
        let p = split_spaces(t);
        lemma_join_split(t);
        lemma_split_nonempty(t);
        if is_space(s.last()) {
            let q = p.push(Seq::<char>::empty());
            assert(q.drop_last() =~= p);
            assert(blank_spaces(s) =~= blank_spaces(t).push(' '));
            assert(join_spaces(q) =~= blank_spaces(s));
        } else {
            lemma_join_extend_last(p, s.last());
            assert(blank_spaces(s) =~= blank_spaces(t).push(s.last()));
        }
    } else {
        assert(join_spaces(split_spaces(s)) =~= blank_spaces(s));
    }
}

proof fn lemma_join_extend_last(parts: Seq<Seq<char>>, c: char)
    requires
        parts.len() >= 1,
    ensures
        join_spaces(parts.update(parts.len() - 1, parts.last().push(c))) == join_spaces(
            parts,
        ).push(c),
{
    let q = parts.update(parts.len() - 1, parts.last().push(c));
    if parts.len() == 1 {
        assert(join_spaces(q) =~= join_spaces(parts).push(c));
    } else {
        assert(q.drop_last() =~= parts.drop_last());
        assert(q.last() == parts.last().push(c));
        assert(join_spaces(q) =~= join_spaces(parts).push(c));
    }
}

/// The first piece of a text holds no whitespace. Where the text holds no
/// whitespace it is that piece alone; otherwise the piece is followed by a
/// whitespace character, and the arguments joined back are the rest of the
/// text after it, each whitespace character turned into a space.
pub proof fn lemma_first_piece_and_rest(s: Seq<char>)
    ensures
        forall|i: int|
            0 <= i < split_spaces(s)[0].len() ==> !is_space(#[trigger] split_spaces(s)[0][i]),
        args_of(s).len() == 0 ==> s == split_spaces(s)[0],
        args_of(s).len() > 0 ==> {
            let k = split_spaces(s)[0].len() as int;
            &&& k < s.len()
            &&& s.take(k) == split_spaces(s)[0]
            &&& is_space(s[k])
            &&& join_spaces(args_of(s)) == blank_spaces(s.skip(k + 1))
        },
    decreases s.len(),
{
    lemma_split_nonempty(s);
    if s.len() == 0 {
        assert(split_spaces(s)[0] =~= Seq::<char>::empty());
    } else {
        let t = s.drop_last();
        let c = s.last();
        let p = split_spaces(t);
        let q = split_spaces(s);
        lemma_first_piece_and_rest(t);
        lemma_split_nonempty(t);
        assert(s =~= t.push(c));
        let k = p[0].len() as int;
        if is_space(c) {
            assert(q == p.push(Seq::<char>::empty()));
            assert(q[0] == p[0]);
            let rp = p.drop_first();
            let rq = q.drop_first();
            assert(rq =~= rp.push(Seq::<char>::empty()));
            assert(rq.drop_last() =~= rp);
            if p.len() == 1 {
                assert(join_spaces(rq) =~= Seq::<char>::empty());
                assert(s.take(k) =~= t);
                assert(s.skip(k + 1) =~= Seq::<char>::empty());
                assert(blank_spaces(s.skip(k + 1)) =~= Seq::<char>::empty());
            } else {
                assert(join_spaces(rq) =~= join_spaces(rp).push(' '));
                assert(s.take(k) =~= t.take(k));
                assert(s.skip(k + 1) =~= t.skip(k + 1).push(c));
                assert(blank_spaces(s.skip(k + 1)) =~= blank_spaces(t.skip(k + 1)).push(' '));
            }
        } else {
            assert(q == p.update(p.len() - 1, p.last().push(c)));
            if p.len() == 1 {
                assert(q[0] == p[0].push(c));
                assert(q.drop_first().len() == 0);
                assert(s =~= q[0]);
                assert forall|i: int| 0 <= i < q[0].len() implies !is_space(#[trigger] q[0][i]) by {
                    if i < k {
                        assert(q[0][i] == p[0][i]);
                    }
                }
            } else {
                let rp = p.drop_first();
                let rq = q.drop_first();
                assert(q[0] == p[0]);
                assert(rq =~= rp.update(rp.len() - 1, rp.last().push(c)));
                lemma_join_extend_last(rp, c);
                assert(s.take(k) =~= t.take(k));
                assert(s.skip(k + 1) =~= t.skip(k + 1).push(c));
                assert(blank_spaces(s.skip(k + 1)) =~= blank_spaces(t.skip(k + 1)).push(c));
            }
        }
    }
}

/// The pieces of `content` between whitespace characters.
pub fn split_on_spaces(content: &Vec<char>) -> (r: Vec<Vec<char>>)
    ensures
        texts(r@) == split_spaces(content@),
{
    let mut done: Vec<Vec<char>> = Vec::new();
    let mut cur: Vec<char> = Vec::new();
    let mut i: usize = 0;
    while i < content.len()
        invariant
            i <= content.len(),
            texts(done@).push(cur@) == split_spaces(content@.take(i as int)),
        decreases content.len() - i,
    {
        let c = content[i];
        proof {
            assert(content@.take(i + 1).drop_last() == content@.take(i as int));
            assert(content@.take(i + 1).last() == c);
            lemma_split_nonempty(content@.take(i as int));
        }
        if is_space_char(c) {
            let ghost before = done@;
            let piece = cur;
            done.push(piece);
            cur = Vec::new();
            assert(done@ =~= before.push(piece));
            assert(texts(done@) =~= texts(before).push(piece@));
            assert(texts(done@).push(cur@) =~= split_spaces(content@.take(i + 1)));
        } else {
            let ghost before = texts(done@).push(cur@);
            cur.push(c);
            assert(texts(done@).push(cur@) =~= before.update(
                before.len() - 1,
                before.last().push(c),
            ));
        }
        i = i + 1;
    }
    assert(content@.take(content.len() as int) == content@);
    let ghost before = done@;
    let last = cur;
    done.push(last);
    assert(done@ =~= before.push(last));
    assert(texts(done@) =~= texts(before).push(last@));
    assert(texts(done@) =~= split_spaces(content@));
    done
}

/// Whether `a` holds exactly the characters of `b`.
pub fn same_text(a: &Vec<char>, b: &str) -> (r: bool)
    ensures
        r == (a@ == b@),
{
    let n = b.unicode_len();
    if a.len() != n {
        return false;
    }
    let mut i: usize = 0;
    while i < n
        invariant
            i <= n,
            n == a.len(),
            n == b@.len(),
            a@.take(i as int) == b@.take(i as int),
        decreases n - i,
    {
        if a[i] != b.get_char(i) {
            assert(a@[i as int] != b@[i as int]);
            return false;
        }
        assert(a@.take(i + 1) =~= b@.take(i + 1));
        i = i + 1;
    }
    assert(a@ =~= a@.take(n as int));
    assert(b@ =~= b@.take(n as int));
    true
}

/// The commands that the bot answers.
#[derive(Clone, Copy, Debug, PartialEq, Eq, Structural)]
pub enum Command {
    /// `!ping`: answer that the bot is there.
    Ping,
    /// `!channels`: list the channels of the server.
    Channels,
    /// `!leavevc`: leave the voice channel of the server.
    LeaveVoice,
    /// `!joinvc <name>`: join the voice channel of that name.
    JoinVoice,
    /// `!setactivity <text>`: show the text as what the bot is playing.
    SetActivity,
    /// Any other word, which the bot ignores.
    Other,
}

/// The command that a word names: `!` followed by the command's name.
pub open spec fn command_named(w: Seq<char>) -> Command {
    if w == "!ping"@ {
        Command::Ping
    } else if w == "!channels"@ {
        Command::Channels
    } else if w == "!leavevc"@ {
        Command::LeaveVoice
    } else if w == "!joinvc"@ {
        Command::JoinVoice
    } else if w == "!setactivity"@ {
        Command::SetActivity
    } else {
        Command::Other
    }
}

/// The command that a message's text gives.
pub open spec fn command_of(content: Seq<char>) -> Command {
    command_named(split_spaces(content)[0])
}

/// The arguments that a message's text gives: every piece but the first.
pub open spec fn args_of(content: Seq<char>) -> Seq<Seq<char>> {
    split_spaces(content).drop_first()
}

impl Command {
    /// The command that `word` names.
    pub fn from_word(word: &Vec<char>) -> (r: Command)
        ensures
            r == command_named(word@),
    {
        if same_text(word, "!ping") {
            Command::Ping
        } else if same_text(word, "!channels") {
            Command::Channels
        } else if same_text(word, "!leavevc") {
            Command::LeaveVoice
        } else if same_text(word, "!joinvc") {
            Command::JoinVoice
        } else if same_text(word, "!setactivity") {
            Command::SetActivity
        } else {
            Command::Other
        }
    }
}

/// A message read as a command and its arguments.
pub struct Parsed {
    pub command: Command,
    pub args: Vec<Vec<char>>,
}

/// Reads a message's text as a command and its arguments.
pub fn parse(content: &Vec<char>) -> (r: Parsed)
    ensures
        r.command == command_of(content@),
        texts(r.args@) == args_of(content@),
{
    let mut pieces = split_on_spaces(content);
    proof {
        lemma_split_nonempty(content@);
    }
    let ghost all = pieces@;
    let first = pieces.remove(0);
    assert(pieces@ == all.drop_first());
    assert(texts(pieces@) =~= texts(all).drop_first());
    let command = Command::from_word(&first);
    Parsed { command, args: pieces }
}

/// Appends the characters of `v` to `out`.
pub fn push_all(out: &mut Vec<char>, v: &Vec<char>)
    ensures
        final(out)@ == old(out)@ + v@,
{
    let ghost start = out@;
    let mut j: usize = 0;
    while j < v.len()
        invariant
            j <= v.len(),
            out@ == start + v@.take(j as int),
        decreases v.len() - j,
    {
        out.push(v[j]);
        assert(v@.take(j + 1) =~= v@.take(j as int).push(v@[j as int]));
        j = j + 1;
    }
    assert(v@.take(v.len() as int) == v@);
}

/// The arguments joined back with one space between two neighbours.
pub fn join_args(args: &Vec<Vec<char>>) -> (r: Vec<char>)
    ensures
        r@ == join_spaces(texts(args@)),
{
    let mut out: Vec<char> = Vec::new();
    let mut k: usize = 0;
    while k < args.len()
        invariant
            k <= args.len(),
            out@ == join_spaces(texts(args@.take(k as int))),
        decreases args.len() - k,
    {
        let ghost parts = texts(args@.take(k + 1));
        assert(parts.drop_last() =~= texts(args@.take(k as int)));
        assert(parts.last() == args[k as int]@);
        if k > 0 {
            out.push(' ');
        } else {
            assert(out@.len() == 0);
        }
        push_all(&mut out, &args[k]);
        assert(out@ =~= join_spaces(parts));
        k = k + 1;
    }
    assert(args@.take(args.len() as int) == args@);
    out
}

} // verus!
