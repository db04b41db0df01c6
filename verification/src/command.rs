//! The operator command grammar.
//!
//! One console line is split on ASCII whitespace; the first word names the
//! command. `host` and `join` take at most one argument (an address,
//! defaulting to `localhost:8080`), `msg` takes the rest of the line
//! (re-joined with single spaces), and the remaining commands take none.
//! A malformed line parses to an error and never to a command.

use vstd::prelude::*;

use crate::bytes::bytes_eq;
use crate::bytes::copy_bytes;

verus! {

/// One operator command, as typed at the console.
#[derive(PartialEq, Eq, Debug, Clone)]
pub enum Command {
    Host(Vec<u8>),
    Join(Vec<u8>),
    Leave,
    Shutdown,
    Msg(Vec<u8>),
    Quit,
    Help,
    Status,
}

/// Mathematical image of a `Command`: the same variants over `Seq<u8>`.
pub enum CommandV {
    Host(Seq<u8>),
    Join(Seq<u8>),
    Leave,
    Shutdown,
    Msg(Seq<u8>),
    Quit,
    Help,
    Status,
}

impl View for Command {
    type V = CommandV;

    open spec fn view(&self) -> CommandV {
        match self {
            Command::Host(a) => CommandV::Host(a@),
            Command::Join(a) => CommandV::Join(a@),
            Command::Leave => CommandV::Leave,
            Command::Shutdown => CommandV::Shutdown,
            Command::Msg(t) => CommandV::Msg(t@),
            Command::Quit => CommandV::Quit,
            Command::Help => CommandV::Help,
            Command::Status => CommandV::Status,
        }
    }
}

/// Why a console line failed to parse.
#[derive(PartialEq, Eq, Structural, Debug, Clone, Copy)]
pub enum ParseError {
    EmptyLine,
    HostArgCount,
    JoinArgCount,
    EmptyMessage,
    UnknownCommand,
}

/// ASCII whitespace, the separators of the command grammar.
pub open spec fn is_ws(b: u8) -> bool {
    b == 32 || b == 9 || b == 10 || b == 13
}

/// The words of `s`, accumulating a current word `cur`: maximal runs of
/// non-whitespace bytes, in order.
pub open spec fn tokens_from(s: Seq<u8>, cur: Seq<u8>) -> Seq<Seq<u8>>
    decreases s.len(),
{
    if s.len() == 0 {
        if cur.len() == 0 {
            Seq::empty()
        } else {
            seq![cur]
        }
    } else if is_ws(s[0]) {
        if cur.len() == 0 {
            tokens_from(s.drop_first(), Seq::empty())
        } else {
            seq![cur] + tokens_from(s.drop_first(), Seq::empty())
        }
    } else {
        tokens_from(s.drop_first(), cur.push(s[0]))
    }
}

/// The words of a console line.
pub open spec fn tokens(s: Seq<u8>) -> Seq<Seq<u8>> {
    tokens_from(s, Seq::empty())
}

/// The views of a vector of byte words.
pub open spec fn word_views(ws: Seq<Vec<u8>>) -> Seq<Seq<u8>> {
    ws.map_values(|w: Vec<u8>| w@)
}

/// Split a line into its whitespace-separated words.
pub fn tokenize(line: &[u8]) -> (r: Vec<Vec<u8>>)
    ensures
        word_views(r@) == tokens(line@),
{
    let mut words: Vec<Vec<u8>> = Vec::new();
    let mut cur: Vec<u8> = Vec::new();
    let mut i: usize = 0;
    proof {
        assert(line@.skip(0) =~= line@);
        assert(word_views(words@) =~= Seq::<Seq<u8>>::empty());
        assert(word_views(words@) + tokens_from(line@, cur@) =~= tokens_from(line@, cur@));
    }
    while i < line.len()
        invariant
            i <= line.len(),
            tokens(line@) == word_views(words@) + tokens_from(line@.skip(i as int), cur@),
        decreases line.len() - i,
    {
        proof {
            assert(line@.skip(i as int).drop_first() =~= line@.skip(i + 1 as int));
            assert(line@.skip(i as int)[0] == line@[i as int]);
        }
        let b = line[i];
        if b == 32 || b == 9 || b == 10 || b == 13 {
            if cur.len() > 0 {
                let ghost old_words = words@;
                let ghost old_cur = cur@;
                words.push(cur);
                cur = Vec::new();
                proof {
                    assert(tokens_from(line@.skip(i as int), old_cur) == seq![old_cur]
                        + tokens_from(line@.skip(i + 1 as int), Seq::empty()));
                    assert(word_views(words@) =~= word_views(old_words).push(old_cur));
                    assert(word_views(old_words) + (seq![old_cur] + tokens_from(
                        line@.skip(i + 1 as int),
                        Seq::empty(),
                    )) =~= word_views(words@) + tokens_from(line@.skip(i + 1 as int), Seq::empty()));
                }
            } else {
                proof {
                    assert(tokens_from(line@.skip(i as int), cur@) == tokens_from(
                        line@.skip(i + 1 as int),
                        Seq::empty(),
                    ));
                    assert(cur@ =~= Seq::<u8>::empty());
                }
            }
        } else {
            let ghost old_cur = cur@;
            cur.push(b);
            proof {
                assert(tokens_from(line@.skip(i as int), old_cur) == tokens_from(
                    line@.skip(i + 1 as int),
                    old_cur.push(b),
                ));
            }
        }
        i += 1;
    }
    proof {
        assert(line@.skip(i as int) =~= Seq::<u8>::empty());
    }
    if cur.len() > 0 {
        let ghost old_words = words@;
        let ghost old_cur = cur@;
        words.push(cur);
        proof {
            assert(word_views(words@) =~= word_views(old_words).push(old_cur));
            assert(word_views(old_words) + seq![old_cur] =~= word_views(words@));
        }
    } else {
        proof {
            assert(word_views(words@) + Seq::<Seq<u8>>::empty() =~= word_views(words@));
        }
    }
    words
}

/// The bytes of the word `host`.
pub open spec fn kw_host() -> Seq<u8> {
    seq![104u8, 111u8, 115u8, 116u8]
}

/// The bytes of the word `join`.
pub open spec fn kw_join() -> Seq<u8> {
    seq![106u8, 111u8, 105u8, 110u8]
}

/// The bytes of the word `leave`.
pub open spec fn kw_leave() -> Seq<u8> {
    seq![108u8, 101u8, 97u8, 118u8, 101u8]
}

/// The bytes of the word `shutdown`.
pub open spec fn kw_shutdown() -> Seq<u8> {
    seq![115u8, 104u8, 117u8, 116u8, 100u8, 111u8, 119u8, 110u8]
}

/// The bytes of the word `msg`.
pub open spec fn kw_msg() -> Seq<u8> {
    seq![109u8, 115u8, 103u8]
}

/// The bytes of the word `quit`.
pub open spec fn kw_quit() -> Seq<u8> {
    seq![113u8, 117u8, 105u8, 116u8]
}

/// The bytes of the word `help`.
pub open spec fn kw_help() -> Seq<u8> {
    seq![104u8, 101u8, 108u8, 112u8]
}

/// The bytes of the word `status`.
pub open spec fn kw_status() -> Seq<u8> {
    seq![115u8, 116u8, 97u8, 116u8, 117u8, 115u8]
}

/// The bytes of `localhost:8080`, the address used when `host` or `join`
/// is given no argument.
pub open spec fn default_address() -> Seq<u8> {
    seq![108u8, 111u8, 99u8, 97u8, 108u8, 104u8, 111u8, 115u8, 116u8, 58u8, 56u8, 48u8, 56u8, 48u8]
}

fn kw_host_vec() -> (r: Vec<u8>)
    ensures
        r@ == kw_host(),
{
    let mut v: Vec<u8> = Vec::new();
    v.push(104);
    v.push(111);
    v.push(115);
    v.push(116);
    proof {
        assert(v@ =~= kw_host());
    }
    v
}

fn kw_join_vec() -> (r: Vec<u8>)
    ensures
        r@ == kw_join(),
{
    let mut v: Vec<u8> = Vec::new();
    v.push(106);
    v.push(111);
    v.push(105);
    v.push(110);
    proof {
        assert(v@ =~= kw_join());
    }
    v
}

fn kw_leave_vec() -> (r: Vec<u8>)
    ensures
        r@ == kw_leave(),
{
    let mut v: Vec<u8> = Vec::new();
    v.push(108);
    v.push(101);
    v.push(97);
    v.push(118);
    v.push(101);
    proof {
        assert(v@ =~= kw_leave());
    }
    v
}

fn kw_shutdown_vec() -> (r: Vec<u8>)
    ensures
        r@ == kw_shutdown(),
{
    let mut v: Vec<u8> = Vec::new();
    v.push(115);
    v.push(104);
    v.push(117);
    v.push(116);
    v.push(100);
    v.push(111);
    v.push(119);
    v.push(110);
    proof {
        assert(v@ =~= kw_shutdown());
    }
    v
}

fn kw_msg_vec() -> (r: Vec<u8>)
    ensures
        r@ == kw_msg(),
{
    let mut v: Vec<u8> = Vec::new();
    v.push(109);
    v.push(115);
    v.push(103);
    proof {
        assert(v@ =~= kw_msg());
    }
    v
}

fn kw_quit_vec() -> (r: Vec<u8>)
    ensures
        r@ == kw_quit(),
{
    let mut v: Vec<u8> = Vec::new();
    v.push(113);
    v.push(117);
    v.push(105);
    v.push(116);
    proof {
        assert(v@ =~= kw_quit());
    }
    v
}

fn kw_help_vec() -> (r: Vec<u8>)
    ensures
        r@ == kw_help(),
{
    let mut v: Vec<u8> = Vec::new();
    v.push(104);
    v.push(101);
    v.push(108);
    v.push(112);
    proof {
        assert(v@ =~= kw_help());
    }
    v
}

fn kw_status_vec() -> (r: Vec<u8>)
    ensures
        r@ == kw_status(),
{
    let mut v: Vec<u8> = Vec::new();
    v.push(115);
    v.push(116);
    v.push(97);
    v.push(116);
    v.push(117);
    v.push(115);
    proof {
        assert(v@ =~= kw_status());
    }
    v
}

/// The address used when `host` or `join` is given no argument.
pub fn default_address_vec() -> (r: Vec<u8>)
    ensures
        r@ == default_address(),
{
    let mut v: Vec<u8> = Vec::new();
    v.push(108);
    v.push(111);
    v.push(99);
    v.push(97);
    v.push(108);
    v.push(104);
    v.push(111);
    v.push(115);
    v.push(116);
    v.push(58);
    v.push(56);
    v.push(48);
    v.push(56);
    v.push(48);
    proof {
        assert(v@ =~= default_address());
    }
    v
}

/// The words of `ws` joined with single spaces.
pub open spec fn joined(ws: Seq<Seq<u8>>) -> Seq<u8>
    decreases ws.len(),
{
    if ws.len() == 0 {
        Seq::empty()
    } else if ws.len() == 1 {
        ws[0]
    } else {
        ws[0] + seq![32u8] + joined(ws.drop_first())
    }
}

proof fn lemma_joined_push(ws: Seq<Seq<u8>>, w: Seq<u8>)
    ensures
        joined(ws.push(w)) == if ws.len() == 0 {
            w
        } else {
            joined(ws) + seq![32u8] + w
        },
    decreases ws.len(),
{
    if ws.len() == 0 {
        assert(ws.push(w) =~= seq![w]);
    } else {
        lemma_joined_push(ws.drop_first(), w);
        assert(ws.push(w).drop_first() =~= ws.drop_first().push(w));
        assert(ws.push(w)[0] == ws[0]);
        if ws.len() == 1 {
            assert(joined(ws.push(w)) == ws[0] + seq![32u8] + w);
        } else {
            assert((ws[0] + seq![32u8] + joined(ws.drop_first())) + seq![32u8] + w =~= ws[0]
                + seq![32u8] + (joined(ws.drop_first()) + seq![32u8] + w));
        }
    }
}

fn join_words(words: &Vec<Vec<u8>>, from: usize) -> (r: Vec<u8>)
    requires
        from <= words@.len(),
    ensures
        r@ == joined(word_views(words@).skip(from as int)),
{
    let mut acc: Vec<u8> = Vec::new();
    let mut i: usize = from;
    while i < words.len()
        invariant
            from <= i <= words@.len(),
            acc@ == joined(word_views(words@).subrange(from as int, i as int)),
        decreases words.len() - i,
    {
        proof {
            assert(word_views(words@).subrange(from as int, i + 1 as int) =~= word_views(
                words@,
            ).subrange(from as int, i as int).push(word_views(words@)[i as int]));
            lemma_joined_push(
                word_views(words@).subrange(from as int, i as int),
                word_views(words@)[i as int],
            );
            assert(word_views(words@)[i as int] == words@[i as int]@);
        }
        if i > from {
            acc.push(32);
        }
        acc.extend_from_slice(words[i].as_slice());
        proof {
            if i == from {
                assert(acc@ =~= word_views(words@)[i as int]);
            } else {
                assert(acc@ =~= joined(word_views(words@).subrange(from as int, i as int))
                    + seq![32u8] + word_views(words@)[i as int]);
            }
        }
        i += 1;
    }
    proof {
        assert(word_views(words@).subrange(from as int, words@.len() as int) =~= word_views(
            words@,
        ).skip(from as int));
    }
    acc
}

/// The command or error that a console line means, as a function of its
/// words.
pub open spec fn spec_parse(ts: Seq<Seq<u8>>) -> Result<CommandV, ParseError> {
    if ts.len() == 0 {
        Err(ParseError::EmptyLine)
    } else if ts[0] == kw_host() {
        if ts.len() == 1 {
            Ok(CommandV::Host(default_address()))
        } else if ts.len() == 2 {
            Ok(CommandV::Host(ts[1]))
        } else {
            Err(ParseError::HostArgCount)
        }
    } else if ts[0] == kw_join() {
        if ts.len() == 1 {
            Ok(CommandV::Join(default_address()))
        } else if ts.len() == 2 {
            Ok(CommandV::Join(ts[1]))
        } else {
            Err(ParseError::JoinArgCount)
        }
    } else if ts[0] == kw_leave() {
        Ok(CommandV::Leave)
    } else if ts[0] == kw_shutdown() {
        Ok(CommandV::Shutdown)
    } else if ts[0] == kw_msg() {
        if ts.len() < 2 {
            Err(ParseError::EmptyMessage)
        } else {
            Ok(CommandV::Msg(joined(ts.drop_first())))
        }
    } else if ts[0] == kw_quit() {
        Ok(CommandV::Quit)
    } else if ts[0] == kw_help() {
        Ok(CommandV::Help)
    } else if ts[0] == kw_status() {
        Ok(CommandV::Status)
    } else {
        Err(ParseError::UnknownCommand)
    }
}

/// Parse one console line into a command, or say why it is malformed.
///
/// The caller re-prompts on an error; a malformed line never yields a
/// command.
pub fn parse_line(line: &[u8]) -> (r: Result<Command, ParseError>)
    ensures
        match r {
            Ok(c) => Ok::<CommandV, ParseError>(c@) == spec_parse(tokens(line@)),
            Err(e) => Err::<CommandV, ParseError>(e) == spec_parse(tokens(line@)),
        },
{
    let words = tokenize(line);
    proof {
        assert(word_views(words@).len() == words@.len());
    }
    if words.len() == 0 {
        return Err(ParseError::EmptyLine);
    }
    proof {
        assert(word_views(words@)[0] == words@[0]@);
    }
    let head = &words[0];
    let kh = kw_host_vec();
    let kj = kw_join_vec();
    if bytes_eq(head.as_slice(), kh.as_slice()) {
        if words.len() == 1 {
            Ok(Command::Host(default_address_vec()))
        } else if words.len() == 2 {
            proof {
                assert(word_views(words@)[1] == words@[1]@);
            }
            Ok(Command::Host(copy_bytes(words[1].as_slice())))
        } else {
            Err(ParseError::HostArgCount)
        }
    } else if bytes_eq(head.as_slice(), kj.as_slice()) {
        if words.len() == 1 {
            Ok(Command::Join(default_address_vec()))
        } else if words.len() == 2 {
            proof {
                assert(word_views(words@)[1] == words@[1]@);
            }
            Ok(Command::Join(copy_bytes(words[1].as_slice())))
        } else {
            Err(ParseError::JoinArgCount)
        }
    } else {
        let kl = kw_leave_vec();
        let ksd = kw_shutdown_vec();
        let km = kw_msg_vec();
        let kq = kw_quit_vec();
        let khp = kw_help_vec();
        let kst = kw_status_vec();
        if bytes_eq(head.as_slice(), kl.as_slice()) {
            Ok(Command::Leave)
        } else if bytes_eq(head.as_slice(), ksd.as_slice()) {
            Ok(Command::Shutdown)
        } else if bytes_eq(head.as_slice(), km.as_slice()) {
            if words.len() < 2 {
                Err(ParseError::EmptyMessage)
            } else {
                let text = join_words(&words, 1);
                proof {
                    assert(word_views(words@).skip(1) =~= word_views(words@).drop_first());
                }
                Ok(Command::Msg(text))
            }
        } else if bytes_eq(head.as_slice(), kq.as_slice()) {
            Ok(Command::Quit)
        } else if bytes_eq(head.as_slice(), khp.as_slice()) {
            Ok(Command::Help)
        } else if bytes_eq(head.as_slice(), kst.as_slice()) {
            Ok(Command::Status)
        } else {
            Err(ParseError::UnknownCommand)
        }
    }
}

/// The command synthesized when console input ends: `Shutdown`, so that the
/// driver takes the operational failure path rather than a clean exit.
pub fn command_for_end_of_input() -> (r: Command)
    ensures
        r@ == CommandV::Shutdown,
{
    Command::Shutdown
}

} // verus!
