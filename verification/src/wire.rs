//! Wire form of outbound events.
//!
//! Every event broadcast to the connected sessions is written as a JSON
//! object tagged by an explicit `type` field, so heterogeneous events can
//! share one stream and be dispatched by receivers without out-of-band
//! context. The whole serialisation — decimal rendering of channel ids,
//! JSON string escaping, and the tagged object layout — is verified
//! character by character against `serialize_spec`.

use vstd::prelude::*;

verus! {

/// An outbound event, as broadcast to every subscribed session.
#[derive(Clone, Debug, PartialEq)]
pub enum WsMessage {
    /// A post to a shared channel, tagged with its author.
    Channel { channel_id: i64, username: String, content: String },
    /// A direct message; delivered to every subscriber, filtering is the
    /// client's responsibility.
    DM { sender: String, receiver: String, content: String },
    /// An ephemeral typing signal; `sender` names the author only when the
    /// signal was addressed to somebody.
    Typing { username: String, channel_id: i64, sender: Option<String> },
}

/// Mathematical model of a [`WsMessage`].
pub enum WsMessageView {
    Channel { channel_id: int, username: Seq<char>, content: Seq<char> },
    DM { sender: Seq<char>, receiver: Seq<char>, content: Seq<char> },
    Typing { username: Seq<char>, channel_id: int, sender: Option<Seq<char>> },
}

impl View for WsMessage {
    type V = WsMessageView;

    open spec fn view(&self) -> WsMessageView {
        match self {
            WsMessage::Channel { channel_id, username, content } => WsMessageView::Channel {
                channel_id: *channel_id as int,
                username: username@,
                content: content@,
            },
            WsMessage::DM { sender, receiver, content } => WsMessageView::DM {
                sender: sender@,
                receiver: receiver@,
                content: content@,
            },
            WsMessage::Typing { username, channel_id, sender } => WsMessageView::Typing {
                username: username@,
                channel_id: *channel_id as int,
                sender: match sender {
                    Some(s) => Some(s@),
                    None => None,
                },
            },
        }
    }
}

/// The lower-case hexadecimal digit for a value below sixteen; also the
/// decimal digit for a value below ten.
pub open spec fn hex_char(d: nat) -> char {
    if d == 0 { '0' }
    else if d == 1 { '1' }
    else if d == 2 { '2' }
    else if d == 3 { '3' }
    else if d == 4 { '4' }
    else if d == 5 { '5' }
    else if d == 6 { '6' }
    else if d == 7 { '7' }
    else if d == 8 { '8' }
    else if d == 9 { '9' }
    else if d == 10 { 'a' }
    else if d == 11 { 'b' }
    else if d == 12 { 'c' }
    else if d == 13 { 'd' }
    else if d == 14 { 'e' }
    else { 'f' }
}

/// The decimal rendering of a natural number, without leading zeroes
/// (except for zero itself).
pub open spec fn dec_nat(n: nat) -> Seq<char>
    decreases n,
{
    if n < 10 {
        seq![hex_char(n)]
    } else {
        dec_nat(n / 10) + seq![hex_char(n % 10)]
    }
}

/// The decimal rendering of a signed integer: a leading minus sign for a
/// negative value, then the digits of its magnitude.
pub open spec fn dec_i64(n: int) -> Seq<char> {
    if n < 0 {
        seq!['-'] + dec_nat((-n) as nat)
    } else {
        dec_nat(n as nat)
    }
}

/// How one character is written inside a JSON string: quote and backslash
/// get a backslash escape, the named control characters their short
/// escapes, any other control character a `\u00..` escape, and everything
/// else stands as itself.
pub open spec fn escape_char(c: char) -> Seq<char> {
    if c == '"' { seq!['\\', '"'] }
    else if c == '\\' { seq!['\\', '\\'] }
    else if c == '\n' { seq!['\\', 'n'] }
    else if c == '\r' { seq!['\\', 'r'] }
    else if c == '\t' { seq!['\\', 't'] }
    else if c == '\u{0008}' { seq!['\\', 'b'] }
    else if c == '\u{000C}' { seq!['\\', 'f'] }
    else if (c as u32) < 32 {
        seq!['\\', 'u', '0', '0', hex_char(((c as u32) / 16) as nat), hex_char(((c as u32) % 16) as nat)]
    } else {
        seq![c]
    }
}

/// The JSON escaping of a whole string, character by character.
pub open spec fn json_escape(s: Seq<char>) -> Seq<char>
    decreases s.len(),
{
    if s.len() == 0 {
        Seq::empty()
    } else {
        escape_char(s[0]) + json_escape(s.skip(1))
    }
}

/// The exact text that `serialize` produces for an event.
pub open spec fn serialize_spec(m: WsMessageView) -> Seq<char> {
    match m {
        WsMessageView::Channel { channel_id, username, content } => {
            "{\"type\":\"Channel\",\"channel_id\":"@ + dec_i64(channel_id)
                + ",\"username\":\""@ + json_escape(username)
                + "\",\"content\":\""@ + json_escape(content) + "\"}"@
        },
        WsMessageView::DM { sender, receiver, content } => {
            "{\"type\":\"DM\",\"sender\":\""@ + json_escape(sender)
                + "\",\"receiver\":\""@ + json_escape(receiver)
                + "\",\"content\":\""@ + json_escape(content) + "\"}"@
        },
        WsMessageView::Typing { username, channel_id, sender } => {
            match sender {
                Some(u) => {
                    "{\"type\":\"Typing\",\"username\":\""@ + json_escape(username)
                        + "\",\"channel_id\":"@ + dec_i64(channel_id)
                        + ",\"sender\":\""@ + json_escape(u) + "\"}"@
                },
                None => {
                    "{\"type\":\"Typing\",\"username\":\""@ + json_escape(username)
                        + "\",\"channel_id\":"@ + dec_i64(channel_id)
                        + ",\"sender\":null}"@
                },
            }
        },
    }
}

/// Relies on String::push: appends exactly the one given character.
#[verifier::external_body]
fn push_char(out: &mut String, c: char)
    ensures
        final(out)@ == old(out)@ + seq![c],
{
    out.push(c);
}

/// The executable hexadecimal (and decimal) digit table.
fn hex_digit(d: u8) -> (c: char)
    requires
        d < 16,
    ensures
        c == hex_char(d as nat),
{
    if d == 0 { '0' }
    else if d == 1 { '1' }
    else if d == 2 { '2' }
    else if d == 3 { '3' }
    else if d == 4 { '4' }
    else if d == 5 { '5' }
    else if d == 6 { '6' }
    else if d == 7 { '7' }
    else if d == 8 { '8' }
    else if d == 9 { '9' }
    else if d == 10 { 'a' }
    else if d == 11 { 'b' }
    else if d == 12 { 'c' }
    else if d == 13 { 'd' }
    else if d == 14 { 'e' }
    else { 'f' }
}

proof fn lemma_reverse_push(s: Seq<char>, c: char)
    ensures
        (s.push(c)).reverse() == seq![c] + s.reverse(),
{
    assert((s.push(c)).reverse() =~= seq![c] + s.reverse());
}

proof fn lemma_reverse_pop(s: Seq<char>)
    requires
        s.len() > 0,
    ensures
        s.reverse() == seq![s.last()] + s.subrange(0, s.len() - 1).reverse(),
{
    assert(s.reverse() =~= seq![s.last()] + s.subrange(0, s.len() - 1).reverse());
}

/// Appends the decimal rendering of `n`.
fn push_u64(out: &mut String, n: u64)
    ensures
        final(out)@ == old(out)@ + dec_nat(n as nat),
{
    let mut m: u64 = n;
    let mut rev: Vec<char> = Vec::new();
    proof {
        assert(dec_nat(n as nat) + rev@.reverse() =~= dec_nat(n as nat));
    }
    loop
        invariant_except_break
            dec_nat(n as nat) == dec_nat(m as nat) + rev@.reverse(),
        ensures
            dec_nat(n as nat) == rev@.reverse(),
        decreases m,
    {
        let d = (m % 10) as u8;
        let c = hex_digit(d);
        proof {
            lemma_reverse_push(rev@, c);
        }
        rev.push(c);
        let m_prev: Ghost<u64> = Ghost(m);
        m = m / 10;
        if m == 0 {
            proof {
                assert(dec_nat(m_prev@ as nat) == seq![hex_char(m_prev@ as nat % 10)]);
            }
            break;
        }
        proof {
            assert(dec_nat(m_prev@ as nat) == dec_nat(m as nat) + seq![hex_char(m_prev@ as nat % 10)]);
            assert(dec_nat(n as nat) =~= dec_nat(m as nat) + (seq![c] + rev@.subrange(0, rev@.len() - 1).reverse()));
        }
    }
    while rev.len() > 0
        invariant
            out@ + rev@.reverse() == old(out)@ + dec_nat(n as nat),
        decreases rev@.len(),
    {
        proof {
            lemma_reverse_pop(rev@);
        }
        let c = rev.pop().unwrap();
        push_char(out, c);
        proof {
            assert(out@ + rev@.reverse() =~= old(out)@ + dec_nat(n as nat));
        }
    }
    proof {
        assert(out@ + rev@.reverse() =~= out@);
    }
}

/// Appends the decimal rendering of `n`, sign included.
fn push_i64(out: &mut String, n: i64)
    ensures
        final(out)@ == old(out)@ + dec_i64(n as int),
{
    if n < 0 {
        push_char(out, '-');
        let m: u64 = if n == i64::MIN {
            9223372036854775808u64
        } else {
            (-n) as u64
        };
        push_u64(out, m);
        proof {
            assert(old(out)@ + seq!['-'] + dec_nat(m as nat) =~= old(out)@ + (seq!['-'] + dec_nat(m as nat)));
        }
    } else {
        push_u64(out, n as u64);
    }
}

/// One character's escaping, appended.
fn push_escape_char(out: &mut String, c: char)
    ensures
        final(out)@ == old(out)@ + escape_char(c),
{
    if c == '"' {
        push_char(out, '\\');
        push_char(out, '"');
        proof {
            assert(out@ =~= old(out)@ + escape_char(c));
        }
    } else if c == '\\' {
        push_char(out, '\\');
        push_char(out, '\\');
        proof {
            assert(out@ =~= old(out)@ + escape_char(c));
        }
    } else if c == '\n' {
        push_char(out, '\\');
        push_char(out, 'n');
        proof {
            assert(out@ =~= old(out)@ + escape_char(c));
        }
    } else if c == '\r' {
        push_char(out, '\\');
        push_char(out, 'r');
        proof {
            assert(out@ =~= old(out)@ + escape_char(c));
        }
    } else if c == '\t' {
        push_char(out, '\\');
        push_char(out, 't');
        proof {
            assert(out@ =~= old(out)@ + escape_char(c));
        }
    } else if c == '\u{0008}' {
        push_char(out, '\\');
        push_char(out, 'b');
        proof {
            assert(out@ =~= old(out)@ + escape_char(c));
        }
    } else if c == '\u{000C}' {
        push_char(out, '\\');
        push_char(out, 'f');
        proof {
            assert(out@ =~= old(out)@ + escape_char(c));
        }
    } else if (c as u32) < 32 {
        let code = c as u32;
        push_char(out, '\\');
        push_char(out, 'u');
        push_char(out, '0');
        push_char(out, '0');
        let hi = hex_digit((code / 16) as u8);
        push_char(out, hi);
        let lo = hex_digit((code % 16) as u8);
        push_char(out, lo);
        proof {
            assert(out@ =~= old(out)@ + escape_char(c));
        }
    } else {
        push_char(out, c);
        proof {
            assert(out@ =~= old(out)@ + escape_char(c));
        }
    }
}

proof fn lemma_escape_snoc(s: Seq<char>, c: char)
    ensures
        json_escape(s.push(c)) == json_escape(s) + escape_char(c),
    decreases s.len(),
{
    if s.len() == 0 {
        assert(s.push(c)[0] == c);
        assert(s.push(c).skip(1) =~= Seq::<char>::empty());
        assert(json_escape(s.push(c)) == escape_char(c) + json_escape(Seq::<char>::empty()));
        assert(escape_char(c) + Seq::<char>::empty() =~= escape_char(c));
        assert(json_escape(s) + escape_char(c) =~= escape_char(c));
    } else {
        assert(s.push(c)[0] == s[0]);
        assert(s.push(c).skip(1) =~= s.skip(1).push(c));
        lemma_escape_snoc(s.skip(1), c);
        assert(json_escape(s.push(c)) == escape_char(s[0]) + json_escape(s.skip(1).push(c)));
        assert(escape_char(s[0]) + (json_escape(s.skip(1)) + escape_char(c)) =~= (escape_char(s[0])
            + json_escape(s.skip(1))) + escape_char(c));
    }
}

/// Appends the JSON escaping of the whole string.
fn push_escaped(out: &mut String, s: &str)
    ensures
        final(out)@ == old(out)@ + json_escape(s@),
{
    let len = s.unicode_len();
    let mut i: usize = 0;
    while i < len
        invariant
            i <= len,
            len as nat == s@.len(),
            out@ == old(out)@ + json_escape(s@.take(i as int)),
        decreases len - i,
    {
        let c = s.get_char(i);
        push_escape_char(out, c);
        proof {
            lemma_escape_snoc(s@.take(i as int), s@[i as int]);
            assert(s@.take(i as int).push(s@[i as int]) =~= s@.take(i as int + 1));
            assert(out@ =~= old(out)@ + json_escape(s@.take(i as int + 1)));
        }
        i = i + 1;
    }
    proof {
        assert(s@.take(len as int) =~= s@);
    }
}

/// Serialises one outbound event into its tagged wire text, exactly as
/// `serialize_spec` states it.
pub fn serialize(m: &WsMessage) -> (r: String)
    ensures
        r@ == serialize_spec(m@),
{
    match m {
        WsMessage::Channel { channel_id, username, content } => {
            let mut out = String::from_str("{\"type\":\"Channel\",\"channel_id\":");
            push_i64(&mut out, *channel_id);
            out.append(",\"username\":\"");
            push_escaped(&mut out, username.as_str());
            out.append("\",\"content\":\"");
            push_escaped(&mut out, content.as_str());
            out.append("\"}");
            out
        },
        WsMessage::DM { sender, receiver, content } => {
            let mut out = String::from_str("{\"type\":\"DM\",\"sender\":\"");
            push_escaped(&mut out, sender.as_str());
            out.append("\",\"receiver\":\"");
            push_escaped(&mut out, receiver.as_str());
            out.append("\",\"content\":\"");
            push_escaped(&mut out, content.as_str());
            out.append("\"}");
            out
        },
        WsMessage::Typing { username, channel_id, sender } => {
            let mut out = String::from_str("{\"type\":\"Typing\",\"username\":\"");
            push_escaped(&mut out, username.as_str());
            out.append("\",\"channel_id\":");
            push_i64(&mut out, *channel_id);
            match sender {
                Some(u) => {
                    out.append(",\"sender\":\"");
                    push_escaped(&mut out, u.as_str());
                    out.append("\"}");
                },
                None => {
                    out.append(",\"sender\":null}");
                },
            }
            out
        },
    }
}

} // verus!
