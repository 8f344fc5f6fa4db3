//! Session tokens: what they hold, when they may be reused, and their text form.
//!
//! A token is written as four lines. The two terminal fields are written as a
//! `NUMBER_WIDTH`-digit character count, a `:`, the characters themselves and a
//! line end; the two timestamps as a `NUMBER_WIDTH`-digit count of seconds
//! since the Unix epoch and a line end. The count makes any character,
//! line ends included, safe inside a field.

use vstd::prelude::*;

use crate::digits::{
    all_digits, digits_value, fixed_digits, lemma_fixed_digits_value, lemma_u64_fits_width,
    lemma_value_fixed_digits, number_at, push_fixed, read_fixed, NUMBER_WIDTH,
};
use crate::text::same_text;

verus! {

/// How long, in seconds, an authentication may be reused.
pub const DEFAULT_SESSION_TIMEOUT: u64 = 600;

/// Why a token cannot be made or reused.
#[derive(Debug, Clone, Copy, PartialEq, Eq, Structural)]
pub enum SessionError {
    /// The end of validity of a new token lies beyond the largest representable time.
    TimestampOverflow,
    /// The token's validity has ended.
    Expired,
    /// The token was issued on another terminal.
    NotSameSession,
}

/// Proof that an interactive authentication succeeded on one terminal.
/// Times are whole seconds since the Unix epoch.
pub struct Token {
    /// Name of the terminal the token was issued on.
    pub tty_name: String,
    /// Instance identifier of that terminal.
    pub tty_uuid: String,
    /// When the token was issued.
    pub timestamp: u64,
    /// When the token stops being valid.
    pub final_timestamp: u64,
}

/// The mathematical content of a `Token`.
pub struct TokenView {
    pub tty_name: Seq<char>,
    pub tty_uuid: Seq<char>,
    pub timestamp: u64,
    pub final_timestamp: u64,
}

impl View for Token {
    type V = TokenView;

    open spec fn view(&self) -> TokenView {
        TokenView {
            tty_name: self.tty_name@,
            tty_uuid: self.tty_uuid@,
            timestamp: self.timestamp,
            final_timestamp: self.final_timestamp,
        }
    }
}

/// A token may be reused iff it has not expired and was issued on the very
/// same terminal (same name and same instance identifier).
pub open spec fn valid_for_reuse(t: TokenView, tty_name: Seq<char>, tty_uuid: Seq<char>, now: u64) -> bool {
    now < t.final_timestamp && t.tty_name == tty_name && t.tty_uuid == tty_uuid
}

/// The outcome of checking a token: expiry is reported first.
pub open spec fn token_check(t: TokenView, tty_name: Seq<char>, tty_uuid: Seq<char>, now: u64) -> Result<
    (),
    SessionError,
> {
    if t.final_timestamp <= now {
        Err(SessionError::Expired)
    } else if t.tty_name == tty_name && t.tty_uuid == tty_uuid {
        Ok(())
    } else {
        Err(SessionError::NotSameSession)
    }
}

/// An expired token is never valid, whatever terminal asks.
pub proof fn lemma_expired_never_valid(t: TokenView, tty_name: Seq<char>, tty_uuid: Seq<char>, now: u64)
    requires
        t.final_timestamp <= now,
    ensures
        !valid_for_reuse(t, tty_name, tty_uuid, now),
        token_check(t, tty_name, tty_uuid, now) == Err::<(), SessionError>(SessionError::Expired),
{
}

/// An unexpired token asked for by another terminal name or instance
/// identifier is never valid.
pub proof fn lemma_other_terminal_never_valid(t: TokenView, tty_name: Seq<char>, tty_uuid: Seq<char>, now: u64)
    requires
        now < t.final_timestamp,
        t.tty_name != tty_name || t.tty_uuid != tty_uuid,
    ensures
        !valid_for_reuse(t, tty_name, tty_uuid, now),
        token_check(t, tty_name, tty_uuid, now) == Err::<(), SessionError>(SessionError::NotSameSession),
{
}

/// The text of one terminal field.
pub open spec fn field_text(x: Seq<char>) -> Seq<char> {
    fixed_digits(x.len(), NUMBER_WIDTH as nat) + seq![':'] + x + seq!['\n']
}

/// The text of one timestamp.
pub open spec fn stamp_text(n: u64) -> Seq<char> {
    fixed_digits(n as nat, NUMBER_WIDTH as nat) + seq!['\n']
}

/// The text form of a token.
pub open spec fn token_text(t: TokenView) -> Seq<char> {
    field_text(t.tty_name) + field_text(t.tty_uuid) + stamp_text(t.timestamp) + stamp_text(
        t.final_timestamp,
    )
}

/// Whether the fields of a token view are short enough to be counted in a `u64`.
pub open spec fn fits(t: TokenView) -> bool {
    t.tty_name.len() <= u64::MAX && t.tty_uuid.len() <= u64::MAX
}

/// The field that starts at `pos` in `s`, with the position just after it.
pub open spec fn field_at(s: Seq<char>, pos: int) -> Option<(Seq<char>, int)> {
    match number_at(s, pos) {
        Some(n) => {
            let start = pos + NUMBER_WIDTH + 1;
            let end = start + n;
            if end < s.len() && s[pos + NUMBER_WIDTH] == ':' && s[end] == '\n' {
                Some((s.subrange(start, end), end + 1))
            } else {
                None
            }
        },
        None => None,
    }
}

/// The timestamp that starts at `pos` in `s`, with the position just after it.
pub open spec fn stamp_at(s: Seq<char>, pos: int) -> Option<(u64, int)> {
    match number_at(s, pos) {
        Some(n) => {
            if pos + NUMBER_WIDTH < s.len() && s[pos + NUMBER_WIDTH] == '\n' {
                Some((n, pos + NUMBER_WIDTH + 1))
            } else {
                None
            }
        },
        None => None,
    }
}

/// The token that `s` holds, if `s` is two fields and two timestamps and nothing more.
pub open spec fn parse_token(s: Seq<char>) -> Option<TokenView> {
    match field_at(s, 0) {
        Some((name, p1)) => match field_at(s, p1) {
            Some((uuid, p2)) => match stamp_at(s, p2) {
                Some((ts, p3)) => match stamp_at(s, p3) {
                    Some((fin, p4)) => {
                        if p4 == s.len() {
                            Some(
                                TokenView {
                                    tty_name: name,
                                    tty_uuid: uuid,
                                    timestamp: ts,
                                    final_timestamp: fin,
                                },
                            )
                        } else {
                            None
                        }
                    },
                    None => None,
                },
                None => None,
            },
            None => None,
        },
        None => None,
    }
}

proof fn lemma_number_in(s: Seq<char>, pos: int, n: nat)
    requires
        n <= u64::MAX,
        0 <= pos,
        pos + NUMBER_WIDTH <= s.len(),
        s.subrange(pos, pos + NUMBER_WIDTH) == fixed_digits(n, NUMBER_WIDTH as nat),
    ensures
        number_at(s, pos) == Some(n as u64),
{
    lemma_u64_fits_width();
    lemma_fixed_digits_value(n, NUMBER_WIDTH as nat);
}

proof fn lemma_field_in(s: Seq<char>, pos: int, x: Seq<char>)
    requires
        x.len() <= u64::MAX,
        0 <= pos,
        pos + field_text(x).len() <= s.len(),
        s.subrange(pos, pos + field_text(x).len()) == field_text(x),
    ensures
        field_at(s, pos) == Some((x, pos + field_text(x).len())),
{
    let f = field_text(x);
    let w = NUMBER_WIDTH as int;
    lemma_u64_fits_width();
    lemma_fixed_digits_value(x.len(), NUMBER_WIDTH as nat);
    assert(s.subrange(pos, pos + w) =~= f.subrange(0, w));
    assert(f.subrange(0, w) =~= fixed_digits(x.len(), NUMBER_WIDTH as nat));
    lemma_number_in(s, pos, x.len());
    assert(s[pos + w] == f[w]);
    assert(s[pos + w + 1 + x.len()] == f[w + 1 + x.len()]);
    assert(s.subrange(pos + w + 1, pos + w + 1 + x.len()) =~= x) by {
        assert forall|i: int| 0 <= i < x.len() implies s.subrange(
            pos + w + 1,
            pos + w + 1 + x.len(),
        )[i] == x[i] by {
            assert(s[pos + w + 1 + i] == f[w + 1 + i]);
        }
    }
}

proof fn lemma_stamp_in(s: Seq<char>, pos: int, n: u64)
    requires
        0 <= pos,
        pos + stamp_text(n).len() <= s.len(),
        s.subrange(pos, pos + stamp_text(n).len()) == stamp_text(n),
    ensures
        stamp_at(s, pos) == Some((n, pos + stamp_text(n).len())),
{
    let f = stamp_text(n);
    let w = NUMBER_WIDTH as int;
    lemma_u64_fits_width();
    lemma_fixed_digits_value(n as nat, NUMBER_WIDTH as nat);
    assert(s.subrange(pos, pos + w) =~= fixed_digits(n as nat, NUMBER_WIDTH as nat));
    lemma_number_in(s, pos, n as nat);
    assert(s[pos + w] == f[w]);
}

/// Reading the text of a token gives back that token.
pub proof fn lemma_token_round_trip(t: TokenView)
    requires
        fits(t),
    ensures
        parse_token(token_text(t)) == Some(t),
{
    let a = field_text(t.tty_name);
    let b = field_text(t.tty_uuid);
    let c = stamp_text(t.timestamp);
    let d = stamp_text(t.final_timestamp);
    let s = token_text(t);
    lemma_u64_fits_width();
    lemma_fixed_digits_value(t.tty_name.len(), NUMBER_WIDTH as nat);
    lemma_fixed_digits_value(t.tty_uuid.len(), NUMBER_WIDTH as nat);
    lemma_fixed_digits_value(t.timestamp as nat, NUMBER_WIDTH as nat);
    lemma_fixed_digits_value(t.final_timestamp as nat, NUMBER_WIDTH as nat);
    let p1 = a.len() as int;
    let p2 = p1 + b.len();
    let p3 = p2 + c.len();
    let p4 = p3 + d.len();
    assert(s.len() == p4);
    assert(s.subrange(0, p1) =~= a);
    assert(s.subrange(p1, p2) =~= b);
    assert(s.subrange(p2, p3) =~= c);
    assert(s.subrange(p3, p4) =~= d);
    lemma_field_in(s, 0, t.tty_name);
    lemma_field_in(s, p1, t.tty_uuid);
    lemma_stamp_in(s, p2, t.timestamp);
    lemma_stamp_in(s, p3, t.final_timestamp);
}

proof fn lemma_field_read(s: Seq<char>, pos: int)
    requires
        0 <= pos,
        field_at(s, pos) is Some,
    ensures
        ({
            let (x, q) = field_at(s, pos)->0;
            pos < q <= s.len() && s.subrange(pos, q) == field_text(x) && x.len() <= u64::MAX
        }),
{
    let (x, q) = field_at(s, pos)->0;
    let w = NUMBER_WIDTH as int;
    let d = s.subrange(pos, pos + w);
    lemma_value_fixed_digits(d);
    assert(s.subrange(pos, q) =~= field_text(x));
}

proof fn lemma_stamp_read(s: Seq<char>, pos: int)
    requires
        0 <= pos,
        stamp_at(s, pos) is Some,
    ensures
        ({
            let (n, q) = stamp_at(s, pos)->0;
            pos < q <= s.len() && s.subrange(pos, q) == stamp_text(n)
        }),
{
    let (n, q) = stamp_at(s, pos)->0;
    let w = NUMBER_WIDTH as int;
    let d = s.subrange(pos, pos + w);
    lemma_value_fixed_digits(d);
    assert(s.subrange(pos, q) =~= stamp_text(n));
}

/// Whatever text reads as a token is exactly that token's text.
pub proof fn lemma_parsed_text_is_exact(s: Seq<char>)
    requires
        parse_token(s) is Some,
    ensures
        token_text(parse_token(s)->0) == s,
        fits(parse_token(s)->0),
{
    let (name, p1) = field_at(s, 0)->0;
    lemma_field_read(s, 0);
    let (uuid, p2) = field_at(s, p1)->0;
    lemma_field_read(s, p1);
    let (ts, p3) = stamp_at(s, p2)->0;
    lemma_stamp_read(s, p2);
    let (fin, p4) = stamp_at(s, p3)->0;
    lemma_stamp_read(s, p3);
    assert(s =~= s.subrange(0, p1) + s.subrange(p1, p2) + s.subrange(p2, p3) + s.subrange(p3, p4));
}

/// The text of a terminal field, appended to `out`.
fn push_field(out: &mut String, x: &str)
    ensures
        final(out)@ == old(out)@ + field_text(x@),
        x@.len() <= u64::MAX,
{
    let n = x.unicode_len();
    push_fixed(out, n as u64, NUMBER_WIDTH);
    proof {
        reveal_strlit(":");
        reveal_strlit("\n");
    }
    out.append(":");
    out.append(x);
    out.append("\n");
    assert(final(out)@ =~= old(out)@ + field_text(x@));
}

/// The text of a timestamp, appended to `out`.
fn push_stamp(out: &mut String, n: u64)
    ensures
        final(out)@ == old(out)@ + stamp_text(n),
{
    push_fixed(out, n, NUMBER_WIDTH);
    proof {
        reveal_strlit("\n");
    }
    out.append("\n");
    assert(final(out)@ =~= old(out)@ + stamp_text(n));
}

/// Reads the field at `pos` of `v`, whose characters are those of `text`.
fn read_field(text: &str, v: &Vec<char>, pos: usize) -> (r: Option<(String, usize)>)
    requires
        v@ == text@,
        pos <= v.len(),
    ensures
        match field_at(v@, pos as int) {
            Some((x, q)) => r matches Some((f, p)) && f@ == x && p == q,
            None => r is None,
        },
{
    let n = match read_fixed(v, pos) {
        Some(n) => n,
        None => {
            return None;
        },
    };
    if v.len() - pos <= NUMBER_WIDTH + 1 {
        return None;
    }
    if v[pos + NUMBER_WIDTH] != ':' {
        return None;
    }
    let start = pos + NUMBER_WIDTH + 1;
    if n >= (v.len() - start) as u64 {
        return None;
    }
    let end = start + n as usize;
    if v[end] != '\n' {
        return None;
    }
    let f = text.substring_char(start, end).to_owned();
    Some((f, end + 1))
}

/// Reads the timestamp at `pos` of `v`.
fn read_stamp(v: &Vec<char>, pos: usize) -> (r: Option<(u64, usize)>)
    requires
        pos <= v.len(),
    ensures
        match stamp_at(v@, pos as int) {
            Some((n, q)) => r == Some((n, q as usize)) && q <= v.len(),
            None => r is None,
        },
{
    let n = match read_fixed(v, pos) {
        Some(n) => n,
        None => {
            return None;
        },
    };
    if v.len() - pos <= NUMBER_WIDTH {
        return None;
    }
    if v[pos + NUMBER_WIDTH] != '\n' {
        return None;
    }
    Some((n, pos + NUMBER_WIDTH + 1))
}

/// The characters of `s`, in order.
fn chars_of(s: &str) -> (v: Vec<char>)
    ensures
        v@ == s@,
{
    let mut v: Vec<char> = Vec::new();
    for c in iter: s.chars()
        invariant
            v@ == iter.seq().take(iter.index() as int),
            iter.seq() == s@,
    {
        v.push(c);
    }
    v
}

impl Token {
    /// Issues a token for the terminal `(tty_name, tty_uuid)` at time `now`,
    /// valid for `DEFAULT_SESSION_TIMEOUT` seconds.
    pub fn new(tty_name: &str, tty_uuid: &str, now: u64) -> (r: Result<Self, SessionError>)
        ensures
            r is Ok <==> now + DEFAULT_SESSION_TIMEOUT <= u64::MAX,
            r matches Ok(t) ==> t@ == (TokenView {
                tty_name: tty_name@,
                tty_uuid: tty_uuid@,
                timestamp: now,
                final_timestamp: (now + DEFAULT_SESSION_TIMEOUT) as u64,
            }),
            r is Err ==> r == Err::<Token, SessionError>(SessionError::TimestampOverflow),
    {
        let final_timestamp = match now.checked_add(DEFAULT_SESSION_TIMEOUT) {
            Some(time) => time,
            None => {
                return Err(SessionError::TimestampOverflow);
            },
        };
        Ok(Token {
            tty_name: tty_name.to_owned(),
            tty_uuid: tty_uuid.to_owned(),
            timestamp: now,
            final_timestamp,
        })
    }

    /// Checks whether the token may be reused at time `now` on the terminal
    /// `(tty_name, tty_uuid)`.
    pub fn verify_token(&self, tty_name: &str, tty_uuid: &str, now: u64) -> (r: Result<(), SessionError>)
        ensures
            r == token_check(self@, tty_name@, tty_uuid@, now),
            r is Ok <==> valid_for_reuse(self@, tty_name@, tty_uuid@, now),
    {
        if self.final_timestamp <= now {
            Err(SessionError::Expired)
        } else if same_text(self.tty_name.as_str(), tty_name) && same_text(
            self.tty_uuid.as_str(),
            tty_uuid,
        ) {
            Ok(())
        } else {
            Err(SessionError::NotSameSession)
        }
    }

    /// The text form of the token, as stored in a token file.
    pub fn to_text(&self) -> (r: String)
        ensures
            r@ == token_text(self@),
            fits(self@),
    {
        let mut out = String::new();
        push_field(&mut out, self.tty_name.as_str());
        push_field(&mut out, self.tty_uuid.as_str());
        push_stamp(&mut out, self.timestamp);
        push_stamp(&mut out, self.final_timestamp);
        assert(out@ =~= token_text(self@));
        out
    }

    /// Reads a token from its text form. Any text that is not exactly the
    /// text of a token gives `None`.
    pub fn from_text(text: &str) -> (r: Option<Token>)
        ensures
            match r {
                Some(t) => parse_token(text@) == Some(t@),
                None => parse_token(text@) is None,
            },
            r matches Some(t) ==> token_text(t@) == text@,
            r is None ==> forall|t: TokenView| fits(t) ==> token_text(t) != text@,
    {
        let v = chars_of(text);
        proof {
            if parse_token(text@) is Some {
                lemma_parsed_text_is_exact(text@);
            }
            assert forall|t: TokenView| fits(t) && token_text(t) == text@ implies parse_token(
                text@,
            ) == Some(t) by {
                lemma_token_round_trip(t);
            }
        }
        let (tty_name, p1) = match read_field(text, &v, 0) {
            Some(f) => f,
            None => {
                return None;
            },
        };
        let (tty_uuid, p2) = match read_field(text, &v, p1) {
            Some(f) => f,
            None => {
                return None;
            },
        };
        let (timestamp, p3) = match read_stamp(&v, p2) {
            Some(f) => f,
            None => {
                return None;
            },
        };
        let (final_timestamp, p4) = match read_stamp(&v, p3) {
            Some(f) => f,
            None => {
                return None;
            },
        };
        if p4 != v.len() {
            return None;
        }
        Some(Token { tty_name, tty_uuid, timestamp, final_timestamp })
    }
}

} // verus!
