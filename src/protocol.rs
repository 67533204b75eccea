use vstd::prelude::*;
use vstd::string::{StrSliceExecFns, StringExecFns};
use vstd::utf8::encode_utf8;

use crate::lexer::{
    chars_of, ends_with_chars, has_prefix, has_suffix, has_word, next_word, same_word_ci,
    span_has_prefix, span_is_ci, word, word_end, word_start,
};

verus! {

/// Sent by the driver when a connection opens.
pub const SMTP_READY: &'static str = "220 rubbermail\n";

/// Generic success.
pub const SMTP_OK: &'static str = "250 Ok\n";

/// Authentication accepted.
pub const SMTP_AUTH_OK: &'static str = "235 Ok\n";

/// Prompt for the message body.
pub const SMTP_SEND_ME_DATA: &'static str = "354 End data with <CR><LF>.<CR><LF>\n";

/// Farewell.
pub const SMTP_GOODBYE: &'static str = "221 Bye\n";

/// Nothing to write back (a body line that does not end the body).
pub const SMTP_EMPTY: &'static str = "";

/// The sequence that marks the end of a message body.
pub const BODY_TERMINATOR: &'static str = "\r\n.\r\n";

/// An envelope under construction: sender, recipients and body.
#[derive(Clone, Debug, Default, PartialEq, Eq)]
pub struct Mail {
    pub from: String,
    pub to: Vec<String>,
    pub data: String,
}

/// The state of one session.
#[derive(Clone, Debug, PartialEq, Eq)]
pub enum State {
    Ready,
    Acknowledged,
    ReceivingRcpt(Mail),
    ReceivingData(Mail),
    Received(Mail),
}

/// One connection's session: its state and the greeting answered to `EHLO`.
pub struct Connection {
    pub state: State,
    pub ehlo_greeting: String,
}

/// Why a command line was refused.
#[derive(Clone, Debug, PartialEq, Eq)]
pub enum SmtpError {
    /// The line holds no word and no body is being received.
    EmptyCommand,
    /// `MAIL` or `RCPT` lacks its argument or the argument's prefix.
    Malformed,
    /// The command is not allowed in `state`.
    UnexpectedCommand { state: State, line: String },
}

/// The mathematical value of a `Mail`.
pub struct MailView {
    pub from: Seq<char>,
    pub to: Seq<Seq<char>>,
    pub data: Seq<char>,
}

/// The mathematical value of a `State`.
pub enum StateView {
    Ready,
    Acknowledged,
    ReceivingRcpt(MailView),
    ReceivingData(MailView),
    Received(MailView),
}

/// The kinds of `SmtpError`.
pub enum Fault {
    EmptyCommand,
    Malformed,
    UnexpectedCommand,
}

impl View for Mail {
    type V = MailView;

    open spec fn view(&self) -> MailView {
        MailView { from: self.from@, to: self.to@.map_values(|t: String| t@), data: self.data@ }
    }
}

impl View for State {
    type V = StateView;

    open spec fn view(&self) -> StateView {
        match self {
            State::Ready => StateView::Ready,
            State::Acknowledged => StateView::Acknowledged,
            State::ReceivingRcpt(m) => StateView::ReceivingRcpt(m@),
            State::ReceivingData(m) => StateView::ReceivingData(m@),
            State::Received(m) => StateView::Received(m@),
        }
    }
}

impl SmtpError {
    pub open spec fn fault(&self) -> Fault {
        match self {
            SmtpError::EmptyCommand => Fault::EmptyCommand,
            SmtpError::Malformed => Fault::Malformed,
            SmtpError::UnexpectedCommand { .. } => Fault::UnexpectedCommand,
        }
    }
}

/// The command words the session knows.
#[derive(Clone, Copy, Debug, PartialEq, Eq, Structural)]
pub enum Verb {
    Ehlo,
    Helo,
    Noop,
    Help,
    Info,
    Vrfy,
    Expn,
    Rset,
    Auth,
    Mail,
    Rcpt,
    Data,
    Quit,
    Other,
}

/// How a verb is spelled, in lower case.
pub open spec fn keyword(v: Verb) -> Seq<char> {
    match v {
        Verb::Ehlo => seq!['e', 'h', 'l', 'o'],
        Verb::Helo => seq!['h', 'e', 'l', 'o'],
        Verb::Noop => seq!['n', 'o', 'o', 'p'],
        Verb::Help => seq!['h', 'e', 'l', 'p'],
        Verb::Info => seq!['i', 'n', 'f', 'o'],
        Verb::Vrfy => seq!['v', 'r', 'f', 'y'],
        Verb::Expn => seq!['e', 'x', 'p', 'n'],
        Verb::Rset => seq!['r', 's', 'e', 't'],
        Verb::Auth => seq!['a', 'u', 't', 'h'],
        Verb::Mail => seq!['m', 'a', 'i', 'l'],
        Verb::Rcpt => seq!['r', 'c', 'p', 't'],
        Verb::Data => seq!['d', 'a', 't', 'a'],
        Verb::Quit => seq!['q', 'u', 'i', 't'],
        Verb::Other => Seq::empty(),
    }
}

/// The verb that the word `w` names, whatever its case; `Other` if none.
pub open spec fn verb_of(w: Seq<char>) -> Verb {
    if same_word_ci(w, keyword(Verb::Ehlo)) {
        Verb::Ehlo
    } else if same_word_ci(w, keyword(Verb::Helo)) {
        Verb::Helo
    } else if same_word_ci(w, keyword(Verb::Noop)) {
        Verb::Noop
    } else if same_word_ci(w, keyword(Verb::Help)) {
        Verb::Help
    } else if same_word_ci(w, keyword(Verb::Info)) {
        Verb::Info
    } else if same_word_ci(w, keyword(Verb::Vrfy)) {
        Verb::Vrfy
    } else if same_word_ci(w, keyword(Verb::Expn)) {
        Verb::Expn
    } else if same_word_ci(w, keyword(Verb::Rset)) {
        Verb::Rset
    } else if same_word_ci(w, keyword(Verb::Auth)) {
        Verb::Auth
    } else if same_word_ci(w, keyword(Verb::Mail)) {
        Verb::Mail
    } else if same_word_ci(w, keyword(Verb::Rcpt)) {
        Verb::Rcpt
    } else if same_word_ci(w, keyword(Verb::Data)) {
        Verb::Data
    } else if same_word_ci(w, keyword(Verb::Quit)) {
        Verb::Quit
    } else {
        Verb::Other
    }
}

/// The verbs that answer `250 Ok` and leave the state alone.
pub open spec fn is_no_op(v: Verb) -> bool {
    v is Noop || v is Help || v is Info || v is Vrfy || v is Expn
}

/// The prefix of `MAIL`'s argument.
pub open spec fn from_prefix() -> Seq<char> {
    seq!['F', 'R', 'O', 'M', ':']
}

/// The prefix of `RCPT`'s argument.
pub open spec fn to_prefix() -> Seq<char> {
    seq!['T', 'O', ':']
}

/// The address given after `prefix` in the line `s`: the second word must
/// begin with `prefix`; the address is the rest of that word, or, where the
/// prefix stands alone and a third word follows, that third word.
/// `None` where the second word is missing or lacks the prefix.
pub open spec fn address(s: Seq<char>, prefix: Seq<char>) -> Option<Seq<char>> {
    if !has_word(s, 1) || !has_prefix(word(s, 1), prefix) {
        None
    } else {
        let rest = word(s, 1).subrange(prefix.len() as int, word(s, 1).len() as int);
        if rest.len() == 0 && has_word(s, 2) {
            Some(word(s, 2))
        } else {
            Some(rest)
        }
    }
}

/// The greeting answered to `EHLO`, for a server named `domain`.
pub open spec fn greeting_for(domain: Seq<char>) -> Seq<char> {
    "250-"@ + domain + " Hello "@ + domain + "\n250 AUTH PLAIN LOGIN\n"@
}

/// What a line received while the body is open does: it is appended to the
/// body, and the reply is `250 Ok` where it ends with the terminator,
/// nothing otherwise. The terminator does not close the body: the session
/// stays in `ReceivingData` until `QUIT` (or `RSET`, or `AUTH`).
pub open spec fn absorb(m: MailView, line: Seq<char>) -> (StateView, Result<Seq<char>, Fault>) {
    (
        StateView::ReceivingData(MailView { data: m.data + line, ..m }),
        Ok(
            if has_suffix(line, BODY_TERMINATOR@) {
                SMTP_OK@
            } else {
                SMTP_EMPTY@
            },
        ),
    )
}

/// One step of the session: from state `st`, with `greeting` as the `EHLO`
/// answer, the line `line` leads to the returned state and reply (as text)
/// or fault.
pub open spec fn step(st: StateView, greeting: Seq<char>, line: Seq<char>) -> (
    StateView,
    Result<Seq<char>, Fault>,
) {
    if !has_word(line, 0) {
        match st {
            StateView::ReceivingData(m) => absorb(m, line),
            _ => (st, Err(Fault::EmptyCommand)),
        }
    } else {
        let v = verb_of(word(line, 0));
        if v is Ehlo && st is Ready {
            (StateView::Acknowledged, Ok(greeting))
        } else if v is Helo && st is Ready {
            (StateView::Acknowledged, Ok(SMTP_OK@))
        } else if is_no_op(v) {
            (st, Ok(SMTP_OK@))
        } else if v is Rset {
            (StateView::Ready, Ok(SMTP_OK@))
        } else if v is Auth {
            (StateView::Ready, Ok(SMTP_AUTH_OK@))
        } else if v is Mail && st is Acknowledged {
            match address(line, from_prefix()) {
                Some(a) => (
                    StateView::ReceivingRcpt(MailView { from: a, to: Seq::empty(), data: Seq::empty() }),
                    Ok(SMTP_OK@),
                ),
                None => (StateView::Ready, Err(Fault::Malformed)),
            }
        } else if v is Rcpt && st is ReceivingRcpt {
            match address(line, to_prefix()) {
                Some(a) => (
                    StateView::ReceivingRcpt(MailView { to: st->ReceivingRcpt_0.to.push(a), ..st->ReceivingRcpt_0 }),
                    Ok(SMTP_OK@),
                ),
                None => (StateView::Ready, Err(Fault::Malformed)),
            }
        } else if v is Data && st is ReceivingRcpt {
            (StateView::ReceivingData(st->ReceivingRcpt_0), Ok(SMTP_SEND_ME_DATA@))
        } else if v is Quit {
            match st {
                StateView::ReceivingData(m) => (StateView::Received(m), Ok(SMTP_GOODBYE@)),
                _ => (StateView::Ready, Ok(SMTP_GOODBYE@)),
            }
        } else {
            match st {
                StateView::ReceivingData(m) => absorb(m, line),
                _ => (StateView::Ready, Err(Fault::UnexpectedCommand)),
            }
        }
    }
}

/// Whether `s[start..end]` spells the verb `v`, whatever the case.
fn span_names(s: &Vec<char>, start: usize, end: usize, v: Verb) -> (r: bool)
    requires
        start <= end <= s@.len(),
        !(v is Other),
    ensures
        r == same_word_ci(s@.subrange(start as int, end as int), keyword(v)),
{
    let kw: [char; 4] = match v {
        Verb::Ehlo => ['e', 'h', 'l', 'o'],
        Verb::Helo => ['h', 'e', 'l', 'o'],
        Verb::Noop => ['n', 'o', 'o', 'p'],
        Verb::Help => ['h', 'e', 'l', 'p'],
        Verb::Info => ['i', 'n', 'f', 'o'],
        Verb::Vrfy => ['v', 'r', 'f', 'y'],
        Verb::Expn => ['e', 'x', 'p', 'n'],
        Verb::Rset => ['r', 's', 'e', 't'],
        Verb::Auth => ['a', 'u', 't', 'h'],
        Verb::Mail => ['m', 'a', 'i', 'l'],
        Verb::Rcpt => ['r', 'c', 'p', 't'],
        Verb::Data => ['d', 'a', 't', 'a'],
        Verb::Quit => ['q', 'u', 'i', 't'],
        Verb::Other => [' ', ' ', ' ', ' '],
    };
    assert(kw@ =~= keyword(v));
    span_is_ci(s, start, end, kw)
}

/// The verb that the word `s[start..end]` names.
pub fn verb_at(s: &Vec<char>, start: usize, end: usize) -> (r: Verb)
    requires
        start <= end <= s@.len(),
    ensures
        r == verb_of(s@.subrange(start as int, end as int)),
{
    if span_names(s, start, end, Verb::Ehlo) {
        Verb::Ehlo
    } else if span_names(s, start, end, Verb::Helo) {
        Verb::Helo
    } else if span_names(s, start, end, Verb::Noop) {
        Verb::Noop
    } else if span_names(s, start, end, Verb::Help) {
        Verb::Help
    } else if span_names(s, start, end, Verb::Info) {
        Verb::Info
    } else if span_names(s, start, end, Verb::Vrfy) {
        Verb::Vrfy
    } else if span_names(s, start, end, Verb::Expn) {
        Verb::Expn
    } else if span_names(s, start, end, Verb::Rset) {
        Verb::Rset
    } else if span_names(s, start, end, Verb::Auth) {
        Verb::Auth
    } else if span_names(s, start, end, Verb::Mail) {
        Verb::Mail
    } else if span_names(s, start, end, Verb::Rcpt) {
        Verb::Rcpt
    } else if span_names(s, start, end, Verb::Data) {
        Verb::Data
    } else if span_names(s, start, end, Verb::Quit) {
        Verb::Quit
    } else {
        Verb::Other
    }
}

/// The address after `prefix` in the line `raw` (whose characters are
/// `line`, and whose first word ends at `end0`).
fn address_in(line: &Vec<char>, raw: &str, end0: usize, prefix: &Vec<char>) -> (r: Option<String>)
    requires
        line@ == raw@,
        end0 as int == word_end(line@, word_start(line@, 0)),
        end0 <= line@.len(),
    ensures
        r matches Some(a) ==> address(line@, prefix@) == Some(a@),
        r is None ==> address(line@, prefix@) is None,
{
    let (s1, e1) = next_word(line, end0, Ghost(1));
    if s1 == line.len() {
        return None;
    }
    if !span_has_prefix(line, s1, e1, prefix) {
        return None;
    }
    let from = s1 + prefix.len();
    assert(word(line@, 1).subrange(prefix@.len() as int, word(line@, 1).len() as int)
        =~= line@.subrange(from as int, e1 as int));
    if from == e1 {
        let (s2, e2) = next_word(line, e1, Ghost(2));
        if s2 < line.len() {
            return Some(String::from_str(raw.substring_char(s2, e2)));
        }
    }
    Some(String::from_str(raw.substring_char(from, e1)))
}

/// What a step answers: the session's `EHLO` greeting or a fixed text.
enum Reply {
    Greeting,
    Text(&'static str),
}

spec fn reply_text(r: Reply, greeting: Seq<char>) -> Seq<char> {
    match r {
        Reply::Greeting => greeting,
        Reply::Text(t) => t@,
    }
}

/// Appends a body line to `mail`.
fn absorb_line(mail: Mail, line: &Vec<char>, raw: &str) -> (r: (State, Result<Reply, SmtpError>))
    requires
        line@ == raw@,
    ensures
        r.0@ == absorb(mail@, raw@).0,
        r.1 matches Ok(t),
        r.1 matches Ok(t) ==> t is Text && absorb(mail@, raw@).1 == Ok::<Seq<char>, Fault>(
            reply_text(t, Seq::empty()),
        ),
{
    let mut mail = mail;
    let term = chars_of(BODY_TERMINATOR);
    let ends = ends_with_chars(line, &term);
    mail.data.append(raw);
    let reply = if ends {
        SMTP_OK
    } else {
        SMTP_EMPTY
    };
    (State::ReceivingData(mail), Ok(Reply::Text(reply)))
}

/// The answer to a command that the state does not allow: a body line while
/// the body is open, an error otherwise.
fn refuse(state: State, line: &Vec<char>, raw: &str) -> (r: (State, Result<Reply, SmtpError>))
    requires
        line@ == raw@,
    ensures
        state is ReceivingData ==> {
            &&& r.0@ == absorb(state@->ReceivingData_0, raw@).0
            &&& r.1 matches Ok(t)
            &&& t is Text
            &&& absorb(state@->ReceivingData_0, raw@).1 == Ok::<Seq<char>, Fault>(
                reply_text(t, Seq::empty()),
            )
        },
        !(state is ReceivingData) ==> {
            &&& r.0@ == StateView::Ready
            &&& r.1 matches Err(SmtpError::UnexpectedCommand { state: s, line: l })
            &&& s@ == state@
            &&& l@ == raw@
        },
{
    match state {
        State::ReceivingData(mail) => absorb_line(mail, line, raw),
        other => (State::Ready, Err(SmtpError::UnexpectedCommand { state: other, line: String::from_str(raw) })),
    }
}

/// One step from `state` on the line `raw`, whose characters are `line` and
/// which holds at least one word; `greeting` is the session's `EHLO` answer.
fn dispatch(state: State, line: &Vec<char>, raw: &str, Ghost(greeting): Ghost<Seq<char>>) -> (r: (
    State,
    Result<Reply, SmtpError>,
))
    requires
        line@ == raw@,
        has_word(line@, 0),
    ensures
        r.0@ == step(state@, greeting, raw@).0,
        step(state@, greeting, raw@).1 matches Ok(t) ==> (r.1 matches Ok(rep) && reply_text(
            rep,
            greeting,
        ) == t),
        step(state@, greeting, raw@).1 matches Err(f) ==> (r.1 matches Err(e) && e.fault() == f),
        r.1 matches Err(SmtpError::UnexpectedCommand { state: s, line: l }) ==> s@ == state@ && l@
            == raw@,
{
    let (s0, e0) = next_word(line, 0, Ghost(0));
    let v = verb_at(line, s0, e0);
    match v {
        Verb::Ehlo => match state {
            State::Ready => (State::Acknowledged, Ok(Reply::Greeting)),
            other => refuse(other, line, raw),
        },
        Verb::Helo => match state {
            State::Ready => (State::Acknowledged, Ok(Reply::Text(SMTP_OK))),
            other => refuse(other, line, raw),
        },
        Verb::Noop | Verb::Help | Verb::Info | Verb::Vrfy | Verb::Expn => (
            state,
            Ok(Reply::Text(SMTP_OK)),
        ),
        Verb::Rset => (State::Ready, Ok(Reply::Text(SMTP_OK))),
        Verb::Auth => (State::Ready, Ok(Reply::Text(SMTP_AUTH_OK))),
        Verb::Mail => match state {
            State::Acknowledged => {
                let prefix = vec!['F', 'R', 'O', 'M', ':'];
                assert(prefix@ =~= from_prefix());
                match address_in(line, raw, e0, &prefix) {
                    Some(from) => {
                        let mail = Mail { from, to: Vec::new(), data: String::new() };
                        assert(mail.to@.map_values(|t: String| t@) =~= Seq::<Seq<char>>::empty());
                        (State::ReceivingRcpt(mail), Ok(Reply::Text(SMTP_OK)))
                    },
                    None => (State::Ready, Err(SmtpError::Malformed)),
                }
            },
            other => refuse(other, line, raw),
        },
        Verb::Rcpt => match state {
            State::ReceivingRcpt(mail) => {
                let mut mail = mail;
                let prefix = vec!['T', 'O', ':'];
                assert(prefix@ =~= to_prefix());
                match address_in(line, raw, e0, &prefix) {
                    Some(to) => {
                        let ghost before = mail@;
                        let ghost added = to@;
                        mail.to.push(to);
                        assert(mail@.to =~= before.to.push(added));
                        (State::ReceivingRcpt(mail), Ok(Reply::Text(SMTP_OK)))
                    },
                    None => (State::Ready, Err(SmtpError::Malformed)),
                }
            },
            other => refuse(other, line, raw),
        },
        Verb::Data => match state {
            State::ReceivingRcpt(mail) => (State::ReceivingData(mail), Ok(Reply::Text(SMTP_SEND_ME_DATA))),
            other => refuse(other, line, raw),
        },
        Verb::Quit => match state {
            State::ReceivingData(mail) => (State::Received(mail), Ok(Reply::Text(SMTP_GOODBYE))),
            _ => (State::Ready, Ok(Reply::Text(SMTP_GOODBYE))),
        },
        Verb::Other => refuse(state, line, raw),
    }
}

impl Connection {
    /// A fresh session in state `Ready` for a server named `domain`.
    pub fn new(domain: &str) -> (c: Connection)
        ensures
            c.state@ == StateView::Ready,
            c.ehlo_greeting@ == greeting_for(domain@),
    {
        let mut ehlo_greeting = String::from_str("250-");
        ehlo_greeting.append(domain);
        ehlo_greeting.append(" Hello ");
        ehlo_greeting.append(domain);
        ehlo_greeting.append("\n250 AUTH PLAIN LOGIN\n");
        Connection { state: State::Ready, ehlo_greeting }
    }

    /// Handles one received line: moves the session to its next state and
    /// returns the bytes to write back, or the reason the line was refused.
    /// After a refusal the session is `Ready`, but for `EmptyCommand`, which
    /// leaves it as it was.
    pub fn handle_smtp(&mut self, raw_msg: &str) -> (r: Result<&[u8], SmtpError>)
        ensures
            final(self).ehlo_greeting == old(self).ehlo_greeting,
            final(self).state@ == step(old(self).state@, old(self).ehlo_greeting@, raw_msg@).0,
            step(old(self).state@, old(self).ehlo_greeting@, raw_msg@).1 matches Ok(t) ==> (r matches Ok(
                b,
            ) && b@ == encode_utf8(t)),
            step(old(self).state@, old(self).ehlo_greeting@, raw_msg@).1 matches Err(f) ==> (r matches Err(
                e,
            ) && e.fault() == f),
            r matches Err(SmtpError::UnexpectedCommand { state, line }) ==> state@ == old(
                self,
            ).state@ && line@ == raw_msg@,
    {
        let line = chars_of(raw_msg);
        let (s0, _e0) = next_word(&line, 0, Ghost(0));
        let mut state = State::Ready;
        std::mem::swap(&mut self.state, &mut state);
        let (next, res) = if s0 == line.len() {
            match state {
                State::ReceivingData(mail) => absorb_line(mail, &line, raw_msg),
                other => (other, Err(SmtpError::EmptyCommand)),
            }
        } else {
            dispatch(state, &line, raw_msg, Ghost(self.ehlo_greeting@))
        };
        self.state = next;
        match res {
            Ok(Reply::Greeting) => Ok(self.ehlo_greeting.as_str().as_bytes()),
            Ok(Reply::Text(t)) => Ok(t.as_bytes()),
            Err(e) => Err(e),
        }
    }
}

} // verus!
