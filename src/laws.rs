use vstd::prelude::*;

use crate::lexer::{has_word, word};
use crate::protocol::{
    address, is_no_op, step, to_prefix, verb_of, Fault, MailView, StateView, Verb, SMTP_GOODBYE,
    SMTP_OK,
};

verus! {

/// The state a session reaches from `st` after the lines `lines`, in order.
pub open spec fn run(st: StateView, greeting: Seq<char>, lines: Seq<Seq<char>>) -> StateView
    decreases lines.len(),
{
    if lines.len() == 0 {
        st
    } else {
        step(run(st, greeting, lines.drop_last()), greeting, lines.last()).0
    }
}

/// The lines joined end to end, in order.
pub open spec fn concat(lines: Seq<Seq<char>>) -> Seq<char>
    decreases lines.len(),
{
    if lines.len() == 0 {
        Seq::empty()
    } else {
        concat(lines.drop_last()) + lines.last()
    }
}

/// The verb that starts `line`, or `Other` for a line without a word.
pub open spec fn line_verb(line: Seq<char>) -> Verb {
    if has_word(line, 0) {
        verb_of(word(line, 0))
    } else {
        Verb::Other
    }
}

/// Whether `line`, received while the body is open, is taken as body text:
/// it does not start with a verb that acts in that state.
pub open spec fn is_body_line(line: Seq<char>) -> bool {
    let v = line_verb(line);
    !is_no_op(v) && !(v is Rset) && !(v is Auth) && !(v is Quit)
}

/// The recipients of the envelope that `st` holds (none without one).
pub open spec fn recipients(st: StateView) -> Seq<Seq<char>> {
    match st {
        StateView::ReceivingRcpt(m) => m.to,
        StateView::ReceivingData(m) => m.to,
        StateView::Received(m) => m.to,
        _ => Seq::empty(),
    }
}

/// `NOOP`, `HELP`, `INFO`, `VRFY` and `EXPN` answer `250 Ok` and leave the
/// state as it was, whatever the state.
pub proof fn lemma_no_op_keeps_state(st: StateView, greeting: Seq<char>, line: Seq<char>)
    requires
        has_word(line, 0),
        is_no_op(verb_of(word(line, 0))),
    ensures
        step(st, greeting, line) == (st, Ok::<Seq<char>, Fault>(SMTP_OK@)),
{
}

/// `RSET` answers `250 Ok` and leads to `Ready` from every state, dropping
/// any envelope.
pub proof fn lemma_reset_yields_ready(st: StateView, greeting: Seq<char>, line: Seq<char>)
    requires
        has_word(line, 0),
        verb_of(word(line, 0)) is Rset,
    ensures
        step(st, greeting, line) == (StateView::Ready, Ok::<Seq<char>, Fault>(SMTP_OK@)),
{
}

/// Recipients are collected only in `ReceivingRcpt`: that state is entered
/// only by `MAIL` from `Acknowledged`, with no recipient, or kept from
/// itself; a successful `RCPT` command comes only from `ReceivingRcpt`, and
/// appends exactly its address; and no step adds a recipient otherwise.
pub proof fn lemma_recipients_only_after_mail(st: StateView, greeting: Seq<char>, line: Seq<char>)
    ensures
        step(st, greeting, line).0 is ReceivingRcpt ==> (st is ReceivingRcpt || (st is Acknowledged
            && line_verb(line) is Mail && recipients(step(st, greeting, line).0).len() == 0)),
        line_verb(line) is Rcpt && !(st is ReceivingData) && step(st, greeting, line).1 is Ok ==> (
        st is ReceivingRcpt && recipients(step(st, greeting, line).0) == recipients(st).push(
            address(line, to_prefix())->0,
        )),
        !(line_verb(line) is Rcpt && st is ReceivingRcpt) ==> (recipients(step(st, greeting, line).0)
            == recipients(st) || recipients(step(st, greeting, line).0).len() == 0),
{
}

/// Body lines are appended to the body exactly as received, in order.
pub proof fn lemma_body_lines_accumulate(m: MailView, greeting: Seq<char>, lines: Seq<Seq<char>>)
    requires
        forall|i: int| 0 <= i < lines.len() ==> is_body_line(#[trigger] lines[i]),
    ensures
        run(StateView::ReceivingData(m), greeting, lines) == StateView::ReceivingData(
            MailView { data: m.data + concat(lines), ..m },
        ),
    decreases lines.len(),
{
    if lines.len() > 0 {
        lemma_body_lines_accumulate(m, greeting, lines.drop_last());
        assert(m.data + concat(lines) =~= m.data + concat(lines.drop_last()) + lines.last());
    } else {
        assert(m.data + concat(lines) =~= m.data);
    }
}

/// An envelope waiting for recipients has an empty body in every session
/// that starts in `Ready`.
pub proof fn lemma_recipient_phase_has_empty_body(greeting: Seq<char>, lines: Seq<Seq<char>>)
    ensures
        run(StateView::Ready, greeting, lines) matches StateView::ReceivingRcpt(m) ==> m.data.len()
            == 0,
    decreases lines.len(),
{
    if lines.len() > 0 {
        lemma_recipient_phase_has_empty_body(greeting, lines.drop_last());
    }
}

/// In a session from `Ready`, once `DATA` has opened the body, the envelope
/// that `QUIT` completes holds as its body exactly the body lines received
/// in between, joined in order.
pub proof fn lemma_received_body_is_concatenation(
    greeting: Seq<char>,
    before: Seq<Seq<char>>,
    data_line: Seq<char>,
    body: Seq<Seq<char>>,
    quit_line: Seq<char>,
)
    requires
        run(StateView::Ready, greeting, before) is ReceivingRcpt,
        line_verb(data_line) is Data,
        forall|i: int| 0 <= i < body.len() ==> is_body_line(#[trigger] body[i]),
        line_verb(quit_line) is Quit,
    ensures
        run(StateView::Ready, greeting, before.push(data_line) + body) is ReceivingData,
        step(run(StateView::Ready, greeting, before.push(data_line) + body), greeting, quit_line)
            == (StateView::Received(
            MailView { data: concat(body), ..run(StateView::Ready, greeting, before)->ReceivingRcpt_0 },
        ), Ok::<Seq<char>, Fault>(SMTP_GOODBYE@)),
{
    let m = run(StateView::Ready, greeting, before)->ReceivingRcpt_0;
    lemma_recipient_phase_has_empty_body(greeting, before);
    let opened = before.push(data_line);
    assert(opened.drop_last() =~= before);
    assert(run(StateView::Ready, greeting, opened) == StateView::ReceivingData(m));
    lemma_run_append(StateView::Ready, greeting, opened, body);
    lemma_body_lines_accumulate(m, greeting, body);
}

/// Running two line sequences one after the other is running their
/// concatenation.
pub proof fn lemma_run_append(
    st: StateView,
    greeting: Seq<char>,
    first: Seq<Seq<char>>,
    second: Seq<Seq<char>>,
)
    ensures
        run(st, greeting, first + second) == run(run(st, greeting, first), greeting, second),
    decreases second.len(),
{
    if second.len() == 0 {
        assert(first + second =~= first);
    } else {
        lemma_run_append(st, greeting, first, second.drop_last());
        assert((first + second).drop_last() =~= first + second.drop_last());
        assert((first + second).last() == second.last());
    }
}

} // verus!
