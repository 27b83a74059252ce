use vstd::prelude::*;
use crate::json::{parse_line, str_field, str_eq, json_of_line, Json};
use crate::status::{extract_status, spec_status};
use crate::session::SessionStore;

verus! {

/// The final outcome of one exchange: the accumulated result text and the
/// session identifier observed while it ran.
#[derive(Debug, Clone)]
pub struct ClaudeResponse {
    pub result: String,
    pub session_id: Option<String>,
}

/// One incremental notification for the embedding user interface, as sent
/// over the side channel: a kind (`status`, `chunk` or `done`) and a payload.
#[derive(Debug, Clone)]
pub struct StreamEvent {
    pub event: String,
    pub data: String,
}

/// What one exchange has accumulated so far while its stream is read.
pub struct Exchange {
    session_id: Option<String>,
    result: String,
}

/// The ghost image of an exchange in progress.
pub ghost struct ExchangeView {
    pub session: Option<Seq<char>>,
    pub result: Seq<char>,
}

impl View for Exchange {
    type V = ExchangeView;

    closed spec fn view(&self) -> ExchangeView {
        ExchangeView { session: self.session_id.deep_view(), result: self.result@ }
    }
}

/// An exchange that has observed nothing yet.
pub open spec fn fresh_exchange() -> ExchangeView {
    ExchangeView { session: None, result: Seq::empty() }
}

/// One decoded event folded into the exchange: a `session_id` string field
/// overwrites the held identifier, and a `result` event's `result` string
/// overwrites the accumulated text. The last write wins in both.
pub open spec fn spec_step(st: ExchangeView, j: Json) -> ExchangeView {
    ExchangeView {
        session: match str_field(j, "session_id"@) {
            Some(s) => Some(s),
            None => st.session,
        },
        result: if str_field(j, "type"@) == Some("result"@) {
            match str_field(j, "result"@) {
                Some(r) => r,
                None => st.result,
            }
        } else {
            st.result
        },
    }
}

/// One raw line folded into the exchange: a line that does not decode as
/// JSON is a no-op.
pub open spec fn spec_step_line(st: ExchangeView, line: Seq<char>) -> ExchangeView {
    match json_of_line(line) {
        Some(j) => spec_step(st, j),
        None => st,
    }
}

/// A whole stream of lines folded into the exchange, first to last.
pub open spec fn spec_run(st: ExchangeView, lines: Seq<Seq<char>>) -> ExchangeView
    decreases lines.len(),
{
    if lines.len() == 0 {
        st
    } else {
        spec_step_line(spec_run(st, lines.drop_last()), lines.last())
    }
}

/// The status a raw line yields, if it decodes and carries one.
pub open spec fn status_of_line(line: Seq<char>) -> Option<Seq<char>> {
    match json_of_line(line) {
        Some(j) => spec_status(j),
        None => None,
    }
}

/// The session identifier a raw line carries, if it decodes and has one.
pub open spec fn session_of_line(line: Seq<char>) -> Option<Seq<char>> {
    match json_of_line(line) {
        Some(j) => str_field(j, "session_id"@),
        None => None,
    }
}

/// The status lines a stream yields, in stream order.
pub open spec fn spec_statuses(lines: Seq<Seq<char>>) -> Seq<Seq<char>>
    decreases lines.len(),
{
    if lines.len() == 0 {
        Seq::empty()
    } else {
        spec_statuses(lines.drop_last()) + match status_of_line(lines.last()) {
            Some(s) => seq![s],
            None => Seq::<Seq<char>>::empty(),
        }
    }
}

/// A line is well-formed when it decodes as JSON.
pub open spec fn well_formed(line: Seq<char>) -> bool {
    json_of_line(line) is Some
}

/// The well-formed lines of a stream, in order.
pub open spec fn well_formed_only(lines: Seq<Seq<char>>) -> Seq<Seq<char>> {
    lines.filter(|l: Seq<char>| well_formed(l))
}

impl Exchange {
    /// An exchange that has observed nothing yet.
    pub fn new() -> (e: Self)
        ensures
            e@ == fresh_exchange(),
    {
        Exchange { session_id: None, result: String::new() }
    }

    /// Fold one raw line of subprocess output into the exchange, and hand
    /// back the stream event to pass on when the line carries a status. A
    /// line that does not decode as JSON changes nothing and yields nothing.
    pub fn process_line(&mut self, line: &str) -> (ev: Option<StreamEvent>)
        ensures
            final(self)@ == spec_step_line(old(self)@, line@),
            match status_of_line(line@) {
                Some(s) => ev matches Some(e) && e.event@ == "status"@ && e.data@ == s,
                None => ev is None,
            },
    {
        match parse_line(line) {
            None => None,
            Some(j) => {
                match j.get_str("session_id") {
                    Some(sid) => {
                        self.session_id = Some(sid.clone());
                    },
                    None => (),
                }
                let status = extract_status(&j);
                let is_result = match j.get_str("type") {
                    Some(t) => str_eq(t.as_str(), "result"),
                    None => false,
                };
                if is_result {
                    match j.get_str("result") {
                        Some(r) => {
                            self.result = r.clone();
                        },
                        None => (),
                    }
                }
                match status {
                    Some(s) => Some(StreamEvent { event: String::from_str("status"), data: s }),
                    None => None,
                }
            },
        }
    }

    /// Conclude the exchange once the subprocess has exited. On a success
    /// exit the observed session identifier, if one was seen, is persisted
    /// into the store, and the `done` event to pass on is returned beside
    /// the response. On a non-success exit the store is left untouched and
    /// the rendered exit status is carried in the error.
    pub fn finish(self, exit_ok: bool, exit_status_text: String, store: &mut SessionStore) -> (r:
        Result<(ClaudeResponse, StreamEvent), BridgeError>)
        ensures
            !exit_ok ==> r == Result::<(ClaudeResponse, StreamEvent), BridgeError>::Err(
                BridgeError::ExitFailure(exit_status_text),
            ) && final(store)@ == old(store)@,
            exit_ok ==> (r matches Ok(p) && p.0.result@ == self@.result
                && p.0.session_id.deep_view() == self@.session && p.1.event@ == "done"@
                && p.1.data@ == self@.result && final(store)@ == (match self@.session {
                Some(s) => Some(s),
                None => old(store)@,
            })),
    {
        if !exit_ok {
            return Err(BridgeError::ExitFailure(exit_status_text));
        }
        match &self.session_id {
            Some(sid) => store.set(sid.clone()),
            None => (),
        }
        let done = StreamEvent { event: String::from_str("done"), data: self.result.clone() };
        Ok((ClaudeResponse { result: self.result, session_id: self.session_id }, done))
    }
}

/// Why a dispatch failed. The embedder renders the text with `message`.
#[derive(Debug)]
pub enum BridgeError {
    /// The subprocess could not be started; the underlying cause follows.
    SpawnFailed(String),
    /// Reading its output stream failed; the underlying cause follows.
    ReadFailed(String),
    /// The subprocess ran but exited with the non-success status held here,
    /// already rendered as text.
    ExitFailure(String),
}

/// The error text shown to the user for each failure.
pub open spec fn spec_message(e: BridgeError) -> Seq<char> {
    match e {
        BridgeError::SpawnFailed(c) => "Failed to spawn the assistant CLI. Make sure it's installed: "@
            + c@,
        BridgeError::ReadFailed(c) => c@,
        BridgeError::ExitFailure(s) => "The assistant CLI exited with status: "@ + s@,
    }
}

impl BridgeError {
    /// The error text shown to the user.
    pub fn message(&self) -> (r: String)
        ensures
            r@ == spec_message(*self),
    {
        match self {
            BridgeError::SpawnFailed(c) => String::from_str(
                "Failed to spawn the assistant CLI. Make sure it's installed: ",
            ).concat(c.as_str()),
            BridgeError::ReadFailed(c) => c.clone(),
            BridgeError::ExitFailure(s) => String::from_str(
                "The assistant CLI exited with status: ",
            ).concat(s.as_str()),
        }
    }
}

/// The status events of a stream, in order: one `status` event per status
/// line, holding it.
pub open spec fn are_status_events(evs: Seq<StreamEvent>, sts: Seq<Seq<char>>) -> bool {
    evs.len() == sts.len() && forall|i: int|
        0 <= i < sts.len() ==> (#[trigger] evs[i]).event@ == "status"@ && evs[i].data@ == sts[i]
}

/// Run the line-processing half of a dispatch over an already collected
/// stream: fold every line in order, collect the status events, then
/// conclude against the exit status. The verdict equals the one an
/// incremental caller reaches by feeding the same lines one at a time.
pub fn dispatch_lines(store: &mut SessionStore, lines: &Vec<String>, exit_ok: bool,
    exit_status_text: String) -> (r: (Vec<StreamEvent>, Result<ClaudeResponse, BridgeError>))
    ensures
        ({
            let outcome = spec_run(fresh_exchange(), lines.deep_view());
            let sts = spec_statuses(lines.deep_view());
            &&& are_status_events(r.0@.take(sts.len() as int), sts)
            &&& !exit_ok ==> r.0@.len() == sts.len() && r.1 == Result::<
                ClaudeResponse,
                BridgeError,
            >::Err(BridgeError::ExitFailure(exit_status_text)) && final(store)@ == old(store)@
            &&& exit_ok ==> (r.1 matches Ok(resp) && r.0@.len() == sts.len() + 1
                && r.0@.last().event@ == "done"@ && r.0@.last().data@ == outcome.result
                && resp.result@ == outcome.result && resp.session_id.deep_view() == outcome.session
                && final(store)@ == (match outcome.session {
                Some(s) => Some(s),
                None => old(store)@,
            }))
        }),
{
    let mut ex = Exchange::new();
    let mut events: Vec<StreamEvent> = Vec::new();
    let n = lines.len();
    let mut i: usize = 0;
    proof {
        assert(lines.deep_view().take(0) =~= Seq::<Seq<char>>::empty());
    }
    while i < n
        invariant
            n == lines@.len(),
            i <= n,
            ex@ == spec_run(fresh_exchange(), lines.deep_view().take(i as int)),
            are_status_events(events@, spec_statuses(lines.deep_view().take(i as int))),
        decreases n - i,
    {
        proof {
            assert(lines.deep_view()[i as int] == lines@[i as int]@);
        }
        let ev = ex.process_line(lines[i].as_str());
        match ev {
            Some(e) => events.push(e),
            None => (),
        }
        proof {
            let lv = lines.deep_view();
            assert(lv.take(i as int + 1).drop_last() =~= lv.take(i as int));
            assert(lv.take(i as int + 1).last() == lv[i as int]);
        }
        i = i + 1;
    }
    proof {
        assert(lines.deep_view().take(n as int) =~= lines.deep_view());
    }
    match ex.finish(exit_ok, exit_status_text, store) {
        Ok(p) => {
            let (resp, done) = p;
            events.push(done);
            proof {
                let sts = spec_statuses(lines.deep_view());
                assert(events@.take(sts.len() as int) =~= events@.drop_last());
            }
            (events, Ok(resp))
        },
        Err(e) => {
            proof {
                let sts = spec_statuses(lines.deep_view());
                assert(events@.take(sts.len() as int) =~= events@);
            }
            (events, Err(e))
        },
    }
}

/// Only well-formed lines move an exchange: folding a stream equals folding
/// just its well-formed lines, and the stream's statuses are the statuses of
/// its well-formed lines. Malformed lines, wherever they sit, are no-ops.
pub proof fn lemma_malformed_lines_are_noops(st: ExchangeView, lines: Seq<Seq<char>>)
    ensures
        spec_run(st, lines) == spec_run(st, well_formed_only(lines)),
        spec_statuses(lines) == spec_statuses(well_formed_only(lines)),
    decreases lines.len(),
{
    reveal(Seq::filter);
    if lines.len() == 0 {
        assert(well_formed_only(lines) =~= lines);
    } else {
        lemma_malformed_lines_are_noops(st, lines.drop_last());
        let rest = well_formed_only(lines.drop_last());
        if well_formed(lines.last()) {
            assert(well_formed_only(lines) == rest.push(lines.last()));
            assert(rest.push(lines.last()).drop_last() =~= rest);
            assert(rest.push(lines.last()).last() == lines.last());
            assert(rest.push(lines.last()).len() > 0);
        } else {
            assert(well_formed_only(lines) == rest);
            assert(status_of_line(lines.last()) is None);
            assert(spec_statuses(lines) =~= spec_statuses(lines.drop_last()));
        }
    }
}

/// The session identifier a stream leaves behind: the one carried by the
/// last line that carried any, whatever kind of event it was, or the
/// initial one when none did.
pub open spec fn last_session(init: Option<Seq<char>>, lines: Seq<Seq<char>>) -> Option<Seq<char>>
    decreases lines.len(),
{
    if lines.len() == 0 {
        init
    } else {
        match session_of_line(lines.last()) {
            Some(s) => Some(s),
            None => last_session(init, lines.drop_last()),
        }
    }
}

/// The last write wins: after a stream is folded, the exchange holds the
/// session identifier of the last line that carried one, regardless of the
/// kind of event that carried it.
pub proof fn lemma_last_session_id_wins(st: ExchangeView, lines: Seq<Seq<char>>)
    ensures
        spec_run(st, lines).session == last_session(st.session, lines),
    decreases lines.len(),
{
    if lines.len() > 0 {
        lemma_last_session_id_wins(st, lines.drop_last());
    }
}

} // verus!
