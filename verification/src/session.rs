//! The streaming session: a state machine that drives the receive loop one
//! step at a time.  The transport layer reads frames and performs sends;
//! every decision — what a frame's records yield, when the loop ends, when
//! the one stop record goes out, and what the drain phase appends — is
//! taken here.

use vstd::prelude::*;
use crate::codec::FrameCodec;
use crate::const_vars::{gen_chat_hub_wss_url, spec_chat_hub_wss_url};
use crate::dispatch::{
    json2bot_resp_type1, json2bot_resp_type2, spec_type1_events, spec_type1_spawns,
    spec_type2_result, BackgroundJob, JobModel,
};
use crate::error::ClientError;
use crate::record::{Record, RecordModel};
use crate::strings::clone_opt_string;
use crate::types::bot_easy_resp::{BotResp, EventModel};
use crate::types::chat_type::Chat;

verus! {

/// The lifecycle of a session; `Closed` is terminal and no state is
/// re-entered.
#[derive(Debug, Clone, Copy, PartialEq, Eq, Structural)]
pub enum SessionState {
    Connecting,
    Handshaking,
    Streaming,
    Draining,
    Closed,
}

/// What the transport handed the loop for one iteration.
#[derive(Debug)]
pub enum SessionInput {
    /// A text frame, already decoded into its records.
    Records(Vec<Record>),
    /// A non-text frame: skipped.
    NonText,
    /// A close frame: the stream is over.
    CloseFrame,
    /// The connection reported itself closed: treated as natural
    /// completion.
    TerminalError,
    /// Any other transport error: skipped.
    RecoverableError,
    /// The inbound stream ended.
    Ended,
}

/// What one step of the receive loop asks the transport to do.
#[derive(Debug)]
pub struct StepOutput {
    /// The semantic events this frame yielded, in generation order.
    pub events: Vec<BotResp>,
    /// Send the one stop record now.
    pub send_stop: bool,
    /// How many heartbeat echo records to send.
    pub heartbeat_echoes: usize,
    /// The generation jobs to start; the session also remembers them for
    /// the drain phase.
    pub spawned: Vec<BackgroundJob>,
}

/// What the combined dispatch of a frame's records amounts to.
#[verifier::ext_equal]
pub struct FrameOutcome {
    pub events: Seq<EventModel>,
    pub spawns: Seq<JobModel>,
    pub echoes: nat,
    pub ended: bool,
}

/// Runs the dispatch table over a frame's records, in order, stopping at
/// the first terminal record: records after it are never read.
pub open spec fn spec_run_records(rs: Seq<RecordModel>) -> FrameOutcome
    decreases rs.len(),
{
    if rs.len() == 0 {
        FrameOutcome { events: seq![], spawns: seq![], echoes: 0, ended: false }
    } else {
        let r = rs[0];
        match r.type_num {
            Some(t) => if t == 1 {
                let rest = spec_run_records(rs.drop_first());
                FrameOutcome {
                    events: spec_type1_events(r.messages) + rest.events,
                    spawns: spec_type1_spawns(r.messages) + rest.spawns,
                    echoes: rest.echoes,
                    ended: rest.ended,
                }
            } else if t == 2 {
                FrameOutcome {
                    events: match r.item {
                        Some(item) => match spec_type2_result(item) {
                            Some(evs) => evs,
                            None => seq![],
                        },
                        None => seq![],
                    },
                    spawns: seq![],
                    echoes: 0,
                    ended: true,
                }
            } else if t == 3 {
                FrameOutcome { events: seq![], spawns: seq![], echoes: 0, ended: true }
            } else if t == 6 {
                let rest = spec_run_records(rs.drop_first());
                FrameOutcome {
                    events: rest.events,
                    spawns: rest.spawns,
                    echoes: rest.echoes + 1,
                    ended: rest.ended,
                }
            } else {
                spec_run_records(rs.drop_first())
            },
            None => spec_run_records(rs.drop_first()),
        }
    }
}

/// What awaiting one background job yielded: the event its task completed
/// with, or the panic message of a task that never did.
#[derive(Debug)]
pub enum JoinOutcome {
    Completed(BotResp),
    Panicked(String),
}

#[verifier::ext_equal]
pub enum JoinOutcomeModel {
    Completed(EventModel),
    Panicked(Seq<char>),
}

impl View for JoinOutcome {
    type V = JoinOutcomeModel;

    open spec fn view(&self) -> JoinOutcomeModel {
        match self {
            JoinOutcome::Completed(e) => JoinOutcomeModel::Completed(e@),
            JoinOutcome::Panicked(m) => JoinOutcomeModel::Panicked(m@),
        }
    }
}

impl DeepView for JoinOutcome {
    type V = JoinOutcomeModel;

    open spec fn deep_view(&self) -> JoinOutcomeModel {
        self.view()
    }
}

/// The apology text for a job whose task panicked.
pub open spec fn spec_join_failed_text(m: Seq<char>) -> Seq<char> {
    "Bing Copilot Draw Image Join Failed; Error Message: "@ + m
}

/// The one event each awaited job resolves to.
pub open spec fn spec_drain_event(o: JoinOutcomeModel) -> EventModel {
    match o {
        JoinOutcomeModel::Completed(e) => e,
        JoinOutcomeModel::Panicked(m) => EventModel::Apology(spec_join_failed_text(m)),
    }
}

/// The events the drain phase yields, one per job, in completion order.
pub open spec fn spec_drain_events(os: Seq<JoinOutcomeModel>) -> Seq<EventModel> {
    os.map_values(|o: JoinOutcomeModel| spec_drain_event(o))
}

/// The streaming session.  Its pending list remembers every spawned job;
/// the drain phase resolves each to exactly one terminal event.
#[derive(Debug)]
pub struct StreamSession {
    pub state: SessionState,
    pub stop_sent: bool,
    pub pending: Vec<BackgroundJob>,
}

impl StreamSession {
    /// A session about to connect.
    pub fn new() -> (r: StreamSession)
        ensures
            r.state is Connecting,
            !r.stop_sent,
            r.pending@.len() == 0,
    {
        StreamSession { state: SessionState::Connecting, stop_sent: false, pending: Vec::new() }
    }

    /// The transport connection is up; the handshake exchange begins.
    pub fn transport_connected(&mut self)
        requires
            old(self).state is Connecting,
        ensures
            final(self).state is Handshaking,
            final(self).stop_sent == old(self).stop_sent,
            final(self).pending == old(self).pending,
    {
        self.state = SessionState::Handshaking;
    }

    /// The handshake acknowledgment was read and the request sent; frames
    /// stream from here on.
    pub fn handshake_done(&mut self)
        requires
            old(self).state is Handshaking,
        ensures
            final(self).state is Streaming,
            final(self).stop_sent == old(self).stop_sent,
            final(self).pending == old(self).pending,
    {
        self.state = SessionState::Streaming;
    }

    /// One iteration of the receive loop: dispatches what the transport
    /// handed in, asks for the one stop record while the cancellation flag
    /// is set, and moves to `Draining` when a terminal record, a close or
    /// a closed connection ends the loop.
    pub fn step(&mut self, input: SessionInput, cancel_requested: bool) -> (out: StepOutput)
        requires
            old(self).state is Streaming,
        ensures
            out.send_stop == (cancel_requested && !old(self).stop_sent),
            final(self).stop_sent == (old(self).stop_sent || cancel_requested),
            final(self).state is Streaming || final(self).state is Draining,
            match input {
                SessionInput::Records(records) => {
                    let oc = spec_run_records(records.deep_view());
                    &&& out.events.deep_view() == oc.events
                    &&& out.heartbeat_echoes == oc.echoes
                    &&& out.spawned.deep_view() == oc.spawns
                    &&& final(self).pending.deep_view() == old(self).pending.deep_view()
                        + oc.spawns
                    &&& final(self).state == (if oc.ended {
                        SessionState::Draining
                    } else {
                        SessionState::Streaming
                    })
                },
                SessionInput::NonText | SessionInput::RecoverableError => {
                    &&& out.events@.len() == 0
                    &&& out.heartbeat_echoes == 0
                    &&& out.spawned@.len() == 0
                    &&& final(self).pending == old(self).pending
                    &&& final(self).state is Streaming
                },
                SessionInput::CloseFrame | SessionInput::TerminalError | SessionInput::Ended => {
                    &&& out.events@.len() == 0
                    &&& out.heartbeat_echoes == 0
                    &&& out.spawned@.len() == 0
                    &&& final(self).pending == old(self).pending
                    &&& final(self).state is Draining
                },
            },
    {
        let send_stop = cancel_requested && !self.stop_sent;
        if cancel_requested {
            self.stop_sent = true;
        }
        match input {
            SessionInput::Records(records) => {
                let ghost full = records.deep_view();
                let ghost oc = spec_run_records(full);
                let mut events: Vec<BotResp> = Vec::new();
                let mut spawned: Vec<BackgroundJob> = Vec::new();
                let mut echoes: usize = 0;
                let mut ended = false;
                let mut i: usize = 0;
                proof {
                    assert(full.skip(0) =~= full);
                    assert(events.deep_view() + spec_run_records(full).events =~= spec_run_records(
                        full,
                    ).events);
                    assert(spawned.deep_view() + spec_run_records(full).spawns
                        =~= spec_run_records(full).spawns);
                }
                while i < records.len() && !ended
                    invariant
                        0 <= i <= full.len(),
                        full == records.deep_view(),
                        echoes <= i,
                        !ended ==> {
                            &&& oc.events == events.deep_view() + spec_run_records(
                                full.skip(i as int),
                            ).events
                            &&& oc.spawns == spawned.deep_view() + spec_run_records(
                                full.skip(i as int),
                            ).spawns
                            &&& oc.echoes == echoes + spec_run_records(full.skip(i as int)).echoes
                            &&& oc.ended == spec_run_records(full.skip(i as int)).ended
                        },
                        ended ==> {
                            &&& oc.events == events.deep_view()
                            &&& oc.spawns == spawned.deep_view()
                            &&& oc.echoes == echoes
                            &&& oc.ended
                        },
                        oc == spec_run_records(full),
                    decreases full.len() - i,
                {
                    let ghost pre_events = events.deep_view();
                    let ghost pre_spawned = spawned.deep_view();
                    proof {
                        assert(full.skip(i as int)[0] == full[i as int]);
                        assert(full.skip(i as int).drop_first() =~= full.skip(i + 1));
                    }
                    let record = &records[i];
                    match record.type_num {
                        Some(t) => {
                            if t == 1 {
                                let mut new_events = json2bot_resp_type1(record, &mut spawned);
                                events.append(&mut new_events);
                                proof {
                                    assert(events.deep_view() =~= pre_events + spec_type1_events(
                                        full[i as int].messages,
                                    ));
                                    assert(events.deep_view() + spec_run_records(
                                        full.skip(i + 1),
                                    ).events =~= pre_events + spec_run_records(
                                        full.skip(i as int),
                                    ).events);
                                    assert(spawned.deep_view() + spec_run_records(
                                        full.skip(i + 1),
                                    ).spawns =~= pre_spawned + spec_run_records(
                                        full.skip(i as int),
                                    ).spawns);
                                }
                            } else if t == 2 {
                                match json2bot_resp_type2(record) {
                                    Ok(mut new_events) => {
                                        events.append(&mut new_events);
                                    }
                                    Err(_) => {}
                                }
                                ended = true;
                                proof {
                                    assert(events.deep_view() =~= pre_events + spec_run_records(
                                        full.skip(i as int),
                                    ).events);
                                    assert(spawned.deep_view() =~= pre_spawned);
                                }
                            } else if t == 3 {
                                ended = true;
                            } else if t == 6 {
                                echoes = echoes + 1;
                            }
                        }
                        None => {}
                    }
                    i = i + 1;
                }
                proof {
                    if !ended {
                        assert(i == full.len());
                        assert(full.skip(full.len() as int) =~= Seq::<RecordModel>::empty());
                        assert(events.deep_view() =~= events.deep_view() + spec_run_records(
                            full.skip(full.len() as int),
                        ).events);
                        assert(spawned.deep_view() =~= spawned.deep_view() + spec_run_records(
                            full.skip(full.len() as int),
                        ).spawns);
                    }
                }
                let ghost pre_pending = self.pending.deep_view();
                let mut kept = clone_jobs(&spawned);
                self.pending.append(&mut kept);
                if ended {
                    self.state = SessionState::Draining;
                }
                proof {
                    assert(self.pending.deep_view() =~= pre_pending + oc.spawns);
                }
                StepOutput { events, send_stop, heartbeat_echoes: echoes, spawned }
            }
            SessionInput::NonText | SessionInput::RecoverableError => {
                StepOutput {
                    events: Vec::new(),
                    send_stop,
                    heartbeat_echoes: 0,
                    spawned: Vec::new(),
                }
            }
            SessionInput::CloseFrame | SessionInput::TerminalError | SessionInput::Ended => {
                self.state = SessionState::Draining;
                StepOutput {
                    events: Vec::new(),
                    send_stop,
                    heartbeat_echoes: 0,
                    spawned: Vec::new(),
                }
            }
        }
    }

    /// The drain phase: every spawned job has been awaited, and each
    /// outcome becomes exactly one terminal event, in completion order.
    /// The session is closed afterwards; no state is re-entered.
    pub fn drain(&mut self, outcomes: Vec<JoinOutcome>) -> (events: Vec<BotResp>)
        requires
            old(self).state is Draining,
            outcomes@.len() == old(self).pending@.len(),
        ensures
            final(self).state is Closed,
            final(self).pending@.len() == 0,
            final(self).stop_sent == old(self).stop_sent,
            events.deep_view() == spec_drain_events(outcomes.deep_view()),
            events@.len() == outcomes@.len(),
    {
        let ghost full = outcomes.deep_view();
        let mut events: Vec<BotResp> = Vec::new();
        let mut i: usize = 0;
        while i < outcomes.len()
            invariant
                0 <= i <= full.len(),
                full == outcomes.deep_view(),
                events@.len() == i,
                forall|j: int| 0 <= j < i ==> (#[trigger] events@[j])@ == spec_drain_event(full[j]),
            decreases full.len() - i,
        {
            let ghost pre = events@;
            match &outcomes[i] {
                JoinOutcome::Completed(resp) => {
                    events.push(resp.duplicate());
                }
                JoinOutcome::Panicked(m) => {
                    let mut text = String::from_str(
                        "Bing Copilot Draw Image Join Failed; Error Message: ",
                    );
                    text.append(m.as_str());
                    events.push(BotResp::Apology(text));
                }
            }
            proof {
                assert(events@ == pre.push(events@.last()));
            }
            i = i + 1;
        }
        self.state = SessionState::Closed;
        self.pending = Vec::new();
        proof {
            assert(events.deep_view() =~= spec_drain_events(full));
        }
        events
    }
}

/// Rebuilds a job list element by element, so each copy is known to match
/// its original.
fn clone_jobs(v: &Vec<BackgroundJob>) -> (r: Vec<BackgroundJob>)
    ensures
        r.deep_view() == v.deep_view(),
{
    let mut out: Vec<BackgroundJob> = Vec::new();
    let mut i: usize = 0;
    while i < v.len()
        invariant
            0 <= i <= v@.len(),
            out@.len() == i,
            forall|j: int| 0 <= j < i ==> (#[trigger] out@[j])@ == v@[j]@,
        decreases v@.len() - i,
    {
        out.push(BackgroundJob {
            message_id: clone_opt_string(&v[i].message_id),
            prompt: v[i].prompt.clone(),
        });
        i = i + 1;
    }
    proof {
        assert(out.deep_view() =~= v.deep_view());
    }
    out
}

/// The frames the open phase sends, in order: the handshake record, then
/// one heartbeat echo, then the serialized request payload, each with the
/// record terminator appended.
pub fn handshake_frame() -> (r: String)
    ensures
        r@ == "{\"protocol\":\"json\",\"version\":1}"@.push(crate::codec::RECORD_SEPARATOR),
{
    FrameCodec::encode("{\"protocol\":\"json\",\"version\":1}")
}

/// The heartbeat echo record, sent in the open phase and again for every
/// inbound heartbeat probe.
pub fn echo_frame() -> (r: String)
    ensures
        r@ == "{\"type\":6}"@.push(crate::codec::RECORD_SEPARATOR),
{
    FrameCodec::encode("{\"type\":6}")
}

/// The stop-request record, sent once when the cancellation token is set.
pub fn stop_frame() -> (r: String)
    ensures
        r@ == "{\"arguments\":[{}],\"invocationId\":\"3\",\"target\":\"stop\",\"type\":1}"@.push(
            crate::codec::RECORD_SEPARATOR,
        ),
{
    FrameCodec::encode("{\"arguments\":[{}],\"invocationId\":\"3\",\"target\":\"stop\",\"type\":1}")
}

/// A frame of nothing but heartbeat probes asks for exactly one echo per
/// record and yields no semantic event, spawns nothing, and leaves the
/// receive loop running.
pub proof fn lemma_heartbeats_echo_only(rs: Seq<RecordModel>)
    requires
        forall|i: int| 0 <= i < rs.len() ==> rs[i].type_num == Some(6u64),
    ensures
        spec_run_records(rs).echoes == rs.len(),
        spec_run_records(rs).events.len() == 0,
        spec_run_records(rs).spawns.len() == 0,
        !spec_run_records(rs).ended,
    decreases rs.len(),
{
    if rs.len() > 0 {
        assert(rs[0].type_num == Some(6u64));
        assert(forall|i: int|
            0 <= i < rs.drop_first().len() ==> rs.drop_first()[i] == rs[i + 1]);
        lemma_heartbeats_echo_only(rs.drop_first());
    }
}

/// One intermediate record whose single nested message is an apology
/// yields exactly one Apology event carrying that message's text,
/// whatever its other fields; it spawns nothing and the loop goes on.
pub proof fn lemma_apology_record(r: RecordModel, t: Seq<char>)
    requires
        r.type_num == Some(1u64),
        r.messages.len() == 1,
        r.messages[0].text == Some(t),
        r.messages[0].content_origin == Some("Apology"@),
    ensures
        spec_run_records(seq![r]).events =~= seq![EventModel::Apology(t)],
        spec_run_records(seq![r]).spawns.len() == 0,
        spec_run_records(seq![r]).echoes == 0,
        !spec_run_records(seq![r]).ended,
{
    let rs = seq![r];
    reveal_with_fuel(crate::dispatch::spec_type1_events, 3);
    reveal_with_fuel(crate::dispatch::spec_type1_spawns, 3);
    reveal_with_fuel(spec_run_records, 3);
    assert(rs[0] == r);
    assert(rs.drop_first() =~= Seq::<RecordModel>::empty());
    assert(r.messages.drop_first() =~= Seq::<crate::record::ChatMessageModel>::empty());
    assert(crate::dispatch::spec_message_events(r.messages[0]) =~= seq![EventModel::Apology(t)]);
    assert(crate::dispatch::spec_message_spawns(r.messages[0]) =~= Seq::<JobModel>::empty());
    assert(spec_type1_events(r.messages) =~= seq![EventModel::Apology(t)]);
    assert(spec_type1_spawns(r.messages) =~= Seq::<JobModel>::empty());
    assert(spec_run_records(rs).events =~= spec_type1_events(r.messages) + spec_run_records(
        rs.drop_first(),
    ).events);
    assert(spec_run_records(rs).spawns =~= spec_type1_spawns(r.messages) + spec_run_records(
        rs.drop_first(),
    ).spawns);
}

/// A message that requests content generation yields no event when its
/// record arrives: it only spawns one job, carrying the message id and
/// the prompt.  The job's terminal event comes out of the drain phase.
pub proof fn lemma_generation_spawns_silently(m: crate::record::ChatMessageModel, t: Seq<char>)
    requires
        m.text == Some(t),
        m.message_type == Some("GenerateContentQuery"@),
        !crate::dispatch::spec_is_apology(m),
    ensures
        crate::dispatch::spec_message_events(m).len() == 0,
        crate::dispatch::spec_message_spawns(m) =~= seq![
            JobModel { message_id: m.message_id, prompt: t },
        ],
{
    reveal_strlit("GenerateContentQuery");
    reveal_strlit("InternalLoaderMessage");
    assert("GenerateContentQuery"@.len() == 20);
    assert("InternalLoaderMessage"@.len() == 21);
}

/// The drain phase resolves every spawned job to exactly one terminal
/// event, and each is an Images or an Apology event wherever each
/// completed task ended with one of those.
pub proof fn lemma_drain_one_event_each(os: Seq<JoinOutcomeModel>)
    requires
        forall|i: int|
            0 <= i < os.len() ==> ((#[trigger] os[i]) matches JoinOutcomeModel::Completed(e) ==> (
            e is Image || e is Apology)),
    ensures
        spec_drain_events(os).len() == os.len(),
        forall|i: int|
            0 <= i < os.len() ==> ((#[trigger] spec_drain_events(os)[i]) is Image
                || spec_drain_events(os)[i] is Apology),
{
}

/// A terminal record ends the receive loop: the records after it are
/// never read, and nothing dispatched before it is lost.
pub proof fn lemma_terminal_record_ends_loop(rs: Seq<RecordModel>, k: int)
    requires
        0 <= k < rs.len(),
        rs[k].type_num == Some(2u64) || rs[k].type_num == Some(3u64),
        forall|j: int|
            0 <= j < k ==> !((#[trigger] rs[j].type_num) == Some(2u64) || rs[j].type_num == Some(
                3u64,
            )),
    ensures
        spec_run_records(rs).ended,
        spec_run_records(rs).events == spec_run_records(rs.take(k + 1)).events,
        spec_run_records(rs).spawns == spec_run_records(rs.take(k + 1)).spawns,
        spec_run_records(rs).echoes == spec_run_records(rs.take(k + 1)).echoes,
    decreases k,
{
    let short = rs.take(k + 1);
    assert(short[0] == rs[0]);
    if k == 0 {
    } else {
        assert(short.drop_first() =~= rs.drop_first().take(k));
        assert(rs.drop_first()[k - 1] == rs[k]);
        assert(forall|j: int|
            0 <= j < k - 1 ==> #[trigger] rs.drop_first()[j] == rs[j + 1]);
        lemma_terminal_record_ends_loop(rs.drop_first(), k - 1);
        assert(spec_run_records(rs.drop_first()).events == spec_run_records(
            short.drop_first(),
        ).events);
    }
}

/// Setting the cancellation token causes exactly one stop-record send:
/// the first step after it asks for the send, every later one does not —
/// whatever the flag does meanwhile — and the type-3 record the server
/// answers with ends the loop.  The booleans follow `step`'s contract:
/// `sent` is the session's stop flag, `stop` what a step asks.
pub proof fn lemma_stop_sent_once(
    sent0: bool,
    cancel1: bool,
    sent1: bool,
    stop1: bool,
    cancel2: bool,
    sent2: bool,
    stop2: bool,
    r: RecordModel,
)
    requires
        !sent0,
        cancel1,
        stop1 == (cancel1 && !sent0),
        sent1 == (sent0 || cancel1),
        stop2 == (cancel2 && !sent1),
        sent2 == (sent1 || cancel2),
        r.type_num == Some(3u64),
    ensures
        stop1,
        !stop2,
        sent2,
        spec_run_records(seq![r]).ended,
        spec_run_records(seq![r]).events.len() == 0,
{
    assert(seq![r][0] == r);
}

/// Where a stream for `chat` connects to.  A stream needs the encrypted
/// signature token: without it the caller must fetch the signature first.
pub fn stream_url(chat: &Chat) -> (r: Result<String, ClientError>)
    ensures
        match r {
            Ok(url) => chat.signature.encrypted matches Some(token) && url@
                == spec_chat_hub_wss_url(token@),
            Err(e) => chat.signature.encrypted is None && e is MissingStreamToken,
        },
{
    match &chat.signature.encrypted {
        Some(token) => Ok(gen_chat_hub_wss_url(token.as_str())),
        None => Err(ClientError::MissingStreamToken),
    }
}

} // verus!
