//! The client-logic state machine.
//!
//! The logic thread replays a scripted list of requests, then reacts to
//! inbound messages until told to quit.  The decisions of that thread stand
//! here as pure functions over the client state: what message the next
//! scripted action yields, and what a given inbound message dispatches to.
//! The blocking loop that feeds events to these functions lives outside the
//! library; it performs the returned sends and media hand-offs in order.

use vstd::prelude::*;

use crate::citations::extract_citations;
use crate::citations::media_citations;
use crate::messages::ErrorType;
use crate::messages::ErrorTypeView;
use crate::messages::MediaRequest;
use crate::messages::MediaRequestView;
use crate::messages::MediaResponse;
use crate::messages::MediaResponseView;
use crate::messages::Message;
use crate::messages::MessageType;
use crate::messages::MessageTypeView;
use crate::messages::MessageView;
use crate::messages::NodeId;
use crate::messages::RequestType;
use crate::messages::RequestTypeView;
use crate::messages::ResponseType;
use crate::messages::ResponseTypeView;
use crate::messages::TextResponse;
use crate::messages::TextResponseView;

verus! {

/// A command to the logic thread.  `Quit` asks it to terminate.
#[derive(Debug)]
pub enum ClientCommand {
    Quit,
}

/// The three states of the logic thread: replaying the script, reacting to
/// inbound traffic only, or done.
#[derive(PartialEq, Eq, Structural, Clone, Copy, Debug)]
pub enum Phase {
    Scripting,
    Idle,
    Terminated,
}

/// Ghost state of the client logic.
pub struct ClientView {
    pub node_id: NodeId,
    pub actions: Seq<(NodeId, RequestTypeView)>,
    pub next_action: int,
    pub phase: Phase,
    pub sleep_ms: u64,
}

impl ClientView {
    /// The scripted cursor never runs past the script.
    pub open spec fn wf(self) -> bool {
        0 <= self.next_action <= self.actions.len()
    }
}

/// The ghost view of a scripted action list.
pub open spec fn actions_view(actions: Seq<(NodeId, RequestType)>) -> Seq<(NodeId, RequestTypeView)> {
    actions.map_values(|a: (NodeId, RequestType)| (a.0, a.1@))
}

/// The client logic: node identity, the scripted actions with the replay
/// cursor, the thread phase, and the pacing delay between scripted sends.
pub struct Client {
    node_id: NodeId,
    actions: Vec<(NodeId, RequestType)>,
    next_action: usize,
    phase: Phase,
    sleep_ms: u64,
}

impl View for Client {
    type V = ClientView;

    closed spec fn view(&self) -> ClientView {
        ClientView {
            node_id: self.node_id,
            actions: actions_view(self.actions@),
            next_action: self.next_action as int,
            phase: self.phase,
            sleep_ms: self.sleep_ms,
        }
    }
}

/// What the logic answers to an inbound request it cannot serve: the request
/// echoed inside an `Unsupported` error, back to the sender, under the same
/// session identifier.
pub open spec fn unsupported_reply(
    node: NodeId,
    session_id: u64,
    source: NodeId,
    request: RequestTypeView,
) -> MessageView {
    MessageView {
        source: node,
        destination: source,
        session_id,
        content: MessageTypeView::Error(ErrorTypeView::Unsupported(request)),
    }
}

/// `out` is one media request per name of `names`, in order, each addressed
/// from `node` to `source`.  The session identifiers are left open: they are
/// drawn fresh at random for each request.
pub open spec fn media_requests_for(
    node: NodeId,
    source: NodeId,
    names: Seq<Seq<char>>,
    out: Seq<MessageView>,
) -> bool {
    &&& out.len() == names.len()
    &&& forall|k: int|
        0 <= k < out.len() ==> out[k] == (MessageView {
            source: node,
            destination: source,
            session_id: out[k].session_id,
            content: MessageTypeView::Request(
                RequestTypeView::MediaRequest(MediaRequestView::Media(names[k])),
            ),
        })
}

/// What a text response dispatches to: a text body yields one media request
/// per citation found in it; listings and misses yield nothing.
pub open spec fn text_follow_ups(
    node: NodeId,
    source: NodeId,
    t: TextResponseView,
    out: Seq<MessageView>,
) -> bool {
    match t {
        TextResponseView::Text(body) => media_requests_for(
            node,
            source,
            media_citations(body),
            out,
        ),
        _ => out.len() == 0,
    }
}

/// What a media response hands to the media sink: the payload of a `Media`
/// response, and nothing otherwise.
pub open spec fn media_sink_inputs(m: MediaResponseView, media: Seq<Seq<u8>>) -> bool {
    match m {
        MediaResponseView::Media(bytes) => media == seq![bytes],
        _ => media.len() == 0,
    }
}

/// What an inbound response dispatches to, by response family.
pub open spec fn response_dispatch(
    node: NodeId,
    source: NodeId,
    r: ResponseTypeView,
    out: Seq<MessageView>,
    media: Seq<Seq<u8>>,
) -> bool {
    match r {
        ResponseTypeView::TextResponse(t) => text_follow_ups(node, source, t, out) && media.len()
            == 0,
        ResponseTypeView::MediaResponse(m) => out.len() == 0 && media_sink_inputs(m, media),
        ResponseTypeView::ChatResponse(_) => out.len() == 0 && media.len() == 0,
        ResponseTypeView::DiscoveryResponse(_) => out.len() == 0 && media.len() == 0,
    }
}

/// What an inbound message dispatches to: a request draws exactly one
/// `Unsupported` error reply; a response draws its family's follow-ups; an
/// error draws nothing.
pub open spec fn message_dispatch(
    node: NodeId,
    m: MessageView,
    out: Seq<MessageView>,
    media: Seq<Seq<u8>>,
) -> bool {
    match m.content {
        MessageTypeView::Request(r) => out == seq![
            unsupported_reply(node, m.session_id, m.source, r),
        ] && media.len() == 0,
        MessageTypeView::Response(r) => response_dispatch(node, m.source, r, out, media),
        MessageTypeView::Error(_) => out.len() == 0 && media.len() == 0,
    }
}

/// Everything an inbound message makes the logic do: messages to enqueue on
/// the outbox, and media payloads to hand to the media sink.
pub struct Dispatch {
    pub outbound: Vec<Message>,
    pub media: Vec<Vec<u8>>,
}

impl Dispatch {
    /// The empty dispatch: nothing to send, nothing to show.
    pub fn empty() -> (d: Dispatch)
        ensures
            d.outbound.deep_view() == Seq::<MessageView>::empty(),
            d.media.deep_view() == Seq::<Seq<u8>>::empty(),
    {
        let outbound: Vec<Message> = Vec::new();
        let media: Vec<Vec<u8>> = Vec::new();
        proof {
            assert(outbound.deep_view() =~= Seq::<MessageView>::empty());
            assert(media.deep_view() =~= Seq::<Seq<u8>>::empty());
        }
        Dispatch { outbound, media }
    }
}

/// One step of the scripted phase: the cursor advances by one and the
/// scripted request leaves, addressed from this node to the scripted
/// destination, with a fresh session identifier.
pub open spec fn scripted_step(pre: ClientView, post: ClientView, m: MessageView) -> bool {
    &&& pre.phase == Phase::Scripting
    &&& 0 <= pre.next_action < pre.actions.len()
    &&& post == (ClientView { next_action: pre.next_action + 1, ..pre })
    &&& m.source == pre.node_id
    &&& m.destination == pre.actions[pre.next_action].0
    &&& m.content == MessageTypeView::Request(pre.actions[pre.next_action].1)
}

/// Relies on rand::random: a session identifier drawn uniformly from the
/// 64-bit space by the thread-local generator.  Nothing is promised of the
/// value; every contract downstream holds for any outcome.
#[verifier::external_body]
fn random_session_id() -> u64 {
    rand::random::<u64>()
}

impl Client {
    /// Builds the logic for one node: its identity, the scripted actions to
    /// replay, and the pacing delay (in milliseconds) between scripted sends.
    pub fn new(node_id: NodeId, actions: Vec<(NodeId, RequestType)>, sleep_ms: u64) -> (client:
        Client)
        ensures
            client@ == (ClientView {
                node_id,
                actions: actions_view(actions@),
                next_action: 0,
                phase: Phase::Scripting,
                sleep_ms,
            }),
            client@.wf(),
    {
        Client { node_id, actions, next_action: 0, phase: Phase::Scripting, sleep_ms }
    }

    pub fn get_node_id(&self) -> (id: NodeId)
        ensures
            id == self@.node_id,
    {
        self.node_id
    }

    /// The pacing delay between scripted sends, in milliseconds.
    pub fn get_sleep_ms(&self) -> (ms: u64)
        ensures
            ms == self@.sleep_ms,
    {
        self.sleep_ms
    }

    pub fn is_scripting(&self) -> (b: bool)
        ensures
            b == (self@.phase == Phase::Scripting),
    {
        match self.phase {
            Phase::Scripting => true,
            _ => false,
        }
    }

    pub fn is_terminated(&self) -> (b: bool)
        ensures
            b == (self@.phase == Phase::Terminated),
    {
        match self.phase {
            Phase::Terminated => true,
            _ => false,
        }
    }

    /// Builds a message from this node with the given correlation, address
    /// and content.
    pub fn create_message(&self, session_id: u64, destination: NodeId, content: MessageType) -> (m:
        Message)
        ensures
            m@ == (MessageView {
                source: self@.node_id,
                destination,
                session_id,
                content: content@,
            }),
    {
        Message { source: self.node_id, destination, session_id, content }
    }

    /// The next scripted request, if the script is not yet exhausted; on an
    /// exhausted script the logic moves to the reactive phase and nothing
    /// leaves.  Every outbound message carries this node as its source.
    pub fn next_scripted_request(&mut self) -> (m: Option<Message>)
        requires
            old(self)@.phase == Phase::Scripting,
            old(self)@.wf(),
        ensures
            final(self)@.wf(),
            match m {
                Some(msg) => scripted_step(old(self)@, final(self)@, msg@),
                None => {
                    &&& old(self)@.next_action == old(self)@.actions.len()
                    &&& final(self)@ == (ClientView { phase: Phase::Idle, ..old(self)@ })
                },
            },
    {
        if self.next_action < self.actions.len() {
            let idx = self.next_action;
            let destination = self.actions[idx].0;
            let action = self.actions[idx].1.duplicate();
            let msg = self.create_message(
                random_session_id(),
                destination,
                MessageType::Request(action),
            );
            self.next_action = idx + 1;
            Some(msg)
        } else {
            self.phase = Phase::Idle;
            None
        }
    }

    /// A command terminates the logic from any phase, and nothing leaves.
    pub fn handle_command(&mut self, command: ClientCommand)
        ensures
            final(self)@ == (ClientView { phase: Phase::Terminated, ..old(self)@ }),
    {
        match command {
            ClientCommand::Quit => {
                self.phase = Phase::Terminated;
            },
        }
    }

    /// Dispatches one inbound message.  A request draws exactly one
    /// `Unsupported` error back to its sender under the same session
    /// identifier; a response draws its family's follow-ups; an error draws
    /// nothing.  Every outbound message carries this node as its source and
    /// the inbound message's source as its destination.  A terminated logic
    /// processes no further message: a quit pre-empts all later traffic.
    pub fn process_message(&self, message: &Message) -> (d: Dispatch)
        requires
            self@.phase != Phase::Terminated,
        ensures
            message_dispatch(self@.node_id, message@, d.outbound.deep_view(), d.media.deep_view()),
            forall|k: int|
                0 <= k < d.outbound.deep_view().len() ==> d.outbound.deep_view()[k].source
                    == self@.node_id,
            forall|k: int|
                0 <= k < d.outbound.deep_view().len() ==> d.outbound.deep_view()[k].destination
                    == message@.source,
    {
        match &message.content {
            MessageType::Request(request_type) => {
                let reply = self.process_request(message.session_id, message.source, request_type);
                let mut outbound: Vec<Message> = Vec::new();
                outbound.push(reply);
                let media: Vec<Vec<u8>> = Vec::new();
                proof {
                    assert(outbound.deep_view() =~= seq![reply@]);
                    assert(media.deep_view() =~= Seq::<Seq<u8>>::empty());
                }
                Dispatch { outbound, media }
            },
            MessageType::Response(response_type) => {
                self.process_response(message.session_id, message.source, response_type)
            },
            MessageType::Error(error_type) => {
                self.process_error(message.session_id, message.source, error_type)
            },
        }
    }

    /// An inbound protocol error is terminal for that request: whatever the
    /// state of the logic, nothing is enqueued on the outbox and nothing is
    /// handed to the media sink.
    pub fn process_error(&self, _session_id: u64, _source_id: NodeId, _error_type: &ErrorType) -> (
        d: Dispatch)
        ensures
            d.outbound.deep_view().len() == 0,
            d.media.deep_view().len() == 0,
    {
        Dispatch::empty()
    }

    /// The reply to an inbound request: the request echoed inside an
    /// `Unsupported` error, addressed back to its sender under the same
    /// session identifier.
    pub fn process_request(&self, session_id: u64, source: NodeId, request_type: &RequestType) -> (
        reply: Message)
        ensures
            reply@ == unsupported_reply(self@.node_id, session_id, source, request_type@),
    {
        let content = MessageType::Error(ErrorType::Unsupported(request_type.duplicate()));
        self.create_message(session_id, source, content)
    }

    /// Dispatches an inbound response by family.
    pub fn process_response(&self, _session_id: u64, source_id: NodeId, response_type: &ResponseType)
        -> (d: Dispatch)
        ensures
            response_dispatch(
                self@.node_id,
                source_id,
                response_type@,
                d.outbound.deep_view(),
                d.media.deep_view(),
            ),
    {
        match response_type {
            ResponseType::TextResponse(text_response) => {
                let outbound = self.process_text_response(source_id, text_response);
                let media: Vec<Vec<u8>> = Vec::new();
                proof {
                    assert(media.deep_view() =~= Seq::<Seq<u8>>::empty());
                }
                Dispatch { outbound, media }
            },
            ResponseType::MediaResponse(media_response) => {
                let media = self.process_media_response(source_id, media_response);
                let outbound: Vec<Message> = Vec::new();
                proof {
                    assert(outbound.deep_view() =~= Seq::<MessageView>::empty());
                }
                Dispatch { outbound, media }
            },
            ResponseType::ChatResponse(_) => Dispatch::empty(),
            ResponseType::DiscoveryResponse(_) => Dispatch::empty(),
        }
    }

    /// The follow-up requests an inbound text response draws: one media
    /// request per citation of a text body, to the server that returned the
    /// text, each under a fresh session identifier; nothing for listings and
    /// misses.
    pub fn process_text_response(&self, source: NodeId, text_response: &TextResponse) -> (out: Vec<
        Message,
    >)
        ensures
            text_follow_ups(self@.node_id, source, text_response@, out.deep_view()),
    {
        match text_response {
            TextResponse::TextList(_) => {
                let out: Vec<Message> = Vec::new();
                proof {
                    assert(out.deep_view() =~= Seq::<MessageView>::empty());
                }
                out
            },
            TextResponse::Text(body) => {
                let citations = extract_citations(body.as_str());
                let ghost names = media_citations(body@);
                let mut out: Vec<Message> = Vec::new();
                let mut idx: usize = 0;
                while idx < citations.len()
                    invariant
                        idx <= citations.len(),
                        citations.deep_view() == names,
                        media_requests_for(
                            self@.node_id,
                            source,
                            names.take(idx as int),
                            out.deep_view(),
                        ),
                    decreases citations.len() - idx,
                {
                    let ghost prev = out.deep_view();
                    let name = citations[idx].clone();
                    let msg = self.create_message(
                        random_session_id(),
                        source,
                        MessageType::Request(RequestType::MediaRequest(MediaRequest::Media(name))),
                    );
                    out.push(msg);
                    proof {
                        assert(name@ == names[idx as int]);
                        assert(out.deep_view() =~= prev.push(msg@));
                        assert(names.take(idx + 1).len() == idx + 1);
                    }
                    idx = idx + 1;
                }
                proof {
                    assert(names.take(names.len() as int) =~= names);
                }
                out
            },
            TextResponse::NotFound(_) => {
                let out: Vec<Message> = Vec::new();
                proof {
                    assert(out.deep_view() =~= Seq::<MessageView>::empty());
                }
                out
            },
        }
    }

    /// What an inbound media response hands to the media sink: the payload
    /// of a `Media` response, and nothing for listings and misses.
    pub fn process_media_response(&self, _source: NodeId, media_response: &MediaResponse) -> (
        media: Vec<Vec<u8>>)
        ensures
            media_sink_inputs(media_response@, media.deep_view()),
    {
        match media_response {
            MediaResponse::MediaList(_) => {
                let media: Vec<Vec<u8>> = Vec::new();
                proof {
                    assert(media.deep_view() =~= Seq::<Seq<u8>>::empty());
                }
                media
            },
            MediaResponse::Media(bytes) => {
                let payload = clone_bytes(bytes);
                let mut media: Vec<Vec<u8>> = Vec::new();
                media.push(payload);
                proof {
                    assert(media.deep_view() =~~= seq![bytes@]);
                }
                media
            },
            MediaResponse::NotFound(_) => {
                let media: Vec<Vec<u8>> = Vec::new();
                proof {
                    assert(media.deep_view() =~= Seq::<Seq<u8>>::empty());
                }
                media
            },
        }
    }
}

/// A byte-for-byte copy of a media payload.
fn clone_bytes(bytes: &Vec<u8>) -> (r: Vec<u8>)
    ensures
        r@ == bytes@,
{
    let mut r: Vec<u8> = Vec::new();
    let mut i: usize = 0;
    while i < bytes.len()
        invariant
            i <= bytes.len(),
            r@ == bytes@.take(i as int),
        decreases bytes.len() - i,
    {
        r.push(bytes[i]);
        proof {
            assert(r@ =~= bytes@.take(i + 1));
        }
        i = i + 1;
    }
    proof {
        assert(bytes@.take(bytes@.len() as int) =~= bytes@);
    }
    r
}

/// For a script driven to exhaustion with no quit in between, exactly one
/// outbound request leaves per scripted action, in input order: the run of
/// states visits the actions one by one, and the message sent at each step
/// is the scripted request of that position.
pub proof fn lemma_scripted_run(states: Seq<ClientView>, sent: Seq<MessageView>)
    requires
        states.len() == sent.len() + 1,
        states[0].next_action == 0,
        forall|k: int| 0 <= k < sent.len() ==> scripted_step(states[k], states[k + 1], sent[k]),
        states[sent.len() as int].next_action == states[sent.len() as int].actions.len(),
    ensures
        sent.len() == states[0].actions.len(),
        forall|k: int|
            0 <= k < sent.len() ==> {
                &&& sent[k].source == states[0].node_id
                &&& sent[k].destination == states[0].actions[k].0
                &&& sent[k].content == MessageTypeView::Request(states[0].actions[k].1)
            },
{
    lemma_scripted_prefix(states, sent, sent.len() as int);
    assert forall|k: int|
        0 <= k < sent.len() implies {
        &&& sent[k].source == states[0].node_id
        &&& sent[k].destination == states[0].actions[k].0
        &&& sent[k].content == MessageTypeView::Request(states[0].actions[k].1)
    } by {
        lemma_scripted_prefix(states, sent, k);
        assert(scripted_step(states[k], states[k + 1], sent[k]));
    }
}

/// After `j` scripted steps the cursor stands at `j` and neither the node
/// identity nor the script has changed.
proof fn lemma_scripted_prefix(states: Seq<ClientView>, sent: Seq<MessageView>, j: int)
    requires
        states.len() == sent.len() + 1,
        states[0].next_action == 0,
        forall|k: int| 0 <= k < sent.len() ==> scripted_step(states[k], states[k + 1], sent[k]),
        0 <= j <= sent.len(),
    ensures
        states[j].next_action == j,
        states[j].actions == states[0].actions,
        states[j].node_id == states[0].node_id,
    decreases j,
{
    if j > 0 {
        lemma_scripted_prefix(states, sent, j - 1);
        assert(scripted_step(states[j - 1], states[j], sent[j - 1]));
    }
}

} // verus!
