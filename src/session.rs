use vstd::prelude::*;
use vstd::string::StringExecFns;
use vstd::utf8::{decode_utf8, valid_utf8};

use crate::config::Config;

verus! {

/// The broker that readings are published to.
pub const BROKER_URL: &'static str = "mqtt://mqtt3.thingspeak.com:1883";

/// Keep-alive interval of the broker session, in seconds.
pub const KEEP_ALIVE_SECS: u64 = 120;

/// Text of the topic that readings for `channel_id` are published to.
pub open spec fn topic_text(channel_id: Seq<char>) -> Seq<char> {
    "channels/"@ + channel_id + "/publish"@
}

pub fn topic_for(channel_id: &str) -> (r: String)
    ensures
        r@ == topic_text(channel_id@),
{
    let mut topic = "channels/".to_owned();
    topic.append(channel_id);
    topic.append("/publish");
    topic
}

/// Parameters of the broker session.
#[derive(Clone, Debug)]
pub struct SessionSettings {
    pub broker_url: String,
    pub client_id: String,
    pub username: String,
    pub password: String,
    pub keep_alive_secs: u64,
}

pub fn session_settings(config: &Config) -> (r: SessionSettings)
    ensures
        r.broker_url@ == BROKER_URL@,
        r.client_id@ == config.client_id@,
        r.username@ == config.username@,
        r.password@ == config.password@,
        r.keep_alive_secs == KEEP_ALIVE_SECS,
{
    SessionSettings {
        broker_url: BROKER_URL.to_owned(),
        client_id: config.client_id.clone(),
        username: config.username.clone(),
        password: config.password.clone(),
        keep_alive_secs: KEEP_ALIVE_SECS,
    }
}

/// An event as the broker connection hands it over, before its payload is read.
#[derive(Clone, Debug)]
pub enum InboundEvent {
    /// The connection reported an error; the text describes it.
    TransportError(String),
    BeforeConnect,
    Connected(bool),
    Disconnected,
    Received(Vec<u8>),
    Subscribed(u32),
    Unsubscribed(u32),
    Published(u32),
    Deleted(u32),
}

/// What went wrong, as an event of the stream.
#[derive(Clone, Debug)]
pub enum EventError {
    Transport(String),
    /// A received message whose bytes are not UTF-8 text.
    UnreadableMessage,
}

/// An event of the session, with a received message read as text.
#[derive(Clone, Debug)]
pub enum SessionEvent {
    BeforeConnect,
    Connected(bool),
    Disconnected,
    MessageReceived(String),
    Subscribed(u32),
    Unsubscribed(u32),
    Published(u32),
    Deleted(u32),
    Error(EventError),
}

/// `ev` is what `raw` becomes: a received message is its text, or an error
/// event where its bytes are not text; every other event keeps its kind and
/// its data.
pub open spec fn decodes_to(raw: InboundEvent, ev: SessionEvent) -> bool {
    match raw {
        InboundEvent::TransportError(d) => ev matches SessionEvent::Error(EventError::Transport(e))
            && e@ == d@,
        InboundEvent::BeforeConnect => ev is BeforeConnect,
        InboundEvent::Connected(p) => ev == SessionEvent::Connected(p),
        InboundEvent::Disconnected => ev is Disconnected,
        InboundEvent::Received(b) => if valid_utf8(b@) {
            ev matches SessionEvent::MessageReceived(t) && t@ == decode_utf8(b@)
        } else {
            ev matches SessionEvent::Error(EventError::UnreadableMessage)
        },
        InboundEvent::Subscribed(id) => ev == SessionEvent::Subscribed(id),
        InboundEvent::Unsubscribed(id) => ev == SessionEvent::Unsubscribed(id),
        InboundEvent::Published(id) => ev == SessionEvent::Published(id),
        InboundEvent::Deleted(id) => ev == SessionEvent::Deleted(id),
    }
}

/// Relies on core::str::from_utf8: it succeeds exactly on valid UTF-8, and the
/// text it gives is what the bytes encode.
#[verifier::external_body]
fn utf8_text(bytes: &[u8]) -> (r: Option<String>)
    ensures
        r is Some <==> valid_utf8(bytes@),
        r is Some ==> r->Some_0@ == decode_utf8(bytes@),
{
    core::str::from_utf8(bytes).ok().map(|s| s.to_owned())
}

pub fn decode_event(raw: &InboundEvent) -> (r: SessionEvent)
    ensures
        decodes_to(*raw, r),
{
    match raw {
        InboundEvent::TransportError(d) => SessionEvent::Error(EventError::Transport(d.clone())),
        InboundEvent::BeforeConnect => SessionEvent::BeforeConnect,
        InboundEvent::Connected(p) => SessionEvent::Connected(*p),
        InboundEvent::Disconnected => SessionEvent::Disconnected,
        InboundEvent::Received(b) => match utf8_text(b.as_slice()) {
            Some(t) => SessionEvent::MessageReceived(t),
            None => SessionEvent::Error(EventError::UnreadableMessage),
        },
        InboundEvent::Subscribed(id) => SessionEvent::Subscribed(*id),
        InboundEvent::Unsubscribed(id) => SessionEvent::Unsubscribed(*id),
        InboundEvent::Published(id) => SessionEvent::Published(*id),
        InboundEvent::Deleted(id) => SessionEvent::Deleted(*id),
    }
}

/// `out` is `raw` read event by event, none dropped and none added.
pub open spec fn stream_decodes_to(raw: Seq<InboundEvent>, out: Seq<SessionEvent>) -> bool {
    &&& out.len() == raw.len()
    &&& forall|i: int| 0 <= i < raw.len() ==> decodes_to(#[trigger] raw[i], out[i])
}

/// Reads every event of `raw` in order; an event that cannot be read becomes an
/// error event and the events after it are read all the same.
pub fn drain(raw: &Vec<InboundEvent>) -> (r: Vec<SessionEvent>)
    ensures
        stream_decodes_to(raw@, r@),
{
    let mut out: Vec<SessionEvent> = Vec::new();
    let mut i: usize = 0;
    while i < raw.len()
        invariant
            i <= raw@.len(),
            out@.len() == i,
            forall|j: int| 0 <= j < i ==> decodes_to(#[trigger] raw@[j], out@[j]),
        decreases raw.len() - i,
    {
        let ev = decode_event(&raw[i]);
        out.push(ev);
        i = i + 1;
    }
    out
}

/// A message whose bytes are not text becomes an error event in its place, and
/// every event after it is still read.
pub proof fn lemma_unreadable_message_keeps_stream(
    raw: Seq<InboundEvent>,
    out: Seq<SessionEvent>,
    i: int,
)
    requires
        stream_decodes_to(raw, out),
        0 <= i < raw.len(),
        raw[i] matches InboundEvent::Received(b) && !valid_utf8(b@),
    ensures
        out[i] matches SessionEvent::Error(EventError::UnreadableMessage),
        out.len() == raw.len(),
        forall|j: int| i < j < raw.len() ==> decodes_to(raw[j], #[trigger] out[j]),
{
    assert(decodes_to(raw[i], out[i]));
    assert forall|j: int| i < j < raw.len() implies decodes_to(raw[j], #[trigger] out[j]) by {
        assert(decodes_to(raw[j], out[j]));
    }
}

} // verus!
