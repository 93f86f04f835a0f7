//! Senders: a formatting context bound to one kind of transport.
//!
//! A sender does no I/O itself. Each operation decides what the sink is asked
//! to do and hands that back as a [`SinkAction`]; whoever owns the socket
//! carries it out and reports the outcome to the caller unchanged. A sender
//! keeps no record of past sends, so a failed write leaves it as it was and
//! the same send can be tried again.

use vstd::prelude::*;
use vstd::string::StringSliceAdditionalSpecFns;
use crate::format::{rfc3164_text, rfc5424_text, rfc5425_text, str_bytes, SyslogContext};
use crate::priority::Severity;
use crate::structured::{element_views, SDElement};
use crate::timestamp::Timestamp;

verus! {

/// What a sender asks of its sink.
#[derive(Debug)]
pub enum SinkAction {
    /// Append these bytes to the stream, in one write and with no delimiter.
    Stream(Vec<u8>),
    /// Send these bytes as one packet.
    Datagram(Vec<u8>),
    /// Force buffered bytes through, whether or not any are waiting.
    Flush,
    /// Do nothing; the operation has already succeeded.
    Nothing,
}

/// A sink action with its bytes as a sequence.
pub enum SinkActionView {
    Stream(Seq<u8>),
    Datagram(Seq<u8>),
    Flush,
    Nothing,
}

impl View for SinkAction {
    type V = SinkActionView;

    open spec fn view(&self) -> SinkActionView {
        match self {
            SinkAction::Stream(bytes) => SinkActionView::Stream(bytes@),
            SinkAction::Datagram(bytes) => SinkActionView::Datagram(bytes@),
            SinkAction::Flush => SinkActionView::Flush,
            SinkAction::Nothing => SinkActionView::Nothing,
        }
    }
}

impl SinkActionView {
    /// The bytes that the action puts on the wire; none for a flush or for
    /// doing nothing.
    pub open spec fn payload(self) -> Seq<u8> {
        match self {
            SinkActionView::Stream(bytes) => bytes,
            SinkActionView::Datagram(bytes) => bytes,
            SinkActionView::Flush => Seq::empty(),
            SinkActionView::Nothing => Seq::empty(),
        }
    }

    /// True when the action writes to the sink.
    pub open spec fn writes(self) -> bool {
        self is Stream || self is Datagram
    }
}

impl SinkAction {
    /// The bytes to write, or nothing where the action writes none.
    pub fn into_payload(self) -> (r: Option<Vec<u8>>)
        ensures
            self@.writes() <==> r.is_some(),
            r matches Some(bytes) ==> bytes@ == self@.payload(),
    {
        match self {
            SinkAction::Stream(bytes) => Some(bytes),
            SinkAction::Datagram(bytes) => Some(bytes),
            SinkAction::Flush => None,
            SinkAction::Nothing => None,
        }
    }
}

/// A sender over a TCP stream.
#[derive(Debug)]
pub struct TcpSender {
    pub context: SyslogContext,
}

impl TcpSender {
    /// A sender with the given context.
    pub fn new(context: SyslogContext) -> (sender: TcpSender)
        ensures
            sender.context == context,
    {
        TcpSender { context }
    }

    /// What sending a message in the BSD format asks of the sink.
    pub open spec fn rfc3164_action(
        &self,
        severity: Severity,
        timestamp: Timestamp,
        message: &str,
    ) -> SinkActionView {
        SinkActionView::Stream(
            rfc3164_text(self.context@, severity, timestamp, Some(message.spec_bytes())),
        )
    }

    /// What sending a message in the structured format asks of the sink.
    pub open spec fn rfc5424_action(
        &self,
        severity: Severity,
        timestamp: Timestamp,
        msgid: Option<&str>,
        elements: Seq<SDElement>,
        message: &str,
    ) -> SinkActionView {
        SinkActionView::Stream(
            rfc5424_text(
                self.context@,
                severity,
                timestamp,
                str_bytes(msgid),
                element_views(elements),
                Some(message.spec_bytes()),
            ),
        )
    }

    /// What sending a message in the octet-counted format asks of the sink.
    pub open spec fn rfc5425_action(
        &self,
        severity: Severity,
        timestamp: Timestamp,
        msgid: Option<&str>,
        elements: Seq<SDElement>,
        message: &str,
    ) -> SinkActionView {
        SinkActionView::Stream(
            rfc5425_text(
                self.context@,
                severity,
                timestamp,
                str_bytes(msgid),
                element_views(elements),
                Some(message.spec_bytes()),
            ),
        )
    }

    /// Sends a message with the given severity in the BSD format.
    pub fn send_rfc3164(&self, severity: Severity, timestamp: &Timestamp, message: &str) -> (action:
        SinkAction)
        requires
            timestamp.wf(),
        ensures
            action@ == self.rfc3164_action(severity, *timestamp, message),
    {
        SinkAction::Stream(self.context.format_rfc3164(severity, timestamp, Some(message)))
    }

    /// Sends a message with the given severity in the structured format.
    pub fn send_rfc5424(
        &self,
        severity: Severity,
        timestamp: &Timestamp,
        msgid: Option<&str>,
        elements: Vec<SDElement>,
        message: &str,
    ) -> (action: SinkAction)
        requires
            timestamp.wf(),
        ensures
            action@ == self.rfc5424_action(severity, *timestamp, msgid, elements@, message),
    {
        SinkAction::Stream(
            self.context.format_rfc5424(
                severity,
                timestamp,
                msgid,
                elements.as_slice(),
                Some(message),
            ),
        )
    }

    /// Sends a message with the given severity in the octet-counted format.
    pub fn send_rfc5425(
        &self,
        severity: Severity,
        timestamp: &Timestamp,
        msgid: Option<&str>,
        elements: Vec<SDElement>,
        message: &str,
    ) -> (action: SinkAction)
        requires
            timestamp.wf(),
        ensures
            action@ == self.rfc5425_action(severity, *timestamp, msgid, elements@, message),
    {
        SinkAction::Stream(
            self.context.format_rfc5425(
                severity,
                timestamp,
                msgid,
                elements.as_slice(),
                Some(message),
            ),
        )
    }

    /// Flushes the stream: buffered bytes are forced through, also when no
    /// message is waiting.
    pub fn flush(&self) -> (action: SinkAction)
        ensures
            action@ == SinkActionView::Flush,
    {
        SinkAction::Flush
    }
}

/// A sender over UDP; every message is one packet.
#[derive(Debug)]
pub struct UdpSender {
    pub context: SyslogContext,
}

impl UdpSender {
    /// A sender with the given context.
    pub fn new(context: SyslogContext) -> (sender: UdpSender)
        ensures
            sender.context == context,
    {
        UdpSender { context }
    }

    /// What sending a message in the BSD format asks of the sink.
    pub open spec fn rfc3164_action(
        &self,
        severity: Severity,
        timestamp: Timestamp,
        message: &str,
    ) -> SinkActionView {
        SinkActionView::Datagram(
            rfc3164_text(self.context@, severity, timestamp, Some(message.spec_bytes())),
        )
    }

    /// What sending a message in the structured format asks of the sink.
    pub open spec fn rfc5424_action(
        &self,
        severity: Severity,
        timestamp: Timestamp,
        msgid: Option<&str>,
        elements: Seq<SDElement>,
        message: &str,
    ) -> SinkActionView {
        SinkActionView::Datagram(
            rfc5424_text(
                self.context@,
                severity,
                timestamp,
                str_bytes(msgid),
                element_views(elements),
                Some(message.spec_bytes()),
            ),
        )
    }

    /// What sending a message in the octet-counted format asks of the sink.
    pub open spec fn rfc5425_action(
        &self,
        severity: Severity,
        timestamp: Timestamp,
        msgid: Option<&str>,
        elements: Seq<SDElement>,
        message: &str,
    ) -> SinkActionView {
        SinkActionView::Datagram(
            rfc5425_text(
                self.context@,
                severity,
                timestamp,
                str_bytes(msgid),
                element_views(elements),
                Some(message.spec_bytes()),
            ),
        )
    }

    /// Sends a message with the given severity in the BSD format.
    pub fn send_rfc3164(&self, severity: Severity, timestamp: &Timestamp, message: &str) -> (action:
        SinkAction)
        requires
            timestamp.wf(),
        ensures
            action@ == self.rfc3164_action(severity, *timestamp, message),
    {
        SinkAction::Datagram(self.context.format_rfc3164(severity, timestamp, Some(message)))
    }

    /// Sends a message with the given severity in the structured format.
    pub fn send_rfc5424(
        &self,
        severity: Severity,
        timestamp: &Timestamp,
        msgid: Option<&str>,
        elements: Vec<SDElement>,
        message: &str,
    ) -> (action: SinkAction)
        requires
            timestamp.wf(),
        ensures
            action@ == self.rfc5424_action(severity, *timestamp, msgid, elements@, message),
    {
        SinkAction::Datagram(
            self.context.format_rfc5424(
                severity,
                timestamp,
                msgid,
                elements.as_slice(),
                Some(message),
            ),
        )
    }

    /// Sends a message with the given severity in the octet-counted format.
    pub fn send_rfc5425(
        &self,
        severity: Severity,
        timestamp: &Timestamp,
        msgid: Option<&str>,
        elements: Vec<SDElement>,
        message: &str,
    ) -> (action: SinkAction)
        requires
            timestamp.wf(),
        ensures
            action@ == self.rfc5425_action(severity, *timestamp, msgid, elements@, message),
    {
        SinkAction::Datagram(
            self.context.format_rfc5425(
                severity,
                timestamp,
                msgid,
                elements.as_slice(),
                Some(message),
            ),
        )
    }
}

/// A sender over a Unix datagram socket; every message is one packet.
#[derive(Debug)]
pub struct UnixDatagramSender {
    pub context: SyslogContext,
}

impl UnixDatagramSender {
    /// A sender with the given context.
    pub fn new(context: SyslogContext) -> (sender: UnixDatagramSender)
        ensures
            sender.context == context,
    {
        UnixDatagramSender { context }
    }

    /// What sending a message in the BSD format asks of the sink.
    pub open spec fn rfc3164_action(
        &self,
        severity: Severity,
        timestamp: Timestamp,
        message: &str,
    ) -> SinkActionView {
        SinkActionView::Datagram(
            rfc3164_text(self.context@, severity, timestamp, Some(message.spec_bytes())),
        )
    }

    /// What sending a message in the structured format asks of the sink.
    pub open spec fn rfc5424_action(
        &self,
        severity: Severity,
        timestamp: Timestamp,
        msgid: Option<&str>,
        elements: Seq<SDElement>,
        message: &str,
    ) -> SinkActionView {
        SinkActionView::Datagram(
            rfc5424_text(
                self.context@,
                severity,
                timestamp,
                str_bytes(msgid),
                element_views(elements),
                Some(message.spec_bytes()),
            ),
        )
    }

    /// What sending a message in the octet-counted format asks of the sink.
    pub open spec fn rfc5425_action(
        &self,
        severity: Severity,
        timestamp: Timestamp,
        msgid: Option<&str>,
        elements: Seq<SDElement>,
        message: &str,
    ) -> SinkActionView {
        SinkActionView::Datagram(
            rfc5425_text(
                self.context@,
                severity,
                timestamp,
                str_bytes(msgid),
                element_views(elements),
                Some(message.spec_bytes()),
            ),
        )
    }

    /// Sends a message with the given severity in the BSD format.
    pub fn send_rfc3164(&self, severity: Severity, timestamp: &Timestamp, message: &str) -> (action:
        SinkAction)
        requires
            timestamp.wf(),
        ensures
            action@ == self.rfc3164_action(severity, *timestamp, message),
    {
        SinkAction::Datagram(self.context.format_rfc3164(severity, timestamp, Some(message)))
    }

    /// Sends a message with the given severity in the structured format.
    pub fn send_rfc5424(
        &self,
        severity: Severity,
        timestamp: &Timestamp,
        msgid: Option<&str>,
        elements: Vec<SDElement>,
        message: &str,
    ) -> (action: SinkAction)
        requires
            timestamp.wf(),
        ensures
            action@ == self.rfc5424_action(severity, *timestamp, msgid, elements@, message),
    {
        SinkAction::Datagram(
            self.context.format_rfc5424(
                severity,
                timestamp,
                msgid,
                elements.as_slice(),
                Some(message),
            ),
        )
    }

    /// Sends a message with the given severity in the octet-counted format.
    pub fn send_rfc5425(
        &self,
        severity: Severity,
        timestamp: &Timestamp,
        msgid: Option<&str>,
        elements: Vec<SDElement>,
        message: &str,
    ) -> (action: SinkAction)
        requires
            timestamp.wf(),
        ensures
            action@ == self.rfc5425_action(severity, *timestamp, msgid, elements@, message),
    {
        SinkAction::Datagram(
            self.context.format_rfc5425(
                severity,
                timestamp,
                msgid,
                elements.as_slice(),
                Some(message),
            ),
        )
    }
}

/// A sender over a Unix stream socket.
#[derive(Debug)]
pub struct UnixStreamSender {
    pub context: SyslogContext,
}

impl UnixStreamSender {
    /// A sender with the given context.
    pub fn new(context: SyslogContext) -> (sender: UnixStreamSender)
        ensures
            sender.context == context,
    {
        UnixStreamSender { context }
    }

    /// What sending a message in the BSD format asks of the sink.
    pub open spec fn rfc3164_action(
        &self,
        severity: Severity,
        timestamp: Timestamp,
        message: &str,
    ) -> SinkActionView {
        SinkActionView::Stream(
            rfc3164_text(self.context@, severity, timestamp, Some(message.spec_bytes())),
        )
    }

    /// What sending a message in the structured format asks of the sink.
    pub open spec fn rfc5424_action(
        &self,
        severity: Severity,
        timestamp: Timestamp,
        msgid: Option<&str>,
        elements: Seq<SDElement>,
        message: &str,
    ) -> SinkActionView {
        SinkActionView::Stream(
            rfc5424_text(
                self.context@,
                severity,
                timestamp,
                str_bytes(msgid),
                element_views(elements),
                Some(message.spec_bytes()),
            ),
        )
    }

    /// What sending a message in the octet-counted format asks of the sink.
    pub open spec fn rfc5425_action(
        &self,
        severity: Severity,
        timestamp: Timestamp,
        msgid: Option<&str>,
        elements: Seq<SDElement>,
        message: &str,
    ) -> SinkActionView {
        SinkActionView::Stream(
            rfc5425_text(
                self.context@,
                severity,
                timestamp,
                str_bytes(msgid),
                element_views(elements),
                Some(message.spec_bytes()),
            ),
        )
    }

    /// Sends a message with the given severity in the BSD format.
    pub fn send_rfc3164(&self, severity: Severity, timestamp: &Timestamp, message: &str) -> (action:
        SinkAction)
        requires
            timestamp.wf(),
        ensures
            action@ == self.rfc3164_action(severity, *timestamp, message),
    {
        SinkAction::Stream(self.context.format_rfc3164(severity, timestamp, Some(message)))
    }

    /// Sends a message with the given severity in the structured format.
    pub fn send_rfc5424(
        &self,
        severity: Severity,
        timestamp: &Timestamp,
        msgid: Option<&str>,
        elements: Vec<SDElement>,
        message: &str,
    ) -> (action: SinkAction)
        requires
            timestamp.wf(),
        ensures
            action@ == self.rfc5424_action(severity, *timestamp, msgid, elements@, message),
    {
        SinkAction::Stream(
            self.context.format_rfc5424(
                severity,
                timestamp,
                msgid,
                elements.as_slice(),
                Some(message),
            ),
        )
    }

    /// Sends a message with the given severity in the octet-counted format.
    pub fn send_rfc5425(
        &self,
        severity: Severity,
        timestamp: &Timestamp,
        msgid: Option<&str>,
        elements: Vec<SDElement>,
        message: &str,
    ) -> (action: SinkAction)
        requires
            timestamp.wf(),
        ensures
            action@ == self.rfc5425_action(severity, *timestamp, msgid, elements@, message),
    {
        SinkAction::Stream(
            self.context.format_rfc5425(
                severity,
                timestamp,
                msgid,
                elements.as_slice(),
                Some(message),
            ),
        )
    }

    /// Flushes the stream: buffered bytes are forced through, also when no
    /// message is waiting.
    pub fn flush(&self) -> (action: SinkAction)
        ensures
            action@ == SinkActionView::Flush,
    {
        SinkAction::Flush
    }
}

/// A sender over any of the four transports.
#[derive(Debug)]
pub enum SyslogSender {
    Tcp(TcpSender),
    Udp(UdpSender),
    UnixDatagram(UnixDatagramSender),
    UnixStream(UnixStreamSender),
}

impl SyslogSender {
    /// True for the transports that carry a stream of bytes rather than
    /// packets.
    pub open spec fn is_stream(&self) -> bool {
        self is Tcp || self is UnixStream
    }

    /// The context of the sender inside.
    pub open spec fn context(&self) -> SyslogContext {
        match self {
            SyslogSender::Tcp(sender) => sender.context,
            SyslogSender::Udp(sender) => sender.context,
            SyslogSender::UnixDatagram(sender) => sender.context,
            SyslogSender::UnixStream(sender) => sender.context,
        }
    }

    /// What the sender inside asks of the sink for a message in the BSD
    /// format.
    pub open spec fn rfc3164_action(
        &self,
        severity: Severity,
        timestamp: Timestamp,
        message: &str,
    ) -> SinkActionView {
        match self {
            SyslogSender::Tcp(sender) => sender.rfc3164_action(severity, timestamp, message),
            SyslogSender::Udp(sender) => sender.rfc3164_action(severity, timestamp, message),
            SyslogSender::UnixDatagram(sender) => sender.rfc3164_action(severity, timestamp, message),
            SyslogSender::UnixStream(sender) => sender.rfc3164_action(severity, timestamp, message),
        }
    }

    /// What the sender inside asks of the sink for a message in the
    /// structured format.
    pub open spec fn rfc5424_action(
        &self,
        severity: Severity,
        timestamp: Timestamp,
        msgid: Option<&str>,
        elements: Seq<SDElement>,
        message: &str,
    ) -> SinkActionView {
        match self {
            SyslogSender::Tcp(sender) => sender.rfc5424_action(severity, timestamp, msgid, elements, message),
            SyslogSender::Udp(sender) => sender.rfc5424_action(severity, timestamp, msgid, elements, message),
            SyslogSender::UnixDatagram(sender) => sender.rfc5424_action(severity, timestamp, msgid, elements, message),
            SyslogSender::UnixStream(sender) => sender.rfc5424_action(severity, timestamp, msgid, elements, message),
        }
    }

    /// What the sender inside asks of the sink for a message in the
    /// octet-counted format.
    pub open spec fn rfc5425_action(
        &self,
        severity: Severity,
        timestamp: Timestamp,
        msgid: Option<&str>,
        elements: Seq<SDElement>,
        message: &str,
    ) -> SinkActionView {
        match self {
            SyslogSender::Tcp(sender) => sender.rfc5425_action(severity, timestamp, msgid, elements, message),
            SyslogSender::Udp(sender) => sender.rfc5425_action(severity, timestamp, msgid, elements, message),
            SyslogSender::UnixDatagram(sender) => sender.rfc5425_action(severity, timestamp, msgid, elements, message),
            SyslogSender::UnixStream(sender) => sender.rfc5425_action(severity, timestamp, msgid, elements, message),
        }
    }

    /// Sends a message with the given severity in the BSD format: exactly
    /// what the sender inside would send.
    pub fn send_rfc3164(&self, severity: Severity, timestamp: &Timestamp, message: &str) -> (action:
        SinkAction)
        requires
            timestamp.wf(),
        ensures
            action@ == self.rfc3164_action(severity, *timestamp, message),
            action@.payload() == rfc3164_text(
                self.context()@,
                severity,
                *timestamp,
                Some(message.spec_bytes()),
            ),
            action@ is Stream <==> self.is_stream(),
            action@ is Datagram <==> !self.is_stream(),
    {
        match self {
            SyslogSender::Tcp(sender) => sender.send_rfc3164(severity, timestamp, message),
            SyslogSender::Udp(sender) => sender.send_rfc3164(severity, timestamp, message),
            SyslogSender::UnixDatagram(sender) => sender.send_rfc3164(severity, timestamp, message),
            SyslogSender::UnixStream(sender) => sender.send_rfc3164(severity, timestamp, message),
        }
    }

    /// Sends a message with the given severity in the structured format:
    /// exactly what the sender inside would send.
    pub fn send_rfc5424(
        &self,
        severity: Severity,
        timestamp: &Timestamp,
        msgid: Option<&str>,
        elements: Vec<SDElement>,
        message: &str,
    ) -> (action: SinkAction)
        requires
            timestamp.wf(),
        ensures
            action@ == self.rfc5424_action(severity, *timestamp, msgid, elements@, message),
            action@.payload() == rfc5424_text(
                self.context()@,
                severity,
                *timestamp,
                str_bytes(msgid),
                element_views(elements@),
                Some(message.spec_bytes()),
            ),
            action@ is Stream <==> self.is_stream(),
            action@ is Datagram <==> !self.is_stream(),
    {
        match self {
            SyslogSender::Tcp(sender) => sender.send_rfc5424(severity, timestamp, msgid, elements, message),
            SyslogSender::Udp(sender) => sender.send_rfc5424(severity, timestamp, msgid, elements, message),
            SyslogSender::UnixDatagram(sender) => sender.send_rfc5424(severity, timestamp, msgid, elements, message),
            SyslogSender::UnixStream(sender) => sender.send_rfc5424(severity, timestamp, msgid, elements, message),
        }
    }

    /// Sends a message with the given severity in the octet-counted format:
    /// exactly what the sender inside would send.
    pub fn send_rfc5425(
        &self,
        severity: Severity,
        timestamp: &Timestamp,
        msgid: Option<&str>,
        elements: Vec<SDElement>,
        message: &str,
    ) -> (action: SinkAction)
        requires
            timestamp.wf(),
        ensures
            action@ == self.rfc5425_action(severity, *timestamp, msgid, elements@, message),
            action@.payload() == rfc5425_text(
                self.context()@,
                severity,
                *timestamp,
                str_bytes(msgid),
                element_views(elements@),
                Some(message.spec_bytes()),
            ),
            action@ is Stream <==> self.is_stream(),
            action@ is Datagram <==> !self.is_stream(),
    {
        match self {
            SyslogSender::Tcp(sender) => sender.send_rfc5425(severity, timestamp, msgid, elements, message),
            SyslogSender::Udp(sender) => sender.send_rfc5425(severity, timestamp, msgid, elements, message),
            SyslogSender::UnixDatagram(sender) => sender.send_rfc5425(severity, timestamp, msgid, elements, message),
            SyslogSender::UnixStream(sender) => sender.send_rfc5425(severity, timestamp, msgid, elements, message),
        }
    }

    /// Flushes the sink where that means anything: a stream is flushed, and
    /// for a datagram transport nothing is done and nothing is written.
    pub fn flush(&self) -> (action: SinkAction)
        ensures
            self.is_stream() ==> action@ == SinkActionView::Flush,
            !self.is_stream() ==> action@ == SinkActionView::Nothing,
            !action@.writes(),
    {
        match self {
            SyslogSender::Tcp(sender) => sender.flush(),
            SyslogSender::UnixStream(sender) => sender.flush(),
            SyslogSender::Udp(_) => SinkAction::Nothing,
            SyslogSender::UnixDatagram(_) => SinkAction::Nothing,
        }
    }
}

/// Sending through the dispatcher asks of the sink exactly what the sender
/// inside asks, in each of the three formats.
pub proof fn lemma_dispatch_agrees_with_variant(
    sender: SyslogSender,
    severity: Severity,
    timestamp: Timestamp,
    msgid: Option<&str>,
    elements: Seq<SDElement>,
    message: &str,
)
    ensures
        match sender {
            SyslogSender::Tcp(inner) => {
                &&& sender.rfc3164_action(severity, timestamp, message) == inner.rfc3164_action(
                    severity,
                    timestamp,
                    message,
                )
                &&& sender.rfc5424_action(severity, timestamp, msgid, elements, message)
                    == inner.rfc5424_action(severity, timestamp, msgid, elements, message)
                &&& sender.rfc5425_action(severity, timestamp, msgid, elements, message)
                    == inner.rfc5425_action(severity, timestamp, msgid, elements, message)
            },
            SyslogSender::Udp(inner) => {
                &&& sender.rfc3164_action(severity, timestamp, message) == inner.rfc3164_action(
                    severity,
                    timestamp,
                    message,
                )
                &&& sender.rfc5424_action(severity, timestamp, msgid, elements, message)
                    == inner.rfc5424_action(severity, timestamp, msgid, elements, message)
                &&& sender.rfc5425_action(severity, timestamp, msgid, elements, message)
                    == inner.rfc5425_action(severity, timestamp, msgid, elements, message)
            },
            SyslogSender::UnixDatagram(inner) => {
                &&& sender.rfc3164_action(severity, timestamp, message) == inner.rfc3164_action(
                    severity,
                    timestamp,
                    message,
                )
                &&& sender.rfc5424_action(severity, timestamp, msgid, elements, message)
                    == inner.rfc5424_action(severity, timestamp, msgid, elements, message)
                &&& sender.rfc5425_action(severity, timestamp, msgid, elements, message)
                    == inner.rfc5425_action(severity, timestamp, msgid, elements, message)
            },
            SyslogSender::UnixStream(inner) => {
                &&& sender.rfc3164_action(severity, timestamp, message) == inner.rfc3164_action(
                    severity,
                    timestamp,
                    message,
                )
                &&& sender.rfc5424_action(severity, timestamp, msgid, elements, message)
                    == inner.rfc5424_action(severity, timestamp, msgid, elements, message)
                &&& sender.rfc5425_action(severity, timestamp, msgid, elements, message)
                    == inner.rfc5425_action(severity, timestamp, msgid, elements, message)
            },
        },
{
}

/// Whatever the transport, the bytes of a message depend on the context and
/// the arguments alone: two senders with the same context put the same bytes
/// on the wire.
pub proof fn lemma_payload_is_independent_of_transport(
    first: SyslogSender,
    second: SyslogSender,
    severity: Severity,
    timestamp: Timestamp,
    msgid: Option<&str>,
    elements: Seq<SDElement>,
    message: &str,
)
    requires
        first.context()@ == second.context()@,
    ensures
        first.rfc3164_action(severity, timestamp, message).payload() == second.rfc3164_action(
            severity,
            timestamp,
            message,
        ).payload(),
        first.rfc5424_action(severity, timestamp, msgid, elements, message).payload()
            == second.rfc5424_action(severity, timestamp, msgid, elements, message).payload(),
        first.rfc5425_action(severity, timestamp, msgid, elements, message).payload()
            == second.rfc5425_action(severity, timestamp, msgid, elements, message).payload(),
{
}

} // verus!
