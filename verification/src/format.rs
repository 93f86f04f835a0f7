//! The three wire formats, each as a function from a context, a severity, a
//! timestamp and the message's content to bytes.
//!
//! Nothing here reads a clock: the caller supplies the timestamp, so the same
//! arguments always give the same bytes.

use vstd::prelude::*;
use vstd::string::StringSliceAdditionalSpecFns;
use vstd::utf8::encode_utf8;
use crate::priority::{priority, priority_value, Facility, Severity};
use crate::structured::{
    append_structured_data, element_views, structured_data_text, SDElement, SDElementView,
};
use crate::text::{
    append_bytes, append_decimal, decimal, is_digit, lemma_decimal_digits,
    lemma_decimal_no_leading_zero, CLOSE_BRACKET, COLON, DIGIT_ONE, GREATER_THAN,
    LESS_THAN, MINUS, OPEN_BRACKET, SPACE,
};
use crate::timestamp::Timestamp;

verus! {

/// What a sender knows of itself and puts into every message.
#[derive(Debug)]
pub struct SyslogContext {
    pub facility: Facility,
    pub hostname: Option<String>,
    pub appname: Option<String>,
    pub procid: Option<u32>,
}

/// A context with its text fields as UTF-8 bytes.
pub struct ContextView {
    pub facility: Facility,
    pub hostname: Option<Seq<u8>>,
    pub appname: Option<Seq<u8>>,
    pub procid: Option<u32>,
}

/// The UTF-8 bytes of an optional owned string.
pub open spec fn string_bytes(s: Option<String>) -> Option<Seq<u8>> {
    match s {
        Some(s) => Some(encode_utf8(s@)),
        None => None,
    }
}

/// The UTF-8 bytes of an optional string slice.
pub open spec fn str_bytes(s: Option<&str>) -> Option<Seq<u8>> {
    match s {
        Some(s) => Some(s.spec_bytes()),
        None => None,
    }
}

impl View for SyslogContext {
    type V = ContextView;

    open spec fn view(&self) -> ContextView {
        ContextView {
            facility: self.facility,
            hostname: string_bytes(self.hostname),
            appname: string_bytes(self.appname),
            procid: self.procid,
        }
    }
}

/// `<PRI>`: the priority value in decimal between angle brackets.
pub open spec fn priority_text(facility: Facility, severity: Severity) -> Seq<u8> {
    seq![LESS_THAN] + decimal(priority_value(facility, severity)) + seq![GREATER_THAN]
}

/// A text field, or the nil value `-` where it is absent.
pub open spec fn nilable(field: Option<Seq<u8>>) -> Seq<u8> {
    match field {
        Some(bytes) => bytes,
        None => seq![MINUS],
    }
}

/// The process id in decimal, or the nil value `-` where it is absent.
pub open spec fn procid_text(procid: Option<u32>) -> Seq<u8> {
    match procid {
        Some(pid) => decimal(pid as nat),
        None => seq![MINUS],
    }
}

/// The tag of the BSD format: the application's name, followed by `[pid]`
/// where a process id is set. The name is written in full, whatever its
/// length.
pub open spec fn tag_text(appname: Option<Seq<u8>>, procid: Option<u32>) -> Seq<u8> {
    nilable(appname) + match procid {
        Some(pid) => seq![OPEN_BRACKET] + decimal(pid as nat) + seq![CLOSE_BRACKET],
        None => Seq::empty(),
    }
}

/// The BSD format: `<PRI>Mmm dd hh:mm:ss HOSTNAME TAG`, and `: MESSAGE`
/// where there is a message. An absent hostname or application name is
/// written as `-`.
pub open spec fn rfc3164_text(
    context: ContextView,
    severity: Severity,
    timestamp: Timestamp,
    message: Option<Seq<u8>>,
) -> Seq<u8> {
    priority_text(context.facility, severity) + timestamp.rfc3164_text() + seq![SPACE] + nilable(
        context.hostname,
    ) + seq![SPACE] + tag_text(context.appname, context.procid) + match message {
        Some(text) => seq![COLON, SPACE] + text,
        None => Seq::empty(),
    }
}

/// The three fields that say where a structured message comes from:
/// `HOSTNAME APP-NAME PROCID`, each `-` where it is absent.
pub open spec fn origin_text(context: ContextView) -> Seq<u8> {
    nilable(context.hostname) + seq![SPACE] + nilable(context.appname) + seq![SPACE] + procid_text(
        context.procid,
    )
}

/// How a structured message opens: `<PRI>1 TIMESTAMP `.
pub open spec fn rfc5424_opening_text(
    facility: Facility,
    severity: Severity,
    timestamp: Timestamp,
) -> Seq<u8> {
    priority_text(facility, severity) + seq![DIGIT_ONE, SPACE] + timestamp.rfc3339_text() + seq![
        SPACE,
    ]
}

/// The header of the structured format, up to and including the space
/// behind the message id: `<PRI>1 TIMESTAMP HOSTNAME APP-NAME PROCID MSGID `.
pub open spec fn rfc5424_header_text(
    context: ContextView,
    severity: Severity,
    timestamp: Timestamp,
    msgid: Option<Seq<u8>>,
) -> Seq<u8> {
    rfc5424_opening_text(context.facility, severity, timestamp) + origin_text(context) + seq![
        SPACE,
    ] + nilable(msgid) + seq![SPACE]
}

/// The structured format:
/// `<PRI>1 TIMESTAMP HOSTNAME APP-NAME PROCID MSGID STRUCTURED-DATA`, and
/// ` MESSAGE` where there is a message. Every absent field is written as `-`.
pub open spec fn rfc5424_text(
    context: ContextView,
    severity: Severity,
    timestamp: Timestamp,
    msgid: Option<Seq<u8>>,
    elements: Seq<SDElementView>,
    message: Option<Seq<u8>>,
) -> Seq<u8> {
    rfc5424_header_text(context, severity, timestamp, msgid) + structured_data_text(elements)
        + match message {
        Some(text) => seq![SPACE] + text,
        None => Seq::empty(),
    }
}

/// A body behind its octet count: the body's length in decimal, one space,
/// the body.
pub open spec fn framed(body: Seq<u8>) -> Seq<u8> {
    decimal(body.len()) + seq![SPACE] + body
}

/// The octet-counted format: the structured format behind its own length.
pub open spec fn rfc5425_text(
    context: ContextView,
    severity: Severity,
    timestamp: Timestamp,
    msgid: Option<Seq<u8>>,
    elements: Seq<SDElementView>,
    message: Option<Seq<u8>>,
) -> Seq<u8> {
    framed(rfc5424_text(context, severity, timestamp, msgid, elements, message))
}

/// The priority value is eight times the facility's code plus the
/// severity's code and never exceeds 191, and its numeral in `<PRI>` is one
/// to three digits with no sign and no leading zero.
pub proof fn lemma_priority_numeral(facility: Facility, severity: Severity)
    ensures
        priority_value(facility, severity) == facility.value() * 8 + severity.value(),
        priority_value(facility, severity) <= 191,
        priority_text(facility, severity) == seq![LESS_THAN] + decimal(
            priority_value(facility, severity),
        ) + seq![GREATER_THAN],
        1 <= decimal(priority_value(facility, severity)).len() <= 3,
        forall|i: int|
            0 <= i < decimal(priority_value(facility, severity)).len() ==> is_digit(
                #[trigger] decimal(priority_value(facility, severity))[i],
            ),
        priority_value(facility, severity) > 0 ==> decimal(priority_value(facility, severity))[0]
            != 48,
        priority_value(facility, severity) == 0 ==> decimal(priority_value(facility, severity))
            == seq![48u8],
{
    let pri = priority_value(facility, severity);
    lemma_decimal_digits(pri);
    lemma_decimal_no_leading_zero(pri);
    reveal_with_fuel(decimal, 4);
}

/// Formatting is a function of its arguments: two renderings of the same
/// context, severity, timestamp and content, in the same format, are the
/// same bytes.
pub proof fn lemma_same_arguments_same_bytes(
    first: Seq<u8>,
    second: Seq<u8>,
    context: ContextView,
    severity: Severity,
    timestamp: Timestamp,
    msgid: Option<Seq<u8>>,
    elements: Seq<SDElementView>,
    message: Option<Seq<u8>>,
)
    requires
        ({
            ||| (first == rfc3164_text(context, severity, timestamp, message) && second
                == rfc3164_text(context, severity, timestamp, message))
            ||| (first == rfc5424_text(context, severity, timestamp, msgid, elements, message)
                && second == rfc5424_text(context, severity, timestamp, msgid, elements, message))
            ||| (first == rfc5425_text(context, severity, timestamp, msgid, elements, message)
                && second == rfc5425_text(context, severity, timestamp, msgid, elements, message))
        }),
    ensures
        first == second,
{
}

fn append_nilable(out: &mut Vec<u8>, field: Option<&str>)
    ensures
        final(out)@ == old(out)@ + nilable(str_bytes(field)),
{
    match field {
        Some(text) => append_bytes(out, text.as_bytes()),
        None => out.push(MINUS),
    }
}

fn as_text(field: &Option<String>) -> (r: Option<&str>)
    ensures
        str_bytes(r) == string_bytes(*field),
{
    match field {
        Some(s) => Some(s.as_str()),
        None => None,
    }
}

/// Puts `body` behind its octet count.
pub fn frame(body: &[u8]) -> (out: Vec<u8>)
    ensures
        out@ == framed(body@),
{
    let mut out: Vec<u8> = Vec::new();
    append_decimal(&mut out, body.len() as u64);
    out.push(SPACE);
    append_bytes(&mut out, body);
    assert(out@ =~= framed(body@));
    out
}

impl SyslogContext {
    /// A context for the given facility, with no hostname, application name
    /// or process id.
    pub fn new(facility: Facility) -> (context: SyslogContext)
        ensures
            context@ == (ContextView { facility, hostname: None, appname: None, procid: None }),
    {
        SyslogContext { facility, hostname: None, appname: None, procid: None }
    }

    fn append_priority(&self, out: &mut Vec<u8>, severity: Severity)
        ensures
            final(out)@ == old(out)@ + priority_text(self.facility, severity),
    {
        out.push(LESS_THAN);
        append_decimal(out, priority(self.facility, severity) as u64);
        out.push(GREATER_THAN);
        assert(out@ =~= old(out)@ + priority_text(self.facility, severity));
    }

    /// Renders a message in the BSD format.
    pub fn format_rfc3164(
        &self,
        severity: Severity,
        timestamp: &Timestamp,
        message: Option<&str>,
    ) -> (out: Vec<u8>)
        requires
            timestamp.wf(),
        ensures
            out@ == rfc3164_text(self@, severity, *timestamp, str_bytes(message)),
    {
        let mut out: Vec<u8> = Vec::new();
        self.append_priority(&mut out, severity);
        timestamp.append_rfc3164(&mut out);
        out.push(SPACE);
        append_nilable(&mut out, as_text(&self.hostname));
        out.push(SPACE);
        append_nilable(&mut out, as_text(&self.appname));
        if let Some(pid) = self.procid {
            out.push(OPEN_BRACKET);
            append_decimal(&mut out, pid as u64);
            out.push(CLOSE_BRACKET);
        }
        if let Some(text) = message {
            out.push(COLON);
            out.push(SPACE);
            append_bytes(&mut out, text.as_bytes());
        }
        assert(out@ =~= rfc3164_text(self@, severity, *timestamp, str_bytes(message)));
        out
    }

    fn append_origin(&self, out: &mut Vec<u8>)
        ensures
            final(out)@ == old(out)@ + origin_text(self@),
    {
        append_nilable(out, as_text(&self.hostname));
        out.push(SPACE);
        append_nilable(out, as_text(&self.appname));
        out.push(SPACE);
        match self.procid {
            Some(pid) => append_decimal(out, pid as u64),
            None => out.push(MINUS),
        }
        assert(out@ =~= old(out)@ + origin_text(self@));
    }

    fn append_rfc5424_opening(&self, out: &mut Vec<u8>, severity: Severity, timestamp: &Timestamp)
        requires
            timestamp.wf(),
        ensures
            final(out)@ == old(out)@ + rfc5424_opening_text(self.facility, severity, *timestamp),
    {
        self.append_priority(out, severity);
        out.push(DIGIT_ONE);
        out.push(SPACE);
        timestamp.append_rfc3339(out);
        out.push(SPACE);
        assert(out@ =~= old(out)@ + rfc5424_opening_text(self.facility, severity, *timestamp));
    }

    fn append_rfc5424_header(
        &self,
        out: &mut Vec<u8>,
        severity: Severity,
        timestamp: &Timestamp,
        msgid: Option<&str>,
    )
        requires
            timestamp.wf(),
        ensures
            final(out)@ == old(out)@ + rfc5424_header_text(
                self@,
                severity,
                *timestamp,
                str_bytes(msgid),
            ),
    {
        self.append_rfc5424_opening(out, severity, timestamp);
        self.append_origin(out);
        out.push(SPACE);
        append_nilable(out, msgid);
        out.push(SPACE);
        assert(out@ =~= old(out)@ + rfc5424_header_text(
            self@,
            severity,
            *timestamp,
            str_bytes(msgid),
        ));
    }

    /// Renders a message in the structured format.
    pub fn format_rfc5424(
        &self,
        severity: Severity,
        timestamp: &Timestamp,
        msgid: Option<&str>,
        elements: &[SDElement],
        message: Option<&str>,
    ) -> (out: Vec<u8>)
        requires
            timestamp.wf(),
        ensures
            out@ == rfc5424_text(
                self@,
                severity,
                *timestamp,
                str_bytes(msgid),
                element_views(elements@),
                str_bytes(message),
            ),
    {
        let mut out: Vec<u8> = Vec::new();
        self.append_rfc5424_header(&mut out, severity, timestamp, msgid);
        append_structured_data(&mut out, elements);
        if let Some(text) = message {
            out.push(SPACE);
            append_bytes(&mut out, text.as_bytes());
        }
        assert(out@ =~= rfc5424_text(
            self@,
            severity,
            *timestamp,
            str_bytes(msgid),
            element_views(elements@),
            str_bytes(message),
        ));
        out
    }

    /// Renders a message in the octet-counted format.
    pub fn format_rfc5425(
        &self,
        severity: Severity,
        timestamp: &Timestamp,
        msgid: Option<&str>,
        elements: &[SDElement],
        message: Option<&str>,
    ) -> (out: Vec<u8>)
        requires
            timestamp.wf(),
        ensures
            out@ == rfc5425_text(
                self@,
                severity,
                *timestamp,
                str_bytes(msgid),
                element_views(elements@),
                str_bytes(message),
            ),
    {
        let body = self.format_rfc5424(severity, timestamp, msgid, elements, message);
        frame(body.as_slice())
    }
}

} // verus!
