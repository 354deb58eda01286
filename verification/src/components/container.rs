//! The header, which shows the provider's summary, and the preview, which
//! shows the detail of a server.

use vstd::prelude::*;
use crate::components::{
    line_view, lines_view, plain, plain_span, span, Event, EventView, Span, SpanView, Tone,
};
use crate::constants::{
    msg_of, Msg, MsgView, ProviderStatus, ProviderStatusView, ServerPreview,
    ServerPreviewView, UserEvent, UserEventView,
};
use crate::text::{decimal, join, to_decimal};

verus! {

/// What the header keeps: the summary it shows, and whether it still owes
/// the request for a first summary.
#[derive(Debug, Clone)]
pub struct Header {
    pub status: ProviderStatus,
    pub launch: bool,
}

pub struct HeaderView {
    pub status: ProviderStatusView,
    pub launch: bool,
}

impl View for Header {
    type V = HeaderView;

    open spec fn view(&self) -> HeaderView {
        HeaderView { status: self.status@, launch: self.launch }
    }
}

/// A count, in the good colour where it is above zero.
pub open spec fn counted(count: usize) -> SpanView {
    SpanView {
        text: decimal(count as nat),
        tone: if count > 0 {
            Tone::Good
        } else {
            Tone::Warn
        },
    }
}

/// The three lines of the header for a summary.
pub open spec fn header_lines(status: ProviderStatusView) -> Seq<Seq<SpanView>> {
    seq![
        seq![
            plain(" Provider: "@),
            SpanView { text: status.name, tone: Tone::Bold },
            plain(", Status: "@),
            SpanView {
                text: status.status,
                tone: if status.status == "Connected"@ {
                    Tone::Good
                } else {
                    Tone::Warn
                },
            },
        ],
        seq![
            plain(" Servers: "@),
            counted(status.servers),
            plain(" | Primary IPs: "@),
            counted(status.primary_ips),
            plain(" | Firewalls: "@),
            counted(status.firewalls),
            plain(" | Load Balancers: "@),
            counted(status.load_balancers),
        ],
        seq![plain("Press ESC to exit."@)],
    ]
}

/// The message that a batch leads the header to: that of the last event
/// which tells of the provider, and an idle one where none does.
pub open spec fn header_message(events: Seq<UserEventView>) -> MsgView
    decreases events.len(),
{
    if events.len() == 0 {
        MsgView::Nop(0)
    } else {
        match events.last() {
            UserEventView::ProviderStatus(status) => if status.status == "Connected"@ {
                MsgView::Connected
            } else {
                MsgView::Disconnected
            },
            UserEventView::Refresh => MsgView::UpdateProviderStatus,
            _ => header_message(events.drop_last()),
        }
    }
}

/// The summary that the header shows after a batch: the last that the
/// batch brought, and the one it showed where the batch brought none.
pub open spec fn header_status(shown: ProviderStatusView, events: Seq<UserEventView>)
    -> ProviderStatusView
    decreases events.len(),
{
    if events.len() == 0 {
        shown
    } else {
        match events.last() {
            UserEventView::ProviderStatus(status) => status,
            _ => header_status(shown, events.drop_last()),
        }
    }
}

fn count_span(count: usize) -> (made: Span)
    ensures
        made@ == counted(count),
{
    span(
        to_decimal(count as u64),
        if count > 0 {
            Tone::Good
        } else {
            Tone::Warn
        },
    )
}

impl HeaderView {
    /// The header after an event, and the message it answers with. A batch
    /// is answered with the message it leads to. Any other event is
    /// answered once with the request for a first summary, where that is
    /// still owed, and with nothing after that.
    pub open spec fn on(self, event: EventView) -> (HeaderView, Option<MsgView>) {
        match event {
            EventView::User(events) => (
                HeaderView { status: header_status(self.status, events), ..self },
                Some(header_message(events)),
            ),
            _ => if self.launch {
                (HeaderView { launch: false, ..self }, Some(MsgView::Launch))
            } else {
                (self, None)
            },
        }
    }
}

impl Default for Header {
    fn default() -> (made: Self)
        ensures
            made@ == (HeaderView { status: ProviderStatus::spec_default(), launch: false }),
    {
        Header { status: ProviderStatus::default(), launch: false }
    }
}

impl Header {
    /// Takes a new summary to show.
    pub fn update_status(&mut self, status: ProviderStatus)
        ensures
            final(self)@ == (HeaderView { status: status@, ..old(self)@ }),
    {
        self.status = status;
    }

    /// The three lines that the header shows.
    pub fn lines(&self) -> (lines: Vec<Vec<Span>>)
        ensures
            lines_view(lines@) == header_lines(self.status@),
    {
        let status = &self.status;
        let first = vec![
            plain_span(" Provider: "),
            span(status.name.clone(), Tone::Bold),
            plain_span(", Status: "),
            span(
                status.status.clone(),
                if status.connected() {
                    Tone::Good
                } else {
                    Tone::Warn
                },
            ),
        ];
        let second = vec![
            plain_span(" Servers: "),
            count_span(status.servers),
            plain_span(" | Primary IPs: "),
            count_span(status.primary_ips),
            plain_span(" | Firewalls: "),
            count_span(status.firewalls),
            plain_span(" | Load Balancers: "),
            count_span(status.load_balancers),
        ];
        let third = vec![plain_span("Press ESC to exit.")];
        assert(line_view(first@) =~= header_lines(self.status@)[0]);
        assert(line_view(second@) =~= header_lines(self.status@)[1]);
        assert(line_view(third@) =~= header_lines(self.status@)[2]);
        let lines = vec![first, second, third];
        assert(lines_view(lines@) =~= header_lines(self.status@));
        lines
    }

    /// Takes an event and answers with a message, or with none.
    pub fn on(&mut self, event: &Event) -> (msg: Option<Msg>)
        ensures
            final(self)@ == old(self)@.on(event@).0,
            msg_of(msg) == old(self)@.on(event@).1,
    {
        match event {
            Event::User(batch) => {
                let mut msg = Msg::Nop(0);
                let mut i: usize = 0;
                while i < batch.events.len()
                    invariant
                        i <= batch.events.len(),
                        self.launch == old(self).launch,
                        msg@ == header_message(batch@.take(i as int)),
                        self.status@ == header_status(old(self).status@, batch@.take(i as int)),
                    decreases batch.events.len() - i,
                {
                    proof {
                        let seen = batch@.take(i as int);
                        let more = batch@.take(i + 1);
                        assert(more.drop_last() =~= seen);
                        assert(more.last() == batch.events[i as int]@);
                    }
                    match &batch.events[i] {
                        UserEvent::ProviderStatus(status) => {
                            msg = if status.connected() {
                                Msg::Connected
                            } else {
                                Msg::Disconnected
                            };
                            self.update_status(status.copy());
                        },
                        UserEvent::Refresh => {
                            msg = Msg::UpdateProviderStatus;
                        },
                        _ => {},
                    }
                    i += 1;
                }
                assert(batch@.take(i as int) =~= batch@);
                Some(msg)
            },
            _ => {
                if self.launch {
                    self.launch = false;
                    Some(Msg::Launch)
                } else {
                    None
                }
            },
        }
    }
}

/// The ten lines of the preview for a server. Traffic is shown in whole
/// bytes.
pub open spec fn preview_lines(server: ServerPreviewView) -> Seq<Seq<SpanView>> {
    seq![
        seq![plain(" "@ + server.name + ": "@)],
        seq![plain("   Status: "@), plain(server.status)],
        seq![plain("   Provider: "@), plain(server.provider)],
        seq![plain("   Created On: "@), plain(server.created_on)],
        seq![plain("   Datacenter: "@), plain(server.datacenter)],
        seq![plain("   Image: "@), plain(server.image)],
        seq![plain("   Tags: "@), plain(server.tags)],
        seq![plain("   Traffic: "@), plain(traffic_text(server.traffic.0, server.traffic.1))],
        seq![plain("   Disk Size: "@), plain(amount(server.disk_size as int) + " GB"@)],
        seq![plain("   Server Type: "@), plain(server.server_type)],
    ]
}

/// A whole number in decimal, with its sign where it is below zero.
pub open spec fn amount(n: int) -> Seq<char> {
    if n < 0 {
        "-"@ + decimal((-n) as nat)
    } else {
        decimal(n as nat)
    }
}

/// The traffic of a server in words.
pub open spec fn traffic_text(ingoing: i64, outgoing: i64) -> Seq<char> {
    amount(ingoing as int) + " B in, "@ + amount(outgoing as int) + " B out"@
}

fn amount_text(n: i64) -> (text: String)
    ensures
        text@ == amount(n as int),
{
    if n < 0 {
        let size: u64 = if n == i64::MIN {
            9223372036854775808
        } else {
            (-n) as u64
        };
        join("-", to_decimal(size).as_str())
    } else {
        to_decimal(n as u64)
    }
}

fn pair(label: &str, text: String) -> (line: Vec<Span>)
    ensures
        line_view(line@) == seq![plain(label@), plain(text@)],
{
    let line = vec![plain_span(label), span(text, Tone::Plain)];
    assert(line_view(line@) =~= seq![plain(label@), plain(text@)]);
    line
}

/// The preview of a server, or the empty preview.
#[derive(Debug, Clone)]
pub struct Preview {
    pub server: Option<ServerPreview>,
}

impl Default for Preview {
    fn default() -> (made: Self)
        ensures
            made.server is None,
    {
        Preview { server: None }
    }
}

impl Preview {
    /// The preview of a server.
    pub fn new(server: ServerPreview) -> (made: Self)
        ensures
            made.server == Some(server),
    {
        Preview { server: Some(server) }
    }

    /// The lines that the preview shows: ten for a server, one empty line
    /// for the empty preview.
    pub fn lines(&self) -> (lines: Vec<Vec<Span>>)
        ensures
            lines_view(lines@) == match self.server {
                Some(server) => preview_lines(server@),
                None => seq![Seq::<SpanView>::empty()],
            },
    {
        match &self.server {
            Some(server) => {
                let mut title = join(" ", server.name.as_str());
                title.append(": ");
                let first = vec![span(title, Tone::Plain)];
                assert(line_view(first@) =~= preview_lines(server@)[0]);
                let mut traffic = amount_text(server.traffic.0);
                traffic.append(" B in, ");
                traffic.append(amount_text(server.traffic.1).as_str());
                traffic.append(" B out");
                let mut disk = amount_text(server.disk_size as i64);
                disk.append(" GB");
                let lines = vec![
                    first,
                    pair("   Status: ", server.status.clone()),
                    pair("   Provider: ", server.provider.clone()),
                    pair("   Created On: ", server.created_on.clone()),
                    pair("   Datacenter: ", server.datacenter.clone()),
                    pair("   Image: ", server.image.clone()),
                    pair("   Tags: ", server.tags.clone()),
                    pair("   Traffic: ", traffic),
                    pair("   Disk Size: ", disk),
                    pair("   Server Type: ", server.server_type.clone()),
                ];
                assert(lines_view(lines@) =~= preview_lines(server@));
                lines
            },
            None => {
                let empty: Vec<Span> = Vec::new();
                assert(line_view(empty@) =~= Seq::<SpanView>::empty());
                let lines = vec![empty];
                assert(lines_view(lines@) =~= seq![Seq::<SpanView>::empty()]);
                lines
            },
        }
    }

    /// The preview answers no event.
    pub fn on(&self, event: &Event) -> (msg: Option<Msg>)
        ensures
            msg is None,
    {
        None
    }
}

} // verus!
