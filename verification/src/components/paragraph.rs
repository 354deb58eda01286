//! The header and the preview as plain paragraphs of text.

use vstd::prelude::*;
use crate::components::{Event, EventView};
use crate::constants::{msg_of, Key, Msg, MsgView, ProviderStatus, ProviderStatusView};
use crate::text::{decimal, join, to_decimal};

verus! {

/// The lines of a paragraph, each as its characters.
pub open spec fn paragraph_view(lines: Seq<String>) -> Seq<Seq<char>> {
    Seq::new(lines.len(), |i: int| lines[i]@)
}

/// The six lines of the header for a summary.
pub open spec fn header_text(status: ProviderStatusView) -> Seq<Seq<char>> {
    seq![
        ""@,
        " Provider: "@ + status.name + ", Status: "@ + status.status,
        ""@,
        " Servers: "@ + decimal(status.servers as nat) + " | Primary IPs: "@ + decimal(
            status.primary_ips as nat,
        ) + " | Firewalls: "@ + decimal(status.firewalls as nat) + " | Load Balancers: "@
            + decimal(status.load_balancers as nat),
        ""@,
        "Press ESC to exit."@,
    ]
}

/// The header as a paragraph.
#[derive(Debug, Clone, Copy, Default)]
pub struct Header {}

impl Header {
    /// The six lines that the header shows of a summary.
    pub fn update_status(status: &ProviderStatus) -> (lines: Vec<String>)
        ensures
            paragraph_view(lines@) == header_text(status@),
    {
        let mut provider = join(" Provider: ", status.name.as_str());
        provider.append(", Status: ");
        provider.append(status.status.as_str());
        let mut counts = join(" Servers: ", to_decimal(status.servers as u64).as_str());
        counts.append(" | Primary IPs: ");
        counts.append(to_decimal(status.primary_ips as u64).as_str());
        counts.append(" | Firewalls: ");
        counts.append(to_decimal(status.firewalls as u64).as_str());
        counts.append(" | Load Balancers: ");
        counts.append(to_decimal(status.load_balancers as u64).as_str());
        let lines = vec![
            String::new(),
            provider,
            String::new(),
            counts,
            String::new(),
            "Press ESC to exit.".to_owned(),
        ];
        proof {
            reveal_strlit("");
            assert(lines[0]@ =~= ""@);
            assert(lines[2]@ =~= ""@);
            assert(lines[4]@ =~= ""@);
        }
        assert(paragraph_view(lines@) =~= header_text(status@));
        lines
    }
}

/// The facts that the plain preview shows.
#[derive(Debug, Clone, Copy, PartialEq, Eq, Hash, Structural)]
pub enum PreviewDataTypes {
    Servers,
    Name,
    Region,
    Image,
}

/// The preview as a paragraph, with the four facts it shows.
#[derive(Debug, Clone)]
pub struct Preview {
    pub servers: String,
    pub name: String,
    pub region: String,
    pub image: String,
}

pub struct PreviewView {
    pub servers: Seq<char>,
    pub name: Seq<char>,
    pub region: Seq<char>,
    pub image: Seq<char>,
}

impl View for Preview {
    type V = PreviewView;

    open spec fn view(&self) -> PreviewView {
        PreviewView {
            servers: self.servers@,
            name: self.name@,
            region: self.region@,
            image: self.image@,
        }
    }
}

impl PreviewView {
    /// The preview with one fact replaced.
    pub open spec fn with(self, fact: PreviewDataTypes, text: Seq<char>) -> PreviewView {
        match fact {
            PreviewDataTypes::Servers => PreviewView { servers: text, ..self },
            PreviewDataTypes::Name => PreviewView { name: text, ..self },
            PreviewDataTypes::Region => PreviewView { region: text, ..self },
            PreviewDataTypes::Image => PreviewView { image: text, ..self },
        }
    }

    /// The four lines that the preview shows.
    pub open spec fn text(self) -> Seq<Seq<char>> {
        seq![
            "servers: "@ + self.servers,
            "name: "@ + self.name,
            "region: /zone/"@ + self.region,
            "image: /images/"@ + self.image,
        ]
    }
}

impl Preview {
    /// The preview before anything is known.
    pub fn new() -> (made: Self)
        ensures
            made@ == (PreviewView {
                servers: "0"@,
                name: "Unknown"@,
                region: "Unknown"@,
                image: "Unknown"@,
            }),
    {
        Preview {
            servers: "0".to_owned(),
            name: "Unknown".to_owned(),
            region: "Unknown".to_owned(),
            image: "Unknown".to_owned(),
        }
    }

    /// Replaces one fact.
    pub fn set(&mut self, fact: PreviewDataTypes, text: String)
        ensures
            final(self)@ == old(self)@.with(fact, text@),
    {
        match fact {
            PreviewDataTypes::Servers => {
                self.servers = text;
            },
            PreviewDataTypes::Name => {
                self.name = text;
            },
            PreviewDataTypes::Region => {
                self.region = text;
            },
            PreviewDataTypes::Image => {
                self.image = text;
            },
        }
    }

    /// The four lines that the preview shows.
    pub fn update_text(&self) -> (lines: Vec<String>)
        ensures
            paragraph_view(lines@) == self@.text(),
    {
        let lines = vec![
            join("servers: ", self.servers.as_str()),
            join("name: ", self.name.as_str()),
            join("region: /zone/", self.region.as_str()),
            join("image: /images/", self.image.as_str()),
        ];
        assert(paragraph_view(lines@) =~= self@.text());
        lines
    }

    /// Takes an event: escape closes the dashboard, and nothing else is
    /// answered.
    pub fn on(&self, event: &Event) -> (msg: Option<Msg>)
        ensures
            msg_of(msg) == match event@ {
                EventView::Keyboard(Key::Esc) => Some(MsgView::AppClose),
                _ => None,
            },
    {
        match event {
            Event::Keyboard(Key::Esc) => Some(Msg::AppClose),
            _ => None,
        }
    }
}

} // verus!
