//! The data that travels between the task queue, the screen controller and
//! the reducer.
//!
//! Every type that owns text has a view in which each `String` is the
//! sequence of its characters; contracts speak of those views.

use vstd::prelude::*;

verus! {

/// The cloud provider an operator authenticates against.
#[derive(Debug, Clone, Copy, PartialEq, Eq, Structural)]
pub enum AuthPlatform {
    Google,
    Amazon,
    Hetzner,
}

impl AuthPlatform {
    /// The provider's display name, as a sequence of characters.
    pub open spec fn spec_name(self) -> Seq<char> {
        match self {
            AuthPlatform::Google => "Google"@,
            AuthPlatform::Amazon => "Amazon"@,
            AuthPlatform::Hetzner => "Hetzner"@,
        }
    }

    /// The provider's display name.
    pub fn name(&self) -> (text: String)
        ensures
            text@ == self.spec_name(),
    {
        match self {
            AuthPlatform::Google => "Google".to_owned(),
            AuthPlatform::Amazon => "Amazon".to_owned(),
            AuthPlatform::Hetzner => "Hetzner".to_owned(),
        }
    }

    /// The provider that a command-line word names, if it names one.
    pub open spec fn spec_parse(word: Seq<char>) -> Option<AuthPlatform> {
        if word == "google"@ {
            Some(AuthPlatform::Google)
        } else if word == "amazon"@ {
            Some(AuthPlatform::Amazon)
        } else if word == "hetzner"@ {
            Some(AuthPlatform::Hetzner)
        } else {
            None
        }
    }

    /// Reads a provider from its lower-case command-line word. Any other word
    /// is refused with the message "Invalid auth platform".
    pub fn parse(word: &str) -> (parsed: Result<AuthPlatform, String>)
        ensures
            match Self::spec_parse(word@) {
                Some(platform) => parsed == Ok::<AuthPlatform, String>(platform),
                None => parsed is Err && parsed->Err_0@ == "Invalid auth platform"@,
            },
    {
        if crate::text::same_text(word, "google") {
            Ok(AuthPlatform::Google)
        } else if crate::text::same_text(word, "amazon") {
            Ok(AuthPlatform::Amazon)
        } else if crate::text::same_text(word, "hetzner") {
            Ok(AuthPlatform::Hetzner)
        } else {
            Err("Invalid auth platform".to_owned())
        }
    }
}

impl Default for AuthPlatform {
    fn default() -> (platform: Self)
        ensures
            platform == AuthPlatform::Google,
    {
        AuthPlatform::Google
    }
}

impl std::str::FromStr for AuthPlatform {
    type Err = String;

    fn from_str(s: &str) -> (parsed: Result<Self, String>)
        ensures
            match Self::spec_parse(s@) {
                Some(platform) => parsed == Ok::<AuthPlatform, String>(platform),
                None => parsed is Err && parsed->Err_0@ == "Invalid auth platform"@,
            },
    {
        AuthPlatform::parse(s)
    }
}

/// The two values an operator passes on the command line.
#[derive(Debug)]
pub struct Args {
    pub auth: AuthPlatform,
    pub token: String,
}

/// A provider together with the token that opens it.
#[derive(Debug, Clone, PartialEq, Eq)]
pub struct Auth {
    pub auth: AuthPlatform,
    pub token: String,
}

impl Auth {
    pub fn new(auth: AuthPlatform, token: String) -> (made: Self)
        ensures
            made.auth == auth,
            made.token == token,
    {
        Self { auth, token }
    }
}

/// What the task queue needs to reach the provider.
#[derive(Debug, Clone, PartialEq, Eq)]
pub struct Config {
    pub auth: Auth,
}

impl Config {
    pub fn new(args: Args) -> (made: Self)
        ensures
            made.auth.auth == args.auth,
            made.auth.token == args.token,
    {
        Self { auth: Auth::new(args.auth, args.token) }
    }
}

/// The names of the widgets a screen can hold.
#[derive(Debug, Clone, Copy, PartialEq, Eq, Hash, Structural)]
pub enum Id {
    Header,
    TextInput1,
    TextInput2,
    TextInput3,
    Preview,
    Label,
    ServerList,
    Phantom,
}

impl Id {
    /// The widget's name as text.
    pub open spec fn spec_name(self) -> Seq<char> {
        match self {
            Id::Header => "Header"@,
            Id::TextInput1 => "TextInput1"@,
            Id::TextInput2 => "TextInput2"@,
            Id::TextInput3 => "TextInput3"@,
            Id::Preview => "Preview"@,
            Id::Label => "Label"@,
            Id::ServerList => "ServerList"@,
            Id::Phantom => "Phantom"@,
        }
    }

    /// The widget's name as text.
    pub fn name(&self) -> (text: String)
        ensures
            text@ == self.spec_name(),
    {
        match self {
            Id::Header => "Header".to_owned(),
            Id::TextInput1 => "TextInput1".to_owned(),
            Id::TextInput2 => "TextInput2".to_owned(),
            Id::TextInput3 => "TextInput3".to_owned(),
            Id::Preview => "Preview".to_owned(),
            Id::Label => "Label".to_owned(),
            Id::ServerList => "ServerList".to_owned(),
            Id::Phantom => "Phantom".to_owned(),
        }
    }
}

/// The keys that the widgets tell apart.
#[derive(Debug, Clone, Copy, PartialEq, Eq, Structural)]
pub enum Key {
    Esc,
    Tab,
    Left,
    Right,
    Up,
    Down,
    Home,
    End,
    PageUp,
    PageDown,
    Delete,
    Backspace,
    /// A character typed with no modifier held.
    Char(char),
    /// Any other key or chord.
    Other,
}

/// What a mounted widget asks to be told of, whether or not it has focus.
#[derive(Debug, Clone, Copy, PartialEq, Eq, Structural)]
pub enum Sub {
    /// A key, pressed with no modifier.
    Keyboard(Key),
    /// A batch that holds an event of that kind.
    User(EventKind),
}

/// The widgets that can be mounted, each with what it is made from.
#[derive(Debug, Clone, PartialEq, Eq)]
pub enum Components {
    Header,
    /// A text input; the id says which field of the form it is.
    TextInput(Id),
    /// The detail of a server, or the empty preview.
    ServerPreview(Option<ServerPreview>),
    CreateServerForm,
    TextLabel,
    ServerListConnected,
    ServerListDisconnected,
    /// The invisible widget that listens for the keys of the whole screen.
    Phantom,
}

pub enum ComponentsView {
    Header,
    TextInput(Id),
    ServerPreview(Option<ServerPreviewView>),
    CreateServerForm,
    TextLabel,
    ServerListConnected,
    ServerListDisconnected,
    Phantom,
}

impl View for Components {
    type V = ComponentsView;

    open spec fn view(&self) -> ComponentsView {
        match self {
            Components::Header => ComponentsView::Header,
            Components::TextInput(id) => ComponentsView::TextInput(*id),
            Components::ServerPreview(detail) => ComponentsView::ServerPreview(
                match detail {
                    Some(d) => Some(d@),
                    None => None,
                },
            ),
            Components::CreateServerForm => ComponentsView::CreateServerForm,
            Components::TextLabel => ComponentsView::TextLabel,
            Components::ServerListConnected => ComponentsView::ServerListConnected,
            Components::ServerListDisconnected => ComponentsView::ServerListDisconnected,
            Components::Phantom => ComponentsView::Phantom,
        }
    }
}

/// The summary that the header shows of a provider.
#[derive(Debug, Clone, PartialEq, Eq)]
pub struct ProviderStatus {
    pub name: String,
    pub status: String,
    pub servers: usize,
    pub primary_ips: usize,
    pub firewalls: usize,
    pub load_balancers: usize,
}

pub struct ProviderStatusView {
    pub name: Seq<char>,
    pub status: Seq<char>,
    pub servers: usize,
    pub primary_ips: usize,
    pub firewalls: usize,
    pub load_balancers: usize,
}

impl View for ProviderStatus {
    type V = ProviderStatusView;

    open spec fn view(&self) -> ProviderStatusView {
        ProviderStatusView {
            name: self.name@,
            status: self.status@,
            servers: self.servers,
            primary_ips: self.primary_ips,
            firewalls: self.firewalls,
            load_balancers: self.load_balancers,
        }
    }
}

impl ProviderStatus {
    /// The summary shown before anything is known of a provider.
    pub open spec fn spec_default() -> ProviderStatusView {
        ProviderStatusView {
            name: "Unknown"@,
            status: "Disconnected"@,
            servers: 0,
            primary_ips: 0,
            firewalls: 0,
            load_balancers: 0,
        }
    }

    /// The summary of a provider that answers and holds nothing yet.
    pub open spec fn spec_new(name: AuthPlatform) -> ProviderStatusView {
        ProviderStatusView {
            name: name.spec_name(),
            status: "Connected"@,
            servers: 0,
            primary_ips: 0,
            firewalls: 0,
            load_balancers: 0,
        }
    }

    pub fn new(name: AuthPlatform) -> (made: Self)
        ensures
            made@ == Self::spec_new(name),
    {
        Self {
            name: name.name(),
            status: "Connected".to_owned(),
            servers: 0,
            primary_ips: 0,
            firewalls: 0,
            load_balancers: 0,
        }
    }

    /// Whether the status text is exactly "Connected".
    pub fn connected(&self) -> (yes: bool)
        ensures
            yes == (self.status@ == "Connected"@),
    {
        crate::text::same_text(self.status.as_str(), "Connected")
    }

    pub fn copy(&self) -> (twin: Self)
        ensures
            twin@ == self@,
    {
        Self {
            name: self.name.clone(),
            status: self.status.clone(),
            servers: self.servers,
            primary_ips: self.primary_ips,
            firewalls: self.firewalls,
            load_balancers: self.load_balancers,
        }
    }
}

impl Default for ProviderStatus {
    fn default() -> (made: Self)
        ensures
            made@ == ProviderStatus::spec_default(),
    {
        Self {
            name: "Unknown".to_owned(),
            status: "Disconnected".to_owned(),
            servers: 0,
            primary_ips: 0,
            firewalls: 0,
            load_balancers: 0,
        }
    }
}

/// What the core reads of one remote server record.
#[derive(Debug, Clone, PartialEq)]
pub struct Server {
    pub name: String,
    /// Whether the provider reports the server as running.
    pub running: bool,
    /// The provider's word for the server's state.
    pub status: String,
    /// The public IPv4 address, where the server has one.
    pub ipv4: Option<String>,
    pub created: String,
    pub datacenter: String,
    /// The name of the image the server was made from, where it is known.
    pub image: Option<String>,
    pub labels: String,
    pub ingoing_traffic: Option<i64>,
    pub outgoing_traffic: Option<i64>,
    pub primary_disk_size: i32,
    pub server_type: String,
}

pub struct ServerView {
    pub name: Seq<char>,
    pub running: bool,
    pub status: Seq<char>,
    pub ipv4: Option<Seq<char>>,
    pub created: Seq<char>,
    pub datacenter: Seq<char>,
    pub image: Option<Seq<char>>,
    pub labels: Seq<char>,
    pub ingoing_traffic: Option<i64>,
    pub outgoing_traffic: Option<i64>,
    pub primary_disk_size: i32,
    pub server_type: Seq<char>,
}

/// The characters of an optional text.
pub open spec fn text_of(text: Option<String>) -> Option<Seq<char>> {
    match text {
        Some(t) => Some(t@),
        None => None,
    }
}

impl View for Server {
    type V = ServerView;

    open spec fn view(&self) -> ServerView {
        ServerView {
            name: self.name@,
            running: self.running,
            status: self.status@,
            ipv4: text_of(self.ipv4),
            created: self.created@,
            datacenter: self.datacenter@,
            image: text_of(self.image),
            labels: self.labels@,
            ingoing_traffic: self.ingoing_traffic,
            outgoing_traffic: self.outgoing_traffic,
            primary_disk_size: self.primary_disk_size,
            server_type: self.server_type@,
        }
    }
}

fn copy_text(text: &Option<String>) -> (twin: Option<String>)
    ensures
        text_of(twin) == text_of(*text),
{
    match text {
        Some(t) => Some(t.clone()),
        None => None,
    }
}

impl Server {
    pub fn copy(&self) -> (twin: Self)
        ensures
            twin@ == self@,
    {
        Self {
            name: self.name.clone(),
            running: self.running,
            status: self.status.clone(),
            ipv4: copy_text(&self.ipv4),
            created: self.created.clone(),
            datacenter: self.datacenter.clone(),
            image: copy_text(&self.image),
            labels: self.labels.clone(),
            ingoing_traffic: self.ingoing_traffic,
            outgoing_traffic: self.outgoing_traffic,
            primary_disk_size: self.primary_disk_size,
            server_type: self.server_type.clone(),
        }
    }
}

/// One row of the server list.
#[derive(Debug, Clone, PartialEq, Eq)]
pub struct ServerStatus {
    pub name: String,
    pub status: String,
    pub ip: String,
}

pub struct ServerStatusView {
    pub name: Seq<char>,
    pub status: Seq<char>,
    pub ip: Seq<char>,
}

impl View for ServerStatus {
    type V = ServerStatusView;

    open spec fn view(&self) -> ServerStatusView {
        ServerStatusView { name: self.name@, status: self.status@, ip: self.ip@ }
    }
}

/// The detail shown of a selected server. Traffic is counted in bytes.
#[derive(Debug, PartialEq, Eq)]
pub struct ServerPreview {
    pub provider: String,
    pub created_on: String,
    pub datacenter: String,
    pub image: String,
    pub tags: String,
    pub name: String,
    pub traffic: (i64, i64),
    pub disk_size: i32,
    pub server_type: String,
    pub status: String,
}

pub struct ServerPreviewView {
    pub provider: Seq<char>,
    pub created_on: Seq<char>,
    pub datacenter: Seq<char>,
    pub image: Seq<char>,
    pub tags: Seq<char>,
    pub name: Seq<char>,
    pub traffic: (i64, i64),
    pub disk_size: i32,
    pub server_type: Seq<char>,
    pub status: Seq<char>,
}

impl View for ServerPreview {
    type V = ServerPreviewView;

    open spec fn view(&self) -> ServerPreviewView {
        ServerPreviewView {
            provider: self.provider@,
            created_on: self.created_on@,
            datacenter: self.datacenter@,
            image: self.image@,
            tags: self.tags@,
            name: self.name@,
            traffic: self.traffic,
            disk_size: self.disk_size,
            server_type: self.server_type@,
            status: self.status@,
        }
    }
}

impl ServerPreview {
    /// The number of lines a preview shows.
    pub fn count() -> (lines: usize)
        ensures
            lines == 10,
    {
        10
    }

    pub fn copy(&self) -> (twin: Self)
        ensures
            twin@ == self@,
    {
        Self {
            provider: self.provider.clone(),
            created_on: self.created_on.clone(),
            datacenter: self.datacenter.clone(),
            image: self.image.clone(),
            tags: self.tags.clone(),
            name: self.name.clone(),
            traffic: self.traffic,
            disk_size: self.disk_size,
            server_type: self.server_type.clone(),
            status: self.status.clone(),
        }
    }
}

impl Clone for ServerPreview {
    fn clone(&self) -> (twin: Self)
        ensures
            twin@ == self@,
    {
        self.copy()
    }
}

/// An entry of the server list: a remote server, or the entry that opens the
/// form for a new one.
#[derive(Debug, Clone, PartialEq)]
pub enum ServerHandle {
    Hetzner(Box<Server>),
    Create,
}

pub enum ServerHandleView {
    Hetzner(ServerView),
    Create,
}

impl View for ServerHandle {
    type V = ServerHandleView;

    open spec fn view(&self) -> ServerHandleView {
        match self {
            ServerHandle::Hetzner(server) => ServerHandleView::Hetzner(server@),
            ServerHandle::Create => ServerHandleView::Create,
        }
    }
}

impl ServerHandle {
    /// The list row of a server.
    pub open spec fn spec_status(server: ServerView) -> ServerStatusView {
        ServerStatusView {
            name: server.name,
            status: if server.running {
                "Online"@
            } else {
                "Offline"@
            },
            ip: match server.ipv4 {
                Some(ip) => ip,
                None => "Private"@,
            },
        }
    }

    /// The detail of a server.
    pub open spec fn spec_preview(server: ServerView) -> ServerPreviewView {
        ServerPreviewView {
            provider: "Hetzner"@,
            created_on: server.created,
            datacenter: server.datacenter,
            image: match server.image {
                Some(image) => image,
                None => "Unknown"@,
            },
            tags: server.labels,
            name: server.name,
            traffic: (
                match server.ingoing_traffic {
                    Some(bytes) => bytes,
                    None => 0,
                },
                match server.outgoing_traffic {
                    Some(bytes) => bytes,
                    None => 0,
                },
            ),
            disk_size: server.primary_disk_size,
            server_type: server.server_type,
            status: server.status,
        }
    }

    /// The list row of this entry; the entry for a new server has none.
    pub fn to_status(&self) -> (row: Option<ServerStatus>)
        ensures
            match self@ {
                ServerHandleView::Hetzner(server) => row is Some && row->Some_0@
                    == Self::spec_status(server),
                ServerHandleView::Create => row is None,
            },
    {
        match self {
            ServerHandle::Hetzner(server) => Some(
                ServerStatus {
                    name: server.name.clone(),
                    status: if server.running {
                        "Online".to_owned()
                    } else {
                        "Offline".to_owned()
                    },
                    ip: match &server.ipv4 {
                        Some(ip) => ip.clone(),
                        None => "Private".to_owned(),
                    },
                },
            ),
            ServerHandle::Create => None,
        }
    }

    /// The detail of this entry; the entry for a new server has none.
    pub fn to_preview(&self) -> (detail: Option<ServerPreview>)
        ensures
            match self@ {
                ServerHandleView::Hetzner(server) => detail is Some && detail->Some_0@
                    == Self::spec_preview(server),
                ServerHandleView::Create => detail is None,
            },
    {
        match self {
            ServerHandle::Hetzner(server) => Some(
                ServerPreview {
                    provider: "Hetzner".to_owned(),
                    created_on: server.created.clone(),
                    datacenter: server.datacenter.clone(),
                    image: match &server.image {
                        Some(image) => image.clone(),
                        None => "Unknown".to_owned(),
                    },
                    tags: server.labels.clone(),
                    name: server.name.clone(),
                    traffic: (
                        match server.ingoing_traffic {
                            Some(bytes) => bytes,
                            None => 0,
                        },
                        match server.outgoing_traffic {
                            Some(bytes) => bytes,
                            None => 0,
                        },
                    ),
                    disk_size: server.primary_disk_size,
                    server_type: server.server_type.clone(),
                    status: server.status.clone(),
                },
            ),
            ServerHandle::Create => None,
        }
    }

    pub fn copy(&self) -> (twin: Self)
        ensures
            twin@ == self@,
    {
        match self {
            ServerHandle::Hetzner(server) => ServerHandle::Hetzner(Box::new(server.copy())),
            ServerHandle::Create => ServerHandle::Create,
        }
    }
}

/// The views of a list of handles, in order.
pub open spec fn handles_view(servers: Seq<ServerHandle>) -> Seq<ServerHandleView> {
    Seq::new(servers.len(), |i: int| servers[i]@)
}

/// Copies a list of handles.
pub fn copy_handles(servers: &Vec<ServerHandle>) -> (twin: Vec<ServerHandle>)
    ensures
        handles_view(twin@) == handles_view(servers@),
{
    let mut twin: Vec<ServerHandle> = Vec::new();
    let mut i: usize = 0;
    while i < servers.len()
        invariant
            i <= servers.len(),
            twin.len() == i,
            forall|j: int| 0 <= j < i ==> twin[j]@ == servers[j]@,
        decreases servers.len() - i,
    {
        twin.push(servers[i].copy());
        i += 1;
    }
    assert(handles_view(twin@) =~= handles_view(servers@));
    twin
}

/// The servers that a provider listed.
#[derive(Debug, Clone)]
pub struct ServerListStatus {
    pub servers: Vec<ServerHandle>,
}

impl View for ServerListStatus {
    type V = Seq<ServerHandleView>;

    open spec fn view(&self) -> Seq<ServerHandleView> {
        handles_view(self.servers@)
    }
}

impl ServerListStatus {
    pub fn new(servers: Vec<ServerHandle>) -> (made: Self)
        ensures
            made.servers == servers,
    {
        Self { servers }
    }
}

impl Default for ServerListStatus {
    fn default() -> (made: Self)
        ensures
            made.servers@.len() == 0,
    {
        Self { servers: Vec::new() }
    }
}

/// What the list widget reports as selected.
#[derive(Debug, Clone, PartialEq)]
pub enum State {
    SelectedServer(ServerHandle),
    Empty,
}

pub enum StateView {
    SelectedServer(ServerHandleView),
    Empty,
}

impl View for State {
    type V = StateView;

    open spec fn view(&self) -> StateView {
        match self {
            State::SelectedServer(server) => StateView::SelectedServer(server@),
            State::Empty => StateView::Empty,
        }
    }
}

impl Default for State {
    fn default() -> (made: Self)
        ensures
            made@ == StateView::Empty,
    {
        State::Empty
    }
}

/// The messages that the reducer consumes.
#[derive(Debug, PartialEq)]
pub enum Msg {
    /// Wait for that many more idle turns.
    Nop(usize),
    Launch,
    AppClose,
    Connected,
    Disconnected,
    ChangeFocus,
    UpdateState(State),
    Input(Id, String),
    Submit,
    UpdateProviderStatus,
    FetchServers,
    Info(String),
}

pub enum MsgView {
    Nop(usize),
    Launch,
    AppClose,
    Connected,
    Disconnected,
    ChangeFocus,
    UpdateState(StateView),
    Input(Id, Seq<char>),
    Submit,
    UpdateProviderStatus,
    FetchServers,
    Info(Seq<char>),
}

impl View for Msg {
    type V = MsgView;

    open spec fn view(&self) -> MsgView {
        match self {
            Msg::Nop(turns) => MsgView::Nop(*turns),
            Msg::Launch => MsgView::Launch,
            Msg::AppClose => MsgView::AppClose,
            Msg::Connected => MsgView::Connected,
            Msg::Disconnected => MsgView::Disconnected,
            Msg::ChangeFocus => MsgView::ChangeFocus,
            Msg::UpdateState(state) => MsgView::UpdateState(state@),
            Msg::Input(id, text) => MsgView::Input(*id, text@),
            Msg::Submit => MsgView::Submit,
            Msg::UpdateProviderStatus => MsgView::UpdateProviderStatus,
            Msg::FetchServers => MsgView::FetchServers,
            Msg::Info(text) => MsgView::Info(text@),
        }
    }
}

/// The view of an optional message.
pub open spec fn msg_of(msg: Option<Msg>) -> Option<MsgView> {
    match msg {
        Some(m) => Some(m@),
        None => None,
    }
}

/// What the reducer asks of the screen controller.
#[derive(Debug, PartialEq)]
pub enum InterfaceMsg {
    Connected,
    Disconnected,
    SelectedServer(ServerHandle),
}

pub enum InterfaceMsgView {
    Connected,
    Disconnected,
    SelectedServer(ServerHandleView),
}

impl View for InterfaceMsg {
    type V = InterfaceMsgView;

    open spec fn view(&self) -> InterfaceMsgView {
        match self {
            InterfaceMsg::Connected => InterfaceMsgView::Connected,
            InterfaceMsg::Disconnected => InterfaceMsgView::Disconnected,
            InterfaceMsg::SelectedServer(server) => InterfaceMsgView::SelectedServer(server@),
        }
    }
}

/// The kinds of event that the task queue hands to the interface.
#[derive(Debug, Clone, Copy, PartialEq, Eq, Structural)]
pub enum EventKind {
    ProviderStatus,
    ServerListStatus,
    Error,
    Refresh,
    Empty,
}

/// What a finished task tells the interface.
#[derive(Debug, Clone)]
pub enum UserEvent {
    ProviderStatus(ProviderStatus),
    ServerListStatus(ServerListStatus),
    Error(String),
    /// Something changed at the provider: its summary is out of date.
    Refresh,
    Empty,
}

pub enum UserEventView {
    ProviderStatus(ProviderStatusView),
    ServerListStatus(Seq<ServerHandleView>),
    Error(Seq<char>),
    Refresh,
    Empty,
}

impl View for UserEvent {
    type V = UserEventView;

    open spec fn view(&self) -> UserEventView {
        match self {
            UserEvent::ProviderStatus(status) => UserEventView::ProviderStatus(status@),
            UserEvent::ServerListStatus(list) => UserEventView::ServerListStatus(list@),
            UserEvent::Error(message) => UserEventView::Error(message@),
            UserEvent::Refresh => UserEventView::Refresh,
            UserEvent::Empty => UserEventView::Empty,
        }
    }
}

impl UserEventView {
    pub open spec fn kind(self) -> EventKind {
        match self {
            UserEventView::ProviderStatus(_) => EventKind::ProviderStatus,
            UserEventView::ServerListStatus(_) => EventKind::ServerListStatus,
            UserEventView::Error(_) => EventKind::Error,
            UserEventView::Refresh => EventKind::Refresh,
            UserEventView::Empty => EventKind::Empty,
        }
    }
}

impl UserEvent {
    /// The event's kind: its variant without what it carries.
    pub fn kind(&self) -> (kind: EventKind)
        ensures
            kind == self@.kind(),
    {
        match self {
            UserEvent::ProviderStatus(_) => EventKind::ProviderStatus,
            UserEvent::ServerListStatus(_) => EventKind::ServerListStatus,
            UserEvent::Error(_) => EventKind::Error,
            UserEvent::Refresh => EventKind::Refresh,
            UserEvent::Empty => EventKind::Empty,
        }
    }

    pub fn copy(&self) -> (twin: Self)
        ensures
            twin@ == self@,
    {
        match self {
            UserEvent::ProviderStatus(status) => UserEvent::ProviderStatus(status.copy()),
            UserEvent::ServerListStatus(list) => UserEvent::ServerListStatus(
                ServerListStatus::new(copy_handles(&list.servers)),
            ),
            UserEvent::Error(message) => UserEvent::Error(message.clone()),
            UserEvent::Refresh => UserEvent::Refresh,
            UserEvent::Empty => UserEvent::Empty,
        }
    }
}

/// Two events are equal when they are of one kind, whatever they carry: a
/// subscriber asks whether an event of a kind occurred.
impl PartialEq for UserEvent {
    fn eq(&self, other: &Self) -> (same: bool) {
        self.kind() == other.kind()
    }
}

impl vstd::std_specs::cmp::PartialEqSpecImpl for UserEvent {
    open spec fn obeys_eq_spec() -> bool {
        true
    }

    open spec fn eq_spec(&self, other: &Self) -> bool {
        self@.kind() == other@.kind()
    }
}

impl Eq for UserEvent {

}

/// Events of one kind are equal in order; events of two kinds have none.
impl PartialOrd for UserEvent {
    fn partial_cmp(&self, other: &Self) -> (order: Option<std::cmp::Ordering>) {
        if self.kind() == other.kind() {
            Some(std::cmp::Ordering::Equal)
        } else {
            None
        }
    }
}

impl vstd::std_specs::cmp::PartialOrdSpecImpl for UserEvent {
    open spec fn obeys_partial_cmp_spec() -> bool {
        true
    }

    open spec fn partial_cmp_spec(&self, other: &Self) -> Option<std::cmp::Ordering> {
        if self@.kind() == other@.kind() {
            Some(std::cmp::Ordering::Equal)
        } else {
            None
        }
    }
}

/// The views of a list of events, in order.
pub open spec fn events_view(events: Seq<UserEvent>) -> Seq<UserEventView> {
    Seq::new(events.len(), |i: int| events[i]@)
}

/// Whether two lists of events hold an event of one kind.
pub open spec fn share_a_kind(ours: Seq<UserEventView>, theirs: Seq<UserEventView>) -> bool {
    exists|i: int, j: int|
        0 <= i < ours.len() && 0 <= j < theirs.len() && #[trigger] ours[i].kind()
            == #[trigger] theirs[j].kind()
}

/// The batch of events that one poll of the task queue hands over.
#[derive(Debug, Clone, PartialOrd)]
pub struct UserEventIter {
    pub events: Vec<UserEvent>,
}

impl View for UserEventIter {
    type V = Seq<UserEventView>;

    open spec fn view(&self) -> Seq<UserEventView> {
        events_view(self.events@)
    }
}

impl UserEventIter {
    pub fn new(events: Vec<UserEvent>) -> (made: Self)
        ensures
            made.events == events,
    {
        Self { events }
    }

    /// Whether the batch holds an event of that kind.
    pub fn holds(&self, kind: EventKind) -> (found: bool)
        ensures
            found == exists|i: int| 0 <= i < self@.len() && #[trigger] self@[i].kind() == kind,
    {
        let mut i: usize = 0;
        while i < self.events.len()
            invariant
                i <= self.events.len(),
                forall|j: int| 0 <= j < i ==> #[trigger] self@[j].kind() != kind,
            decreases self.events.len() - i,
        {
            if self.events[i].kind() == kind {
                assert(self@[i as int].kind() == kind);
                return true;
            }
            i += 1;
        }
        false
    }
}

impl Default for UserEventIter {
    fn default() -> (made: Self)
        ensures
            made@.len() == 0,
    {
        Self { events: Vec::new() }
    }
}

/// Two batches are equal when they share an event of one kind.
impl PartialEq for UserEventIter {
    fn eq(&self, other: &Self) -> (same: bool) {
        let mut j: usize = 0;
        while j < other.events.len()
            invariant
                j <= other.events.len(),
                forall|i: int, k: int|
                    0 <= i < self@.len() && 0 <= k < j ==> #[trigger] self@[i].kind()
                        != #[trigger] other@[k].kind(),
            decreases other.events.len() - j,
        {
            if self.holds(other.events[j].kind()) {
                assert(other@[j as int].kind() == other.events[j as int]@.kind());
                return true;
            }
            j += 1;
        }
        false
    }
}

impl vstd::std_specs::cmp::PartialEqSpecImpl for UserEventIter {
    open spec fn obeys_eq_spec() -> bool {
        true
    }

    open spec fn eq_spec(&self, other: &Self) -> bool {
        share_a_kind(self@, other@)
    }
}

impl Eq for UserEventIter {

}

} // verus!
