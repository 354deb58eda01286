use carton::components::container::{Header, Preview};
use carton::components::input::TextInput;
use carton::components::label::TextLabel;
use carton::components::list::{key_command, ServerList};
use carton::components::paragraph;
use carton::components::paragraph::PreviewDataTypes;
use carton::components::phantom::PhantomHandler;
use carton::components::table::ServerListConnected;
use carton::components::{plain_span, span, Cmd, Direction, Event, Position, Span, Tone};
use carton::app::interface::Command;
use carton::constants::{
    AuthPlatform, Components, Id, Key, Msg, ProviderStatus, Server, ServerHandle,
    ServerListStatus, State, Sub, UserEvent, UserEventIter,
};
use tuirealm::props::TextSpan;

fn batch(events: Vec<UserEvent>) -> Event {
    Event::User(UserEventIter::new(events))
}

fn status(text: &str, servers: usize) -> ProviderStatus {
    ProviderStatus {
        name: "Hetzner".to_string(),
        status: text.to_string(),
        servers,
        primary_ips: 0,
        firewalls: 2,
        load_balancers: 0,
    }
}

fn a_server(name: &str, running: bool, ip: Option<&str>) -> Server {
    Server {
        name: name.to_string(),
        running,
        status: "Running".to_string(),
        ipv4: ip.map(|text| text.to_string()),
        created: "2024-03-03".to_string(),
        datacenter: "fsn1-dc14".to_string(),
        image: Some("fedora-41".to_string()),
        labels: "{}".to_string(),
        ingoing_traffic: Some(2048),
        outgoing_traffic: Some(-1),
        primary_disk_size: 40,
        server_type: "cx22".to_string(),
    }
}

fn handle(name: &str) -> ServerHandle {
    ServerHandle::Hetzner(Box::new(a_server(name, true, Some("10.0.0.9"))))
}

fn row(cells: [&str; 4]) -> Vec<TextSpan> {
    cells.iter().map(|cell| TextSpan::new(cell)).collect()
}

fn text(line: &[Span]) -> String {
    line.iter().map(|piece| piece.text.as_str()).collect()
}

#[test]
fn spans() {
    assert_eq!(plain_span("x"), Span { text: "x".to_string(), tone: Tone::Plain });
    assert_eq!(span("y".to_string(), Tone::Bold), Span { text: "y".to_string(), tone: Tone::Bold });
}

#[test]
fn header_shows_the_unknown_provider_first() {
    let header = Header::default();
    assert!(!header.launch);
    let lines = header.lines();
    assert_eq!(lines.len(), 3);
    assert_eq!(text(&lines[0]), " Provider: Unknown, Status: Disconnected");
    assert_eq!(lines[0][1].tone, Tone::Bold);
    assert_eq!(lines[0][3].tone, Tone::Warn);
    assert_eq!(
        text(&lines[1]),
        " Servers: 0 | Primary IPs: 0 | Firewalls: 0 | Load Balancers: 0"
    );
    assert_eq!(lines[2], vec![plain_span("Press ESC to exit.")]);
}

#[test]
fn header_colours_what_is_well() {
    let mut header = Header::default();
    header.update_status(status("Connected", 12));
    let lines = header.lines();
    assert_eq!(lines[0][3], Span { text: "Connected".to_string(), tone: Tone::Good });
    assert_eq!(
        lines[1],
        vec![
            plain_span(" Servers: "),
            span("12".to_string(), Tone::Good),
            plain_span(" | Primary IPs: "),
            span("0".to_string(), Tone::Warn),
            plain_span(" | Firewalls: "),
            span("2".to_string(), Tone::Good),
            plain_span(" | Load Balancers: "),
            span("0".to_string(), Tone::Warn),
        ]
    );
}

#[test]
fn header_answers_a_batch_with_its_last_word_on_the_provider() {
    let mut header = Header::default();
    let msg = header.on(&batch(vec![
        UserEvent::ProviderStatus(status("Disconnected, Error: x", 0)),
        UserEvent::ProviderStatus(status("Connected", 3)),
        UserEvent::Error("ignored".to_string()),
    ]));
    assert_eq!(msg, Some(Msg::Connected));
    assert_eq!(header.status, status("Connected", 3));
    let msg = header.on(&batch(vec![UserEvent::ProviderStatus(status("Disconnected", 0))]));
    assert_eq!(msg, Some(Msg::Disconnected));
    let msg = header.on(&batch(vec![
        UserEvent::ProviderStatus(status("Connected", 1)),
        UserEvent::Refresh,
    ]));
    assert_eq!(msg, Some(Msg::UpdateProviderStatus));
    assert_eq!(header.status, status("Connected", 1));
}

#[test]
fn header_answers_a_batch_without_news_with_an_idle_message() {
    let mut header = Header::default();
    assert_eq!(header.on(&batch(vec![])), Some(Msg::Nop(0)));
    assert_eq!(
        header.on(&batch(vec![UserEvent::Empty, UserEvent::Error("e".to_string())])),
        Some(Msg::Nop(0))
    );
    assert_eq!(header.status, ProviderStatus::default());
}

#[test]
fn header_launches_once() {
    let mut header = Header::default();
    assert_eq!(header.on(&Event::Tick), None);
    header.launch = true;
    assert_eq!(header.on(&batch(vec![])), Some(Msg::Nop(0)));
    assert!(header.launch);
    assert_eq!(header.on(&Event::Keyboard(Key::Down)), Some(Msg::Launch));
    assert!(!header.launch);
    assert_eq!(header.on(&Event::Tick), None);
}

#[test]
fn preview_of_a_server_has_ten_lines() {
    let detail = handle("web").to_preview().expect("a server has a detail");
    let preview = Preview::new(detail);
    let lines = preview.lines();
    let shown: Vec<String> = lines.iter().map(|line| text(line)).collect();
    assert_eq!(
        shown,
        vec![
            " web: ",
            "   Status: Running",
            "   Provider: Hetzner",
            "   Created On: 2024-03-03",
            "   Datacenter: fsn1-dc14",
            "   Image: fedora-41",
            "   Tags: {}",
            "   Traffic: 2048 B in, -1 B out",
            "   Disk Size: 40 GB",
            "   Server Type: cx22",
        ]
    );
    assert_eq!(preview.on(&Event::Keyboard(Key::Esc)), None);
}

#[test]
fn the_empty_preview_has_one_empty_line() {
    let preview = Preview::default();
    assert_eq!(preview.lines(), vec![Vec::<Span>::new()]);
}

#[test]
fn label_shows_the_last_error() {
    let mut label = TextLabel::default();
    assert_eq!(label.text, "Waiting for a Msg...");
    assert_eq!(label.on(&Event::Tick), None);
    assert_eq!(label.text, "Waiting for a Msg...");
    let msg = label.on(&batch(vec![
        UserEvent::Error("first".to_string()),
        UserEvent::Empty,
        UserEvent::Error("second".to_string()),
        UserEvent::Refresh,
    ]));
    assert_eq!(msg, None);
    assert_eq!(label.text, "second");
    label.on(&batch(vec![UserEvent::Empty]));
    assert_eq!(label.text, "second");
}

#[test]
fn phantom_listens_for_escape_and_tab() {
    let phantom = PhantomHandler::default();
    assert_eq!(phantom.on(&Event::Keyboard(Key::Esc)), Some(Msg::AppClose));
    assert_eq!(phantom.on(&Event::Keyboard(Key::Tab)), Some(Msg::ChangeFocus));
    assert_eq!(phantom.on(&Event::Keyboard(Key::Char('q'))), None);
    assert_eq!(phantom.on(&Event::Tick), None);
    assert_eq!(
        PhantomHandler::mount(),
        Command::Mount(
            Id::Phantom,
            Components::Phantom,
            vec![Sub::Keyboard(Key::Esc), Sub::Keyboard(Key::Tab)]
        )
    );
}

#[test]
fn list_keys() {
    assert_eq!(key_command(&Event::Keyboard(Key::Down)), Cmd::Move(Direction::Down));
    assert_eq!(key_command(&Event::Keyboard(Key::Up)), Cmd::Move(Direction::Up));
    assert_eq!(key_command(&Event::Keyboard(Key::PageDown)), Cmd::Scroll(Direction::Down));
    assert_eq!(key_command(&Event::Keyboard(Key::PageUp)), Cmd::Scroll(Direction::Up));
    assert_eq!(key_command(&Event::Keyboard(Key::Home)), Cmd::GoTo(Position::Begin));
    assert_eq!(key_command(&Event::Keyboard(Key::End)), Cmd::GoTo(Position::End));
    assert_eq!(key_command(&Event::Keyboard(Key::Left)), Cmd::Idle);
    assert_eq!(key_command(&Event::Tick), Cmd::Idle);
    let list = ServerList::default();
    assert_eq!(list.on(&Event::Keyboard(Key::Up)), (Cmd::Move(Direction::Up), Some(Msg::Nop(0))));
    assert_eq!(list.on(&Event::Other), (Cmd::Idle, Some(Msg::Nop(0))));
}

#[test]
fn input_keys() {
    let input = TextInput::new(Id::TextInput1);
    assert_eq!(input.command(&Event::Keyboard(Key::Left)), Cmd::Move(Direction::Left));
    assert_eq!(input.command(&Event::Keyboard(Key::Right)), Cmd::Move(Direction::Right));
    assert_eq!(input.command(&Event::Keyboard(Key::Home)), Cmd::GoTo(Position::Begin));
    assert_eq!(input.command(&Event::Keyboard(Key::End)), Cmd::GoTo(Position::End));
    assert_eq!(input.command(&Event::Keyboard(Key::Delete)), Cmd::Cancel);
    assert_eq!(input.command(&Event::Keyboard(Key::Backspace)), Cmd::Delete);
    assert_eq!(input.command(&Event::Keyboard(Key::Char('x'))), Cmd::Type('x'));
    assert_eq!(input.command(&Event::Keyboard(Key::Up)), Cmd::Idle);
    assert_eq!(input.command(&Event::Keyboard(Key::Other)), Cmd::Idle);
    assert_eq!(input.command(&Event::Tick), Cmd::Idle);
}

#[test]
fn input_tells_of_a_changed_text() {
    let input = TextInput::new(Id::TextInput3);
    assert_eq!(
        input.on(Some("fedora".to_string())),
        Some(Msg::Input(Id::TextInput3, "fedora".to_string()))
    );
    assert_eq!(input.on(None), None);
    assert_eq!(TextInput::default().on(None), None);
    assert_eq!(TextInput::default().id, None);
}

#[test]
fn input_reads_a_focus_request() {
    let input = TextInput::new(Id::TextInput1);
    assert_eq!(input.perform("focus:TextInput1"), Some(true));
    assert_eq!(input.perform("focus:TextInput2"), Some(false));
    assert_eq!(input.perform("focus:TextInput1:more"), Some(true));
    assert_eq!(input.perform("focus:TextInput1more"), Some(false));
    assert_eq!(input.perform("focus:"), Some(false));
    assert_eq!(input.perform("blur:TextInput1"), None);
    assert_eq!(input.perform(":focus"), None);
    assert_eq!(TextInput::default().perform("focus:TextInput1"), None);
}

#[test]
fn the_table_before_any_list() {
    let mut builder = ServerListConnected::table();
    assert_eq!(
        builder.build(),
        vec![
            row(["", "No servers detected", "", ""]),
            row(["+", "Create a new server", "", ""]),
            vec![],
        ]
    );
}

#[test]
fn the_table_of_a_list() {
    let mut table = ServerListConnected::default();
    assert!(table.servers.is_none());
    let servers = vec![
        ServerHandle::Hetzner(Box::new(a_server("web", true, Some("203.0.113.7")))),
        ServerHandle::Hetzner(Box::new(a_server("db", false, None))),
    ];
    let mut builder = table.update_status(ServerListStatus::new(servers.clone()));
    assert_eq!(
        builder.build(),
        vec![
            row(["1", "web", "Online", "203.0.113.7"]),
            row(["2", "db", "Offline", "Private"]),
            row(["+", "Create a new server", "", ""]),
            vec![],
        ]
    );
    assert_eq!(table.servers, Some(servers));
}

#[test]
fn the_table_of_an_empty_list() {
    let mut table = ServerListConnected::default();
    let mut builder = table.update_status(ServerListStatus::default());
    assert_eq!(builder.build(), vec![row(["+", "Create a new server", "", ""]), vec![]]);
    assert_eq!(table.servers, Some(vec![]));
}

#[test]
fn the_table_takes_the_last_list_of_a_batch() {
    let mut table = ServerListConnected::default();
    let (cmd, built) = table.command(batch(vec![
        UserEvent::ServerListStatus(ServerListStatus::new(vec![handle("old")])),
        UserEvent::Empty,
        UserEvent::ServerListStatus(ServerListStatus::new(vec![handle("new"), handle("newer")])),
    ]));
    assert_eq!(cmd, Cmd::Change);
    let mut builder = built.expect("the batch brought a list");
    let rows = builder.build();
    assert_eq!(rows.len(), 4);
    assert_eq!(rows[0], row(["1", "new", "Online", "10.0.0.9"]));
    assert_eq!(rows[1], row(["2", "newer", "Online", "10.0.0.9"]));
    assert_eq!(table.servers, Some(vec![handle("new"), handle("newer")]));
}

#[test]
fn the_table_keeps_its_list_through_a_batch_without_one() {
    let mut table = ServerListConnected::default();
    table.update_status(ServerListStatus::new(vec![handle("web")]));
    let (cmd, built) = table.command(batch(vec![UserEvent::Refresh]));
    assert_eq!(cmd, Cmd::Change);
    assert!(built.is_none());
    assert_eq!(table.servers, Some(vec![handle("web")]));
    let (cmd, built) = table.command(Event::Keyboard(Key::PageDown));
    assert_eq!(cmd, Cmd::Scroll(Direction::Down));
    assert!(built.is_none());
    let (cmd, _) = table.command(Event::Tick);
    assert_eq!(cmd, Cmd::Idle);
}

#[test]
fn the_table_tells_what_is_selected() {
    let mut table = ServerListConnected::default();
    assert_eq!(table.on(Cmd::Change, 0), Some(Msg::UpdateState(State::Empty)));
    assert_eq!(table.on(Cmd::Idle, 0), None);
    table.update_status(ServerListStatus::new(vec![handle("web"), handle("db")]));
    assert_eq!(
        table.on(Cmd::Move(Direction::Down), 1),
        Some(Msg::UpdateState(State::SelectedServer(handle("db"))))
    );
    assert_eq!(
        table.on(Cmd::Move(Direction::Down), 2),
        Some(Msg::UpdateState(State::SelectedServer(ServerHandle::Create)))
    );
    assert_eq!(
        table.on(Cmd::GoTo(Position::End), 7),
        Some(Msg::UpdateState(State::SelectedServer(ServerHandle::Create)))
    );
    assert_eq!(table.on(Cmd::Idle, 1), None);
}

#[test]
fn the_header_as_a_paragraph() {
    let mut shown = ProviderStatus::new(AuthPlatform::Hetzner);
    shown.servers = 3;
    shown.load_balancers = 10;
    assert_eq!(
        paragraph::Header::update_status(&shown),
        vec![
            "",
            " Provider: Hetzner, Status: Connected",
            "",
            " Servers: 3 | Primary IPs: 0 | Firewalls: 0 | Load Balancers: 10",
            "",
            "Press ESC to exit.",
        ]
    );
}

#[test]
fn the_preview_as_a_paragraph() {
    let mut preview = paragraph::Preview::new();
    assert_eq!(
        preview.update_text(),
        vec!["servers: 0", "name: Unknown", "region: /zone/Unknown", "image: /images/Unknown"]
    );
    preview.set(PreviewDataTypes::Servers, "4".to_string());
    preview.set(PreviewDataTypes::Name, "test-instance".to_string());
    preview.set(PreviewDataTypes::Region, "us-west-1".to_string());
    preview.set(PreviewDataTypes::Image, "ubuntu-20.04".to_string());
    assert_eq!(
        preview.update_text(),
        vec![
            "servers: 4",
            "name: test-instance",
            "region: /zone/us-west-1",
            "image: /images/ubuntu-20.04",
        ]
    );
    assert_eq!(preview.on(&Event::Keyboard(Key::Esc)), Some(Msg::AppClose));
    assert_eq!(preview.on(&Event::Keyboard(Key::Tab)), None);
}
