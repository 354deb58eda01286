use carton::app::interface::{Command, Constraint, Interface, Part, Seen, Slot};
use carton::constants::{
    Components, EventKind, Id, InterfaceMsg, Key, Msg, Server, ServerHandle, Sub,
};

fn seen(focus: Option<Id>, mounted: Vec<Id>) -> Seen {
    Seen { focus, mounted, name: None, kind: None, image: None }
}

fn a_server(name: &str) -> Server {
    Server {
        name: name.to_string(),
        running: false,
        status: "Off".to_string(),
        ipv4: None,
        created: "2023-12-24".to_string(),
        datacenter: "hel1-dc2".to_string(),
        image: None,
        labels: "{}".to_string(),
        ingoing_traffic: None,
        outgoing_traffic: Some(10),
        primary_disk_size: 20,
        server_type: "cx11".to_string(),
    }
}

fn turn(screen: Interface, focus: Id) -> Id {
    let (commands, msg) = screen.change_focus(Some(focus));
    assert!(msg.is_none());
    match commands.as_slice() {
        [Command::Active(next)] => *next,
        other => panic!("unexpected commands {:?}", other),
    }
}

#[test]
fn the_first_screen_is_the_status_screen() {
    assert_eq!(Interface::default(), Interface::Status);
}

#[test]
fn entering_the_status_screen() {
    let header_subs = vec![Sub::User(EventKind::ProviderStatus), Sub::User(EventKind::Refresh)];
    assert_eq!(
        Interface::Status.init(),
        vec![
            Command::UmountAll,
            Command::Draw,
            Command::Mount(
                Id::Phantom,
                Components::Phantom,
                vec![Sub::Keyboard(Key::Esc), Sub::Keyboard(Key::Tab)]
            ),
            Command::Mount(Id::Header, Components::Header, header_subs),
            Command::Mount(Id::ServerList, Components::ServerListDisconnected, vec![]),
            Command::Mount(Id::Preview, Components::ServerPreview(None), vec![]),
            Command::Mount(Id::Label, Components::TextLabel, vec![Sub::User(EventKind::Error)]),
            Command::Active(Id::Header),
            Command::Launch(Id::Header),
        ]
    );
}

#[test]
fn entering_the_create_screen() {
    let commands = Interface::Create.init();
    assert_eq!(commands.len(), 11);
    assert_eq!(commands[0], Command::UmountAll);
    assert_eq!(commands[1], Command::Draw);
    assert_eq!(
        commands[5],
        Command::Mount(Id::TextInput1, Components::TextInput(Id::TextInput1), vec![])
    );
    assert_eq!(
        commands[6],
        Command::Mount(Id::TextInput2, Components::TextInput(Id::TextInput2), vec![])
    );
    assert_eq!(
        commands[7],
        Command::Mount(Id::TextInput3, Components::TextInput(Id::TextInput3), vec![])
    );
    assert_eq!(commands[9], Command::Active(Id::TextInput1));
    assert_eq!(commands[10], Command::Launch(Id::Header));
    let mounted: Vec<Id> = commands
        .iter()
        .filter_map(|command| match command {
            Command::Mount(id, _, _) => Some(*id),
            _ => None,
        })
        .collect();
    assert_eq!(mounted, Interface::Create.widgets());
    assert!(!mounted.contains(&Id::Preview));
}

#[test]
fn widgets_and_rings() {
    assert_eq!(
        Interface::Status.widgets(),
        vec![Id::Phantom, Id::Header, Id::ServerList, Id::Preview, Id::Label]
    );
    assert_eq!(Interface::Status.ring(), vec![Id::Header, Id::ServerList, Id::Preview]);
    assert_eq!(
        Interface::Create.ring(),
        vec![Id::Header, Id::ServerList, Id::TextInput1, Id::TextInput2, Id::TextInput3]
    );
    for screen in [Interface::Status, Interface::Create] {
        for id in screen.ring() {
            assert!(screen.widgets().contains(&id));
        }
    }
}

#[test]
fn mounting_subscribes_by_kind() {
    let screen = Interface::Status;
    assert_eq!(
        screen.mount(Id::ServerList, Components::ServerListConnected),
        Command::Mount(
            Id::ServerList,
            Components::ServerListConnected,
            vec![Sub::User(EventKind::ServerListStatus)]
        )
    );
    assert_eq!(
        screen.mount(Id::TextInput1, Components::CreateServerForm),
        Command::Mount(Id::TextInput1, Components::CreateServerForm, vec![])
    );
}

#[test]
fn focus_ring_closure() {
    for screen in [Interface::Status, Interface::Create] {
        let ring = screen.ring();
        for start in ring.iter() {
            let mut focus = *start;
            for _ in 0..ring.len() {
                focus = turn(screen, focus);
            }
            assert_eq!(focus, *start);
        }
    }
}

#[test]
fn focus_moves_to_the_successor() {
    assert_eq!(turn(Interface::Status, Id::Header), Id::ServerList);
    assert_eq!(turn(Interface::Status, Id::ServerList), Id::Preview);
    assert_eq!(turn(Interface::Status, Id::Preview), Id::Header);
    assert_eq!(turn(Interface::Create, Id::ServerList), Id::TextInput1);
    assert_eq!(turn(Interface::Create, Id::TextInput1), Id::TextInput2);
    assert_eq!(turn(Interface::Create, Id::TextInput2), Id::TextInput3);
    assert_eq!(turn(Interface::Create, Id::TextInput3), Id::Header);
    assert_eq!(Interface::Create.successor(Id::Header), Id::ServerList);
}

#[test]
fn focus_outside_the_ring_goes_to_its_first_entry() {
    assert_eq!(turn(Interface::Status, Id::Label), Id::Header);
    assert_eq!(turn(Interface::Status, Id::Phantom), Id::Header);
    assert_eq!(turn(Interface::Status, Id::TextInput2), Id::Header);
    assert_eq!(turn(Interface::Create, Id::Preview), Id::Header);
}

#[test]
fn without_focus_nothing_moves() {
    let (commands, msg) = Interface::Status.change_focus(None);
    assert!(commands.is_empty());
    assert!(msg.is_none());
}

#[test]
fn a_connected_provider_brings_the_table() {
    let mounted = seen(Some(Id::Header), Interface::Status.widgets());
    let (commands, msg) = Interface::Status.perform(&mounted, InterfaceMsg::Connected);
    assert_eq!(
        commands,
        vec![
            Command::Umount(Id::ServerList),
            Command::Mount(
                Id::ServerList,
                Components::ServerListConnected,
                vec![Sub::User(EventKind::ServerListStatus)]
            ),
        ]
    );
    assert_eq!(msg, Some(Msg::FetchServers));
}

#[test]
fn a_disconnected_provider_brings_the_placeholder() {
    let nothing = seen(None, vec![]);
    let (commands, msg) = Interface::Create.perform(&nothing, InterfaceMsg::Disconnected);
    assert_eq!(
        commands,
        vec![Command::Mount(Id::ServerList, Components::ServerListDisconnected, vec![])]
    );
    assert_eq!(msg, None);
}

#[test]
fn a_selected_server_replaces_the_preview() {
    let handle = ServerHandle::Hetzner(Box::new(a_server("db")));
    let detail = handle.to_preview();
    let mounted = seen(Some(Id::ServerList), Interface::Status.widgets());
    let (commands, msg) = Interface::Status.perform(&mounted, InterfaceMsg::SelectedServer(handle));
    assert_eq!(
        commands,
        vec![
            Command::Umount(Id::Preview),
            Command::Mount(Id::Preview, Components::ServerPreview(detail), vec![]),
        ]
    );
    assert_eq!(msg, None);
}

#[test]
fn seen_widgets() {
    let mounted = seen(None, vec![Id::Header, Id::Label]);
    assert!(mounted.holds(Id::Header));
    assert!(mounted.holds(Id::Label));
    assert!(!mounted.holds(Id::Preview));
}

#[test]
fn the_status_screen_is_cut_into_four_rows() {
    assert_eq!(
        Interface::Status.view(),
        vec![
            Slot { id: Id::Header, row: 0, height: Constraint::Length(8), part: Part::Whole },
            Slot { id: Id::ServerList, row: 1, height: Constraint::Length(12), part: Part::Whole },
            Slot { id: Id::Preview, row: 2, height: Constraint::Fill(1), part: Part::Whole },
            Slot { id: Id::Label, row: 3, height: Constraint::Length(3), part: Part::Whole },
        ]
    );
}

#[test]
fn the_form_takes_the_third_row_in_three_parts() {
    let slots = Interface::Create.view();
    assert_eq!(slots.len(), 6);
    assert_eq!(
        slots[2],
        Slot {
            id: Id::TextInput1,
            row: 2,
            height: Constraint::Fill(1),
            part: Part::Cut(0, Constraint::Length(3)),
        }
    );
    assert_eq!(slots[3].part, Part::Cut(1, Constraint::Length(3)));
    assert_eq!(slots[4].part, Part::Cut(2, Constraint::Length(3)));
    assert_eq!(slots[4].id, Id::TextInput3);
    assert_eq!(slots[5].id, Id::Label);
}
