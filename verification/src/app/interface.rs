//! The screen controller: which widgets each screen holds, how focus moves
//! among them, and what the widget registry is told when something changes.
//!
//! The controller does not hold the registry. It is handed what was looked
//! up there and answers with the commands to carry out, in order.

use vstd::prelude::*;
use crate::constants::{
    Components, ComponentsView, EventKind, Id, InterfaceMsg, InterfaceMsgView, Key, Msg,
    MsgView, ServerHandle, ServerHandleView, Sub, msg_of,
};

verus! {

/// The screens. Exactly one is active at a time.
#[derive(Debug, Clone, Copy, PartialEq, Eq, Structural)]
pub enum Interface {
    /// The provider summary, the server list and the detail of a server.
    Status,
    /// The server list and the form for a new server.
    Create,
}

impl Default for Interface {
    fn default() -> (made: Self)
        ensures
            made == Interface::Status,
    {
        Interface::Status
    }
}

/// One thing that the widget registry is told to do.
#[derive(Debug, Clone, PartialEq, Eq)]
pub enum Command {
    /// Remove every widget, and with them the focus.
    UmountAll,
    /// Remove one widget.
    Umount(Id),
    /// Add a widget under an id, with what it asks to be told of.
    Mount(Id, Components, Vec<Sub>),
    /// Give focus to a widget.
    Active(Id),
    /// Set a widget's launch flag, which it answers once with `Msg::Launch`.
    Launch(Id),
    /// Show a text in the status label.
    Label(String),
    /// Draw the screen.
    Draw,
}

pub enum CommandView {
    UmountAll,
    Umount(Id),
    Mount(Id, ComponentsView, Seq<Sub>),
    Active(Id),
    Launch(Id),
    Label(Seq<char>),
    Draw,
}

impl View for Command {
    type V = CommandView;

    open spec fn view(&self) -> CommandView {
        match self {
            Command::UmountAll => CommandView::UmountAll,
            Command::Umount(id) => CommandView::Umount(*id),
            Command::Mount(id, component, subs) => CommandView::Mount(*id, component@, subs@),
            Command::Active(id) => CommandView::Active(*id),
            Command::Launch(id) => CommandView::Launch(*id),
            Command::Label(text) => CommandView::Label(text@),
            Command::Draw => CommandView::Draw,
        }
    }
}

/// The views of a list of commands, in order.
pub open spec fn commands_view(commands: Seq<Command>) -> Seq<CommandView> {
    Seq::new(commands.len(), |i: int| commands[i]@)
}

/// What was looked up in the widget registry before a message is handled.
#[derive(Debug, Clone)]
pub struct Seen {
    /// The widget that holds focus.
    pub focus: Option<Id>,
    /// The widgets that are mounted.
    pub mounted: Vec<Id>,
    /// The text of the form's name field, where it can be read.
    pub name: Option<String>,
    /// The text of the form's type field, where it can be read.
    pub kind: Option<String>,
    /// The text of the form's image field, where it can be read.
    pub image: Option<String>,
}

pub struct SeenView {
    pub focus: Option<Id>,
    pub mounted: Seq<Id>,
    pub name: Option<Seq<char>>,
    pub kind: Option<Seq<char>>,
    pub image: Option<Seq<char>>,
}

impl View for Seen {
    type V = SeenView;

    open spec fn view(&self) -> SeenView {
        SeenView {
            focus: self.focus,
            mounted: self.mounted@,
            name: crate::constants::text_of(self.name),
            kind: crate::constants::text_of(self.kind),
            image: crate::constants::text_of(self.image),
        }
    }
}

impl Seen {
    /// Whether a widget was seen mounted.
    pub fn holds(&self, id: Id) -> (found: bool)
        ensures
            found == self.mounted@.contains(id),
    {
        let mut i: usize = 0;
        while i < self.mounted.len()
            invariant
                i <= self.mounted.len(),
                forall|j: int| 0 <= j < i ==> self.mounted[j] != id,
            decreases self.mounted.len() - i,
        {
            if self.mounted[i] == id {
                return true;
            }
            i += 1;
        }
        false
    }
}

/// How much room a part of the screen takes.
#[derive(Debug, Clone, Copy, PartialEq, Eq, Structural)]
pub enum Constraint {
    /// That many lines.
    Length(u16),
    /// A share of what is left.
    Fill(u16),
}

/// How much of its row a widget takes.
#[derive(Debug, Clone, Copy, PartialEq, Eq, Structural)]
pub enum Part {
    /// All of it.
    Whole,
    /// The row is cut again from top to bottom: the part, counted from the
    /// top, and its height.
    Cut(usize, Constraint),
}

/// Where a widget is drawn. The screen is cut into rows from top to bottom;
/// a widget takes a whole row, or one part of a row that is cut again.
#[derive(Debug, Clone, Copy, PartialEq, Eq, Structural)]
pub struct Slot {
    pub id: Id,
    /// The row, counted from the top.
    pub row: usize,
    /// The height of that row.
    pub height: Constraint,
    pub part: Part,
}

/// What a widget of a kind asks to be told of.
pub open spec fn subs_of(component: ComponentsView) -> Seq<Sub> {
    match component {
        ComponentsView::Header => seq![
            Sub::User(EventKind::ProviderStatus),
            Sub::User(EventKind::Refresh),
        ],
        ComponentsView::ServerListConnected => seq![Sub::User(EventKind::ServerListStatus)],
        ComponentsView::TextLabel => seq![Sub::User(EventKind::Error)],
        ComponentsView::Phantom => seq![Sub::Keyboard(Key::Esc), Sub::Keyboard(Key::Tab)],
        _ => Seq::empty(),
    }
}

/// The command that mounts a widget with the subscriptions of its kind.
pub open spec fn mounting(id: Id, component: ComponentsView) -> CommandView {
    CommandView::Mount(id, component, subs_of(component))
}

/// The widgets that are mounted once a list of commands is carried out.
pub open spec fn mounted_after(before: Set<Id>, commands: Seq<CommandView>) -> Set<Id>
    decreases commands.len(),
{
    if commands.len() == 0 {
        before
    } else {
        let mounted = mounted_after(before, commands.drop_last());
        match commands.last() {
            CommandView::UmountAll => Set::empty(),
            CommandView::Umount(id) => mounted.remove(id),
            CommandView::Mount(id, _, _) => mounted.insert(id),
            _ => mounted,
        }
    }
}

/// Whether the registry can carry out a command: it mounts no id twice, and
/// it removes, focuses and writes to mounted widgets only.
pub open spec fn accepts(mounted: Set<Id>, command: CommandView) -> bool {
    match command {
        CommandView::Mount(id, _, _) => !mounted.contains(id),
        CommandView::Umount(id) | CommandView::Active(id) | CommandView::Launch(id) =>
            mounted.contains(id),
        CommandView::Label(_) => mounted.contains(Id::Label),
        CommandView::UmountAll | CommandView::Draw => true,
    }
}

/// Whether the registry can carry out each command of a list in its turn.
pub open spec fn accepted(before: Set<Id>, commands: Seq<CommandView>) -> bool
    decreases commands.len(),
{
    commands.len() == 0 || (accepted(before, commands.drop_last()) && accepts(
        mounted_after(before, commands.drop_last()),
        commands.last(),
    ))
}

/// The widget that holds focus once a list of commands is carried out, where
/// the list gives focus to one; none where it gives focus to none.
pub open spec fn focused_by(commands: Seq<CommandView>) -> Option<Id>
    decreases commands.len(),
{
    if commands.len() == 0 {
        None
    } else {
        match commands.last() {
            CommandView::Active(id) => Some(id),
            CommandView::UmountAll => None,
            _ => focused_by(commands.drop_last()),
        }
    }
}

impl Interface {
    /// The widgets of the screen, in the order in which they are mounted.
    pub open spec fn spec_widgets(self) -> Seq<Id> {
        match self {
            Interface::Status => seq![
                Id::Phantom,
                Id::Header,
                Id::ServerList,
                Id::Preview,
                Id::Label,
            ],
            Interface::Create => seq![
                Id::Phantom,
                Id::Header,
                Id::ServerList,
                Id::TextInput1,
                Id::TextInput2,
                Id::TextInput3,
                Id::Label,
            ],
        }
    }

    /// The focus ring of the screen: the order in which focus goes round.
    pub open spec fn spec_ring(self) -> Seq<Id> {
        match self {
            Interface::Status => seq![Id::Header, Id::ServerList, Id::Preview],
            Interface::Create => seq![
                Id::Header,
                Id::ServerList,
                Id::TextInput1,
                Id::TextInput2,
                Id::TextInput3,
            ],
        }
    }

    /// The widget that holds focus when the screen is entered.
    pub open spec fn spec_entry(self) -> Id {
        match self {
            Interface::Status => Id::Header,
            Interface::Create => Id::TextInput1,
        }
    }

    /// The widget that takes focus after `id`: its successor in the ring,
    /// the first of the ring after the last, and the first of the ring for
    /// an id that the ring does not hold.
    pub open spec fn next_focus(self, id: Id) -> Id {
        let ring = self.spec_ring();
        if ring.contains(id) {
            ring[(ring.index_of(id) + 1) % (ring.len() as int)]
        } else {
            ring[0]
        }
    }

    /// The widget that holds focus after focus has moved on `turns` times.
    pub open spec fn focus_after(self, id: Id, turns: nat) -> Id
        decreases turns,
    {
        if turns == 0 {
            id
        } else {
            self.next_focus(self.focus_after(id, (turns - 1) as nat))
        }
    }

    /// The commands that enter the screen: everything is removed, the empty
    /// screen is drawn, the screen's widgets are mounted, its entry widget
    /// takes focus, and the header is told to ask for a provider summary.
    pub open spec fn spec_init(self) -> Seq<CommandView> {
        match self {
            Interface::Status => seq![
                CommandView::UmountAll,
                CommandView::Draw,
                mounting(Id::Phantom, ComponentsView::Phantom),
                mounting(Id::Header, ComponentsView::Header),
                mounting(Id::ServerList, ComponentsView::ServerListDisconnected),
                mounting(Id::Preview, ComponentsView::ServerPreview(None)),
                mounting(Id::Label, ComponentsView::TextLabel),
                CommandView::Active(Id::Header),
                CommandView::Launch(Id::Header),
            ],
            Interface::Create => seq![
                CommandView::UmountAll,
                CommandView::Draw,
                mounting(Id::Phantom, ComponentsView::Phantom),
                mounting(Id::Header, ComponentsView::Header),
                mounting(Id::ServerList, ComponentsView::ServerListDisconnected),
                mounting(Id::TextInput1, ComponentsView::TextInput(Id::TextInput1)),
                mounting(Id::TextInput2, ComponentsView::TextInput(Id::TextInput2)),
                mounting(Id::TextInput3, ComponentsView::TextInput(Id::TextInput3)),
                mounting(Id::Label, ComponentsView::TextLabel),
                CommandView::Active(Id::TextInput1),
                CommandView::Launch(Id::Header),
            ],
        }
    }

    /// Where each visible widget of the screen is drawn.
    pub open spec fn spec_view(self) -> Seq<Slot> {
        let header = Slot { id: Id::Header, row: 0, height: Constraint::Length(8), part: Part::Whole };
        let list = Slot {
            id: Id::ServerList,
            row: 1,
            height: Constraint::Length(12),
            part: Part::Whole,
        };
        let label = Slot { id: Id::Label, row: 3, height: Constraint::Length(3), part: Part::Whole };
        match self {
            Interface::Status => seq![
                header,
                list,
                Slot { id: Id::Preview, row: 2, height: Constraint::Fill(1), part: Part::Whole },
                label,
            ],
            Interface::Create => seq![
                header,
                list,
                Slot {
                    id: Id::TextInput1,
                    row: 2,
                    height: Constraint::Fill(1),
                    part: Part::Cut(0, Constraint::Length(3)),
                },
                Slot {
                    id: Id::TextInput2,
                    row: 2,
                    height: Constraint::Fill(1),
                    part: Part::Cut(1, Constraint::Length(3)),
                },
                Slot {
                    id: Id::TextInput3,
                    row: 2,
                    height: Constraint::Fill(1),
                    part: Part::Cut(2, Constraint::Length(3)),
                },
                label,
            ],
        }
    }

    /// The commands that replace one widget: it is removed where it was seen
    /// mounted, and mounted anew.
    pub open spec fn replacing(was_mounted: bool, id: Id, component: ComponentsView) -> Seq<
        CommandView,
    > {
        if was_mounted {
            seq![CommandView::Umount(id), mounting(id, component)]
        } else {
            seq![mounting(id, component)]
        }
    }

    /// What a request to the controller leads to: the commands, and the
    /// message that follows.
    pub open spec fn spec_perform(mounted: Seq<Id>, msg: InterfaceMsgView) -> (
        Seq<CommandView>,
        Option<MsgView>,
    ) {
        match msg {
            InterfaceMsgView::Connected => (
                Self::replacing(
                    mounted.contains(Id::ServerList),
                    Id::ServerList,
                    ComponentsView::ServerListConnected,
                ),
                Some(MsgView::FetchServers),
            ),
            InterfaceMsgView::Disconnected => (
                Self::replacing(
                    mounted.contains(Id::ServerList),
                    Id::ServerList,
                    ComponentsView::ServerListDisconnected,
                ),
                None,
            ),
            InterfaceMsgView::SelectedServer(handle) => (
                match handle {
                    ServerHandleView::Hetzner(server) => Self::replacing(
                        mounted.contains(Id::Preview),
                        Id::Preview,
                        ComponentsView::ServerPreview(Some(ServerHandle::spec_preview(server))),
                    ),
                    ServerHandleView::Create => Seq::empty(),
                },
                None,
            ),
        }
    }

    /// The widgets of the screen, in the order in which they are mounted.
    pub fn widgets(&self) -> (ids: Vec<Id>)
        ensures
            ids@ == self.spec_widgets(),
    {
        let ids = match self {
            Interface::Status => vec![
                Id::Phantom,
                Id::Header,
                Id::ServerList,
                Id::Preview,
                Id::Label,
            ],
            Interface::Create => vec![
                Id::Phantom,
                Id::Header,
                Id::ServerList,
                Id::TextInput1,
                Id::TextInput2,
                Id::TextInput3,
                Id::Label,
            ],
        };
        assert(ids@ =~= self.spec_widgets());
        ids
    }

    /// The focus ring of the screen.
    pub fn ring(&self) -> (ids: Vec<Id>)
        ensures
            ids@ == self.spec_ring(),
    {
        let ids = match self {
            Interface::Status => vec![Id::Header, Id::ServerList, Id::Preview],
            Interface::Create => vec![
                Id::Header,
                Id::ServerList,
                Id::TextInput1,
                Id::TextInput2,
                Id::TextInput3,
            ],
        };
        assert(ids@ =~= self.spec_ring());
        ids
    }

    /// The command that mounts a widget under an id, with the subscriptions
    /// that a widget of its kind needs.
    pub fn mount(&self, id: Id, component: Components) -> (command: Command)
        ensures
            command@ == mounting(id, component@),
    {
        let subs: Vec<Sub> = match &component {
            Components::Header => vec![
                Sub::User(EventKind::ProviderStatus),
                Sub::User(EventKind::Refresh),
            ],
            Components::ServerListConnected => vec![Sub::User(EventKind::ServerListStatus)],
            Components::TextLabel => vec![Sub::User(EventKind::Error)],
            Components::Phantom => vec![Sub::Keyboard(Key::Esc), Sub::Keyboard(Key::Tab)],
            _ => Vec::new(),
        };
        assert(subs@ =~= subs_of(component@));
        Command::Mount(id, component, subs)
    }

    /// The commands that enter the screen.
    pub fn init(&self) -> (commands: Vec<Command>)
        ensures
            commands_view(commands@) == self.spec_init(),
    {
        let mut commands: Vec<Command> = Vec::new();
        commands.push(Command::UmountAll);
        commands.push(Command::Draw);
        commands.push(self.mount(Id::Phantom, Components::Phantom));
        commands.push(self.mount(Id::Header, Components::Header));
        commands.push(self.mount(Id::ServerList, Components::ServerListDisconnected));
        match self {
            Interface::Status => {
                commands.push(self.mount(Id::Preview, Components::ServerPreview(None)));
                commands.push(self.mount(Id::Label, Components::TextLabel));
                commands.push(Command::Active(Id::Header));
            },
            Interface::Create => {
                commands.push(self.mount(Id::TextInput1, Components::TextInput(Id::TextInput1)));
                commands.push(self.mount(Id::TextInput2, Components::TextInput(Id::TextInput2)));
                commands.push(self.mount(Id::TextInput3, Components::TextInput(Id::TextInput3)));
                commands.push(self.mount(Id::Label, Components::TextLabel));
                commands.push(Command::Active(Id::TextInput1));
            },
        }
        commands.push(Command::Launch(Id::Header));
        assert(commands_view(commands@) =~= self.spec_init());
        commands
    }

    /// Where each visible widget of the screen is drawn.
    pub fn view(&self) -> (slots: Vec<Slot>)
        ensures
            slots@ == self.spec_view(),
    {
        let header = Slot { id: Id::Header, row: 0, height: Constraint::Length(8), part: Part::Whole };
        let list = Slot {
            id: Id::ServerList,
            row: 1,
            height: Constraint::Length(12),
            part: Part::Whole,
        };
        let label = Slot { id: Id::Label, row: 3, height: Constraint::Length(3), part: Part::Whole };
        let slots = match self {
            Interface::Status => vec![
                header,
                list,
                Slot { id: Id::Preview, row: 2, height: Constraint::Fill(1), part: Part::Whole },
                label,
            ],
            Interface::Create => vec![
                header,
                list,
                Slot {
                    id: Id::TextInput1,
                    row: 2,
                    height: Constraint::Fill(1),
                    part: Part::Cut(0, Constraint::Length(3)),
                },
                Slot {
                    id: Id::TextInput2,
                    row: 2,
                    height: Constraint::Fill(1),
                    part: Part::Cut(1, Constraint::Length(3)),
                },
                Slot {
                    id: Id::TextInput3,
                    row: 2,
                    height: Constraint::Fill(1),
                    part: Part::Cut(2, Constraint::Length(3)),
                },
                label,
            ],
        };
        assert(slots@ =~= self.spec_view());
        slots
    }

    /// The widget that takes focus after `id`.
    pub fn successor(&self, id: Id) -> (next: Id)
        ensures
            next == self.next_focus(id),
    {
        proof {
            let ring = self.spec_ring();
            match self {
                Interface::Status => {
                    assert(ring[0] == Id::Header && ring[1] == Id::ServerList && ring[2]
                        == Id::Preview);
                },
                Interface::Create => {
                    assert(ring[0] == Id::Header && ring[1] == Id::ServerList && ring[2]
                        == Id::TextInput1 && ring[3] == Id::TextInput2 && ring[4]
                        == Id::TextInput3);
                },
            }
        }
        match self {
            Interface::Status => match id {
                Id::Header => Id::ServerList,
                Id::ServerList => Id::Preview,
                Id::Preview => Id::Header,
                _ => Id::Header,
            },
            Interface::Create => match id {
                Id::Header => Id::ServerList,
                Id::ServerList => Id::TextInput1,
                Id::TextInput1 => Id::TextInput2,
                Id::TextInput2 => Id::TextInput3,
                Id::TextInput3 => Id::Header,
                _ => Id::Header,
            },
        }
    }

    /// Moves focus on. Where a widget holds focus, its successor in the
    /// screen's ring takes it; where none does, nothing is done. No message
    /// follows.
    pub fn change_focus(&self, focus: Option<Id>) -> (done: (Vec<Command>, Option<Msg>))
        ensures
            done.1 is None,
            commands_view(done.0@) == match focus {
                Some(id) => seq![CommandView::Active(self.next_focus(id))],
                None => Seq::empty(),
            },
    {
        let mut commands: Vec<Command> = Vec::new();
        match focus {
            Some(id) => {
                commands.push(Command::Active(self.successor(id)));
                assert(commands_view(commands@) =~= seq![
                    CommandView::Active(self.next_focus(id)),
                ]);
            },
            None => {
                assert(commands_view(commands@) =~= Seq::empty());
            },
        }
        (commands, None)
    }

    /// Carries out a request within the screen. A connected provider puts
    /// the server table in place of the list and asks for the servers; a
    /// disconnected one puts the placeholder there; a selected server puts
    /// its detail in place of the preview. The entry for a new server is
    /// never handed here: it leads to another screen.
    pub fn perform(&self, seen: &Seen, msg: InterfaceMsg) -> (done: (Vec<Command>, Option<Msg>))
        requires
            msg@ != InterfaceMsgView::SelectedServer(ServerHandleView::Create),
        ensures
            commands_view(done.0@) == Self::spec_perform(seen.mounted@, msg@).0,
            msg_of(done.1) == Self::spec_perform(seen.mounted@, msg@).1,
    {
        match msg {
            InterfaceMsg::Connected => (
                self.replace(
                    seen.holds(Id::ServerList),
                    Id::ServerList,
                    Components::ServerListConnected,
                ),
                Some(Msg::FetchServers),
            ),
            InterfaceMsg::Disconnected => (
                self.replace(
                    seen.holds(Id::ServerList),
                    Id::ServerList,
                    Components::ServerListDisconnected,
                ),
                None,
            ),
            InterfaceMsg::SelectedServer(server) => {
                let detail = server.to_preview();
                (
                    self.replace(
                        seen.holds(Id::Preview),
                        Id::Preview,
                        Components::ServerPreview(detail),
                    ),
                    None,
                )
            },
        }
    }

    fn replace(&self, was_mounted: bool, id: Id, component: Components)
        -> (commands: Vec<Command>)
        ensures
            commands_view(commands@) == Self::replacing(was_mounted, id, component@),
    {
        let mut commands: Vec<Command> = Vec::new();
        if was_mounted {
            commands.push(Command::Umount(id));
        }
        commands.push(self.mount(id, component));
        assert(commands_view(commands@) =~= Self::replacing(was_mounted, id, component@));
        commands
    }
}

/// The first commands of a list, cut one command short, are the first
/// commands but the last.
proof fn lemma_one_more_command(commands: Seq<CommandView>, upto: int)
    requires
        0 < upto <= commands.len(),
    ensures
        commands.take(upto).drop_last() == commands.take(upto - 1),
        commands.take(upto).last() == commands[upto - 1],
{
    assert(commands.take(upto).drop_last() =~= commands.take(upto - 1));
}

/// Carrying out two lists one after the other is carrying out the second
/// where the first left off.
pub proof fn lemma_commands_in_turn(
    before: Set<Id>,
    first: Seq<CommandView>,
    second: Seq<CommandView>,
)
    ensures
        mounted_after(before, first + second) == mounted_after(
            mounted_after(before, first),
            second,
        ),
        accepted(before, first + second) == (accepted(before, first) && accepted(
            mounted_after(before, first),
            second,
        )),
    decreases second.len(),
{
    if second.len() == 0 {
        assert(first + second =~= first);
    } else {
        assert((first + second).drop_last() =~= first + second.drop_last());
        assert((first + second).last() == second.last());
        lemma_commands_in_turn(before, first, second.drop_last());
    }
}

impl Interface {
    /// The ring names no widget twice, and only widgets of its screen.
    pub proof fn lemma_ring_is_a_cycle(self)
        ensures
            self.spec_ring().no_duplicates(),
            self.spec_ring().len() > 0,
            forall|i: int|
                0 <= i < self.spec_ring().len() ==> self.spec_widgets().contains(
                    #[trigger] self.spec_ring()[i],
                ),
            self.spec_widgets().no_duplicates(),
            self.spec_widgets().contains(self.spec_entry()),
    {
        let ring = self.spec_ring();
        let widgets = self.spec_widgets();
        match self {
            Interface::Status => {
                assert(widgets[1] == Id::Header && widgets[2] == Id::ServerList && widgets[3]
                    == Id::Preview);
            },
            Interface::Create => {
                assert(widgets[1] == Id::Header && widgets[2] == Id::ServerList && widgets[3]
                    == Id::TextInput1 && widgets[4] == Id::TextInput2 && widgets[5]
                    == Id::TextInput3);
            },
        }
    }

    /// The successor of each widget, written out.
    pub proof fn lemma_successors(self, id: Id)
        ensures
            self.next_focus(id) == match self {
                Interface::Status => match id {
                    Id::Header => Id::ServerList,
                    Id::ServerList => Id::Preview,
                    _ => Id::Header,
                },
                Interface::Create => match id {
                    Id::Header => Id::ServerList,
                    Id::ServerList => Id::TextInput1,
                    Id::TextInput1 => Id::TextInput2,
                    Id::TextInput2 => Id::TextInput3,
                    _ => Id::Header,
                },
            },
    {
        let ring = self.spec_ring();
        match self {
            Interface::Status => {
                assert(ring[0] == Id::Header && ring[1] == Id::ServerList && ring[2]
                    == Id::Preview);
            },
            Interface::Create => {
                assert(ring[0] == Id::Header && ring[1] == Id::ServerList && ring[2]
                    == Id::TextInput1 && ring[3] == Id::TextInput2 && ring[4]
                    == Id::TextInput3);
            },
        }
    }

    /// Focus goes round the ring: from a widget of the ring, moving focus on
    /// as many times as the ring is long leads back to that widget.
    pub proof fn lemma_focus_ring_closure(self, start: Id)
        requires
            self.spec_ring().contains(start),
        ensures
            self.focus_after(start, self.spec_ring().len()) == start,
    {
        reveal_with_fuel(Interface::focus_after, 6);
        self.lemma_successors(Id::Header);
        self.lemma_successors(Id::ServerList);
        self.lemma_successors(Id::Preview);
        self.lemma_successors(Id::TextInput1);
        self.lemma_successors(Id::TextInput2);
        self.lemma_successors(Id::TextInput3);
    }

    /// Focus never leaves the ring: whatever held focus, the widget that
    /// takes it is one of the ring.
    pub proof fn lemma_focus_stays_in_ring(self, id: Id)
        ensures
            self.spec_ring().contains(self.next_focus(id)),
    {
        let ring = self.spec_ring();
        if ring.contains(id) {
            let at = ring.index_of(id);
            let next = (at + 1) % (ring.len() as int);
            assert(0 <= next < ring.len());
            assert(ring[next] == self.next_focus(id));
        } else {
            assert(ring[0] == self.next_focus(id));
        }
    }

    /// Entering a screen leaves no trace of the screen before. Whatever was
    /// mounted, the registry can carry out every command of the entry, and
    /// afterwards exactly the widgets of the new screen are mounted and its
    /// entry widget holds focus.
    pub proof fn lemma_entry_is_complete(self, before: Set<Id>)
        ensures
            accepted(before, self.spec_init()),
            mounted_after(before, self.spec_init()) == self.spec_widgets().to_set(),
            focused_by(self.spec_init()) == Some(self.spec_entry()),
            self.spec_init()[0] == CommandView::UmountAll,
    {
        let commands = self.spec_init();
        let widgets = self.spec_widgets();
        assert(commands.take(commands.len() as int) =~= commands);
        assert(mounted_after(before, commands.take(0)) == before);
        assert(accepted(before, commands.take(0)));
        lemma_one_more_command(commands, 1);
        assert(mounted_after(before, commands.take(1)) =~= Set::empty());
        lemma_one_more_command(commands, 2);
        assert(mounted_after(before, commands.take(2)) =~= Set::empty());
        lemma_one_more_command(commands, 3);
        assert(mounted_after(before, commands.take(3)) =~= set![Id::Phantom]);
        lemma_one_more_command(commands, 4);
        assert(mounted_after(before, commands.take(4)) =~= set![Id::Phantom, Id::Header]);
        lemma_one_more_command(commands, 5);
        assert(mounted_after(before, commands.take(5)) =~= set![
            Id::Phantom,
            Id::Header,
            Id::ServerList,
        ]);
        lemma_one_more_command(commands, 6);
        lemma_one_more_command(commands, 7);
        lemma_one_more_command(commands, 8);
        lemma_one_more_command(commands, 9);
        reveal_with_fuel(focused_by, 3);
        match self {
            Interface::Status => {
                assert(mounted_after(before, commands.take(6)) =~= set![
                    Id::Phantom,
                    Id::Header,
                    Id::ServerList,
                    Id::Preview,
                ]);
                let all = set![Id::Phantom, Id::Header, Id::ServerList, Id::Preview, Id::Label];
                assert(mounted_after(before, commands.take(7)) =~= all);
                assert(mounted_after(before, commands.take(8)) =~= all);
                assert(mounted_after(before, commands.take(9)) =~= all);
                assert(widgets.to_set() =~= all) by {
                    assert(widgets[0] == Id::Phantom && widgets[1] == Id::Header && widgets[2]
                        == Id::ServerList && widgets[3] == Id::Preview && widgets[4]
                        == Id::Label);
                }
                assert(accepted(before, commands.take(1)));
                assert(accepted(before, commands.take(2)));
                assert(accepted(before, commands.take(3)));
                assert(accepted(before, commands.take(4)));
                assert(accepted(before, commands.take(5)));
                assert(accepted(before, commands.take(6)));
                assert(accepted(before, commands.take(7)));
                assert(accepted(before, commands.take(8)));
                assert(accepted(before, commands.take(9)));
            },
            Interface::Create => {
                lemma_one_more_command(commands, 10);
                lemma_one_more_command(commands, 11);
                assert(mounted_after(before, commands.take(6)) =~= set![
                    Id::Phantom,
                    Id::Header,
                    Id::ServerList,
                    Id::TextInput1,
                ]);
                assert(mounted_after(before, commands.take(7)) =~= set![
                    Id::Phantom,
                    Id::Header,
                    Id::ServerList,
                    Id::TextInput1,
                    Id::TextInput2,
                ]);
                assert(mounted_after(before, commands.take(8)) =~= set![
                    Id::Phantom,
                    Id::Header,
                    Id::ServerList,
                    Id::TextInput1,
                    Id::TextInput2,
                    Id::TextInput3,
                ]);
                let all = set![
                    Id::Phantom,
                    Id::Header,
                    Id::ServerList,
                    Id::TextInput1,
                    Id::TextInput2,
                    Id::TextInput3,
                    Id::Label,
                ];
                assert(mounted_after(before, commands.take(9)) =~= all);
                assert(mounted_after(before, commands.take(10)) =~= all);
                assert(mounted_after(before, commands.take(11)) =~= all);
                assert(widgets.to_set() =~= all) by {
                    assert(widgets[0] == Id::Phantom && widgets[1] == Id::Header && widgets[2]
                        == Id::ServerList && widgets[3] == Id::TextInput1 && widgets[4]
                        == Id::TextInput2 && widgets[5] == Id::TextInput3 && widgets[6]
                        == Id::Label);
                }
                assert(accepted(before, commands.take(1)));
                assert(accepted(before, commands.take(2)));
                assert(accepted(before, commands.take(3)));
                assert(accepted(before, commands.take(4)));
                assert(accepted(before, commands.take(5)));
                assert(accepted(before, commands.take(6)));
                assert(accepted(before, commands.take(7)));
                assert(accepted(before, commands.take(8)));
                assert(accepted(before, commands.take(9)));
                assert(accepted(before, commands.take(10)));
                assert(accepted(before, commands.take(11)));
            },
        }
    }
}

} // verus!
