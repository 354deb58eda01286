//! The reducer: every message is matched to its effect on the model, to the
//! commands for the widget registry, and to at most one message that follows.

use vstd::prelude::*;
use crate::app::interface::{
    accepted, commands_view, focused_by, lemma_commands_in_turn, mounted_after, Command,
    CommandView, Interface, Seen, SeenView, Slot,
};
use crate::app::tasks::{Task, TaskHandler, TaskHandlerView, TaskView, Tasks, TasksView};
use crate::constants::{
    msg_of, Args, Config, Id, InterfaceMsg, InterfaceMsgView, Msg, MsgView, ServerHandle,
    ServerHandleView, State, StateView,
};
use crate::text::{invalid, is_invalid, join, quote, quoted};

verus! {

/// What the dashboard knows apart from its widgets.
#[derive(Debug, Clone)]
pub struct Model {
    /// Set once the operator closes the dashboard; the loop then ends.
    pub quit: bool,
    /// Set when the screen is to be drawn again.
    pub redraw: bool,
    pub tasks: TaskHandler,
    /// The active screen.
    pub interface: Interface,
}

pub struct ModelView {
    pub quit: bool,
    pub redraw: bool,
    pub tasks: TaskHandlerView,
    pub interface: Interface,
}

impl Model {
    /// The model as contracts speak of it.
    pub open spec fn state(&self) -> ModelView {
        ModelView {
            quit: self.quit,
            redraw: self.redraw,
            tasks: self.tasks@,
            interface: self.interface,
        }
    }
}

/// What handling one message leads to.
pub struct Outcome {
    pub model: ModelView,
    /// The message to handle next, before anything else is read.
    pub follow_up: Option<MsgView>,
    /// What the widget registry is told, in order.
    pub commands: Seq<CommandView>,
}

/// A state in words, for the status label.
pub open spec fn describe(state: StateView) -> Seq<char> {
    match state {
        StateView::SelectedServer(ServerHandleView::Hetzner(server)) => "SelectedServer(Hetzner("@
            + server.name + "))"@,
        StateView::SelectedServer(ServerHandleView::Create) => "SelectedServer(Create)"@,
        StateView::Empty => "Empty"@,
    }
}

/// The label's notice of a changed field.
pub open spec fn input_notice(id: Id, shown: Seq<char>) -> Seq<char> {
    "Input from "@ + id.spec_name() + ": "@ + shown
}

/// The label's notice of a new server, followed by one notice for each
/// field that is invalid: the name, then the type, then the image.
pub open spec fn form_notices(name: Seq<char>, kind: Seq<char>, image: Seq<char>) -> Seq<
    CommandView,
> {
    seq![
        CommandView::Label("Creating server: "@ + name + ", "@ + kind + ", "@ + image),
    ] + (if invalid(name) {
        seq![CommandView::Label("Name invalid"@)]
    } else {
        Seq::empty()
    }) + (if invalid(kind) {
        seq![CommandView::Label("Type invalid"@)]
    } else {
        Seq::empty()
    }) + (if invalid(image) {
        seq![CommandView::Label("Image invalid"@)]
    } else {
        Seq::empty()
    })
}

impl ModelView {
    /// The model with one more request in its task queue.
    pub open spec fn submit(self, request: TasksView) -> ModelView {
        ModelView { tasks: self.tasks.submit(TaskView { request, response: None }), ..self }
    }

    /// The outcome that changes nothing but the label.
    pub open spec fn says(self, text: Seq<char>, follow_up: Option<MsgView>) -> Outcome {
        Outcome { model: self, follow_up, commands: seq![CommandView::Label(text)] }
    }

    /// The screen that an entry of the server list belongs to.
    pub open spec fn screen_of(handle: ServerHandleView) -> Interface {
        match handle {
            ServerHandleView::Create => Interface::Create,
            ServerHandleView::Hetzner(_) => Interface::Status,
        }
    }

    /// What a selected entry leads to, after the label has told of it. An
    /// entry of the active screen leaves the screen as it is; an entry of
    /// the other screen enters that screen. A server then has its detail
    /// put in place of the preview.
    pub open spec fn select(self, handle: ServerHandleView, seen: SeenView) -> Outcome {
        let screen = Self::screen_of(handle);
        let switched = self.interface != screen;
        let entry = if switched {
            screen.spec_init()
        } else {
            Seq::empty()
        };
        let mounted = if switched {
            screen.spec_widgets()
        } else {
            seen.mounted
        };
        Outcome {
            model: ModelView { interface: screen, ..self },
            follow_up: None,
            commands: entry + Interface::spec_perform(
                mounted,
                InterfaceMsgView::SelectedServer(handle),
            ).0,
        }
    }

    /// What a message leads to. Every message asks for the screen to be
    /// drawn again.
    pub open spec fn update(self, msg: MsgView, seen: SeenView) -> Outcome {
        let model = ModelView { redraw: true, ..self };
        match msg {
            MsgView::Nop(turns) => Outcome {
                model,
                follow_up: if turns > 0 {
                    Some(MsgView::Nop((turns - 1) as usize))
                } else {
                    None
                },
                commands: Seq::empty(),
            },
            MsgView::Launch => Outcome {
                model,
                follow_up: Some(MsgView::UpdateProviderStatus),
                commands: Seq::empty(),
            },
            MsgView::AppClose => Outcome {
                model: ModelView { quit: true, ..model },
                follow_up: None,
                commands: Seq::empty(),
            },
            MsgView::Connected => Outcome {
                model,
                follow_up: Some(MsgView::FetchServers),
                commands: seq![CommandView::Label("Provider connected"@)]
                    + Interface::spec_perform(seen.mounted, InterfaceMsgView::Connected).0,
            },
            MsgView::Disconnected => Outcome {
                model,
                follow_up: None,
                commands: seq![CommandView::Label("Provider disconnected"@)]
                    + Interface::spec_perform(seen.mounted, InterfaceMsgView::Disconnected).0,
            },
            MsgView::ChangeFocus => Outcome {
                model,
                follow_up: None,
                commands: seq![CommandView::Label("Focus changed"@)] + (match seen.focus {
                    Some(id) => seq![CommandView::Active(self.interface.next_focus(id))],
                    None => Seq::empty(),
                }),
            },
            MsgView::UpdateState(state) => {
                let told = seq![CommandView::Label("State update: "@ + describe(state))];
                match state {
                    StateView::SelectedServer(handle) => {
                        let chosen = model.select(handle, seen);
                        Outcome { commands: told + chosen.commands, ..chosen }
                    },
                    StateView::Empty => Outcome { model, follow_up: None, commands: told },
                }
            },
            MsgView::Input(id, text) => model.says(input_notice(id, quoted(text)), None),
            MsgView::Submit => match (seen.name, seen.kind, seen.image) {
                (Some(name), Some(kind), Some(image)) => Outcome {
                    model: model.submit(TasksView::CreateServer(name, kind, image)),
                    follow_up: None,
                    commands: form_notices(name, kind, image),
                },
                _ => Outcome { model, follow_up: None, commands: Seq::empty() },
            },
            MsgView::UpdateProviderStatus => model.submit(TasksView::ProviderStatus).says(
                "Provider status update issued"@,
                None,
            ),
            MsgView::FetchServers => model.submit(TasksView::FetchServers).says(
                "Fetching servers"@,
                None,
            ),
            MsgView::Info(text) => model.says(text, None),
        }
    }
}

fn extend(commands: &mut Vec<Command>, more: Vec<Command>)
    ensures
        commands_view(final(commands)@) == commands_view(old(commands)@) + commands_view(more@),
{
    let mut more = more;
    let ghost added = more@;
    commands.append(&mut more);
    assert(commands_view(commands@) =~= commands_view(old(commands)@) + commands_view(added));
}

fn say(commands: &mut Vec<Command>, text: String)
    ensures
        commands_view(final(commands)@) == commands_view(old(commands)@).push(
            CommandView::Label(text@),
        ),
{
    commands.push(Command::Label(text));
    assert(commands_view(commands@) =~= commands_view(old(commands)@).push(
        CommandView::Label(text@),
    ));
}

/// The label's notice of a changed field: the field's name and its text
/// as it is shown between quotes.
pub fn notice_input(id: Id, shown: &str) -> (text: String)
    ensures
        text@ == input_notice(id, shown@),
{
    let mut text = join("Input from ", id.name().as_str());
    text.append(": ");
    text.append(shown);
    text
}

/// A state in words, for the status label.
pub fn describe_state(state: &State) -> (text: String)
    ensures
        text@ == describe(state@),
{
    match state {
        State::SelectedServer(ServerHandle::Hetzner(server)) => {
            let head = join("SelectedServer(Hetzner(", server.name.as_str());
            join(head.as_str(), "))")
        },
        State::SelectedServer(ServerHandle::Create) => "SelectedServer(Create)".to_owned(),
        State::Empty => "Empty".to_owned(),
    }
}

impl Model {
    /// The model at the start: nothing asked of the provider yet, the
    /// status screen active. With it come the commands that enter that screen.
    pub fn new(args: Args) -> (made: (Self, Vec<Command>))
        ensures
            made.0.state() == (ModelView {
                quit: false,
                redraw: true,
                tasks: TaskHandlerView::fresh(args.auth),
                interface: Interface::Status,
            }),
            made.0.state().tasks.wf(),
            made.0.tasks.config.auth.token == args.token,
            commands_view(made.1@) == Interface::Status.spec_init(),
    {
        let config = Config::new(args);
        let tasks = TaskHandler::new(config);
        let interface = Interface::default();
        let commands = interface.init();
        (Model { quit: false, redraw: true, tasks, interface }, commands)
    }

    /// Where each visible widget of the active screen is drawn.
    pub fn view(&self) -> (slots: Vec<Slot>)
        ensures
            slots@ == self.interface.spec_view(),
    {
        self.interface.view()
    }

    fn select(&mut self, handle: ServerHandle, seen: &Seen, commands: &mut Vec<Command>)
        -> (follow_up: Option<Msg>)
        ensures
            final(self).state() == old(self).state().select(handle@, seen@).model,
            msg_of(follow_up) == old(self).state().select(handle@, seen@).follow_up,
            commands_view(final(commands)@) == commands_view(old(commands)@) + old(self).state().select(
                handle@,
                seen@,
            ).commands,
            final(self).tasks == old(self).tasks,
    {
        match handle {
            ServerHandle::Create => {
                if self.interface != Interface::Create {
                    self.interface = Interface::Create;
                    extend(commands, self.interface.init());
                }
                assert(commands_view(commands@) =~= commands_view(old(commands)@) + old(self).state().select(handle@, seen@).commands);
                None
            },
            ServerHandle::Hetzner(server) => {
                let handle = ServerHandle::Hetzner(server);
                let done = if self.interface != Interface::Status {
                    self.interface = Interface::Status;
                    extend(commands, self.interface.init());
                    let entered = Seen {
                        focus: None,
                        mounted: self.interface.widgets(),
                        name: None,
                        kind: None,
                        image: None,
                    };
                    self.interface.perform(&entered, InterfaceMsg::SelectedServer(handle))
                } else {
                    self.interface.perform(seen, InterfaceMsg::SelectedServer(handle))
                };
                extend(commands, done.0);
                assert(commands_view(commands@) =~= commands_view(old(commands)@) + old(self).state().select(handle@, seen@).commands);
                done.1
            },
        }
    }

    fn submit_form(&mut self, name: String, kind: String, image: String)
        -> (commands: Vec<Command>)
        ensures
            final(self).state() == old(self).state().submit(TasksView::CreateServer(name@, kind@, image@)),
            commands_view(commands@) == form_notices(name@, kind@, image@),
    {
        let mut commands: Vec<Command> = Vec::new();
        let mut text = join("Creating server: ", name.as_str());
        text.append(", ");
        text.append(kind.as_str());
        text.append(", ");
        text.append(image.as_str());
        say(&mut commands, text);
        if is_invalid(name.as_str()) {
            say(&mut commands, "Name invalid".to_owned());
        }
        if is_invalid(kind.as_str()) {
            say(&mut commands, "Type invalid".to_owned());
        }
        if is_invalid(image.as_str()) {
            say(&mut commands, "Image invalid".to_owned());
        }
        assert(commands_view(commands@) =~= form_notices(name@, kind@, image@));
        self.tasks.add_task(Task::new(Tasks::CreateServer(name, kind, image)));
        commands
    }

    /// Handles one message: changes the model, says what the widget
    /// registry is to be told, and names the message that follows, if one
    /// does. Without a message nothing happens.
    ///
    /// A submitted form is read from the registry, so its three fields
    /// must have been seen.
    pub fn update(&mut self, msg: Option<Msg>, seen: &Seen) -> (done: (Option<Msg>, Vec<Command>))
        requires
            msg matches Some(Msg::Submit) ==> seen.name is Some && seen.kind is Some
                && seen.image is Some,
        ensures
            match msg {
                Some(m) => {
                    let outcome = old(self).state().update(m@, seen@);
                    &&& final(self).state() == outcome.model
                    &&& msg_of(done.0) == outcome.follow_up
                    &&& commands_view(done.1@) == outcome.commands
                },
                None => *final(self) == *old(self) && done.0 is None && done.1@.len() == 0,
            },
            old(self).state().tasks.wf() ==> final(self).state().tasks.wf(),
    {
        let mut commands: Vec<Command> = Vec::new();
        assert(commands_view(commands@) =~= Seq::empty());
        let msg = match msg {
            Some(msg) => msg,
            None => {
                return (None, commands);
            },
        };
        self.redraw = true;
        let ghost spec = old(self).state().update(msg@, seen@);
        let follow_up = match msg {
            Msg::Nop(turns) => {
                if turns > 0 {
                    Some(Msg::Nop(turns - 1))
                } else {
                    None
                }
            },
            Msg::Launch => Some(Msg::UpdateProviderStatus),
            Msg::AppClose => {
                self.quit = true;
                None
            },
            Msg::Connected => {
                say(&mut commands, "Provider connected".to_owned());
                let done = self.interface.perform(seen, InterfaceMsg::Connected);
                extend(&mut commands, done.0);
                done.1
            },
            Msg::Disconnected => {
                say(&mut commands, "Provider disconnected".to_owned());
                let done = self.interface.perform(seen, InterfaceMsg::Disconnected);
                extend(&mut commands, done.0);
                done.1
            },
            Msg::ChangeFocus => {
                say(&mut commands, "Focus changed".to_owned());
                let done = self.interface.change_focus(seen.focus);
                extend(&mut commands, done.0);
                done.1
            },
            Msg::UpdateState(state) => {
                say(&mut commands, join("State update: ", describe_state(&state).as_str()));
                match state {
                    State::SelectedServer(handle) => self.select(handle, seen, &mut commands),
                    State::Empty => None,
                }
            },
            Msg::Input(id, text) => {
                say(&mut commands, notice_input(id, quote(text.as_str()).as_str()));
                None
            },
            Msg::Submit => {
                let name = match &seen.name {
                    Some(text) => text.clone(),
                    None => String::new(),
                };
                let kind = match &seen.kind {
                    Some(text) => text.clone(),
                    None => String::new(),
                };
                let image = match &seen.image {
                    Some(text) => text.clone(),
                    None => String::new(),
                };
                commands = self.submit_form(name, kind, image);
                None
            },
            Msg::UpdateProviderStatus => {
                say(&mut commands, "Provider status update issued".to_owned());
                self.tasks.add_task(Task::new(Tasks::ProviderStatus));
                None
            },
            Msg::FetchServers => {
                say(&mut commands, "Fetching servers".to_owned());
                self.tasks.add_task(Task::new(Tasks::FetchServers));
                None
            },
            Msg::Info(text) => {
                say(&mut commands, text);
                None
            },
        };
        assert(commands_view(commands@) =~= spec.commands);
        (follow_up, commands)
    }
}

/// Whether a command leaves the screen as it is: it removes and mounts
/// nothing but the preview, and it moves no focus.
pub open spec fn keeps_screen(command: CommandView) -> bool {
    match command {
        CommandView::UmountAll | CommandView::Active(_) | CommandView::Launch(_) => false,
        CommandView::Umount(id) => id == Id::Preview,
        CommandView::Mount(id, _, _) => id == Id::Preview,
        CommandView::Label(_) | CommandView::Draw => true,
    }
}

/// Selecting an entry of the active screen enters no screen again. The
/// screen stays active, no widget is removed or mounted but the preview,
/// which takes the detail of a selected server, and focus is given to none.
/// The entry for a new server, selected on the form's screen, changes the
/// label and nothing else.
pub proof fn lemma_reentry_is_idempotent(
    model: ModelView,
    handle: ServerHandleView,
    seen: SeenView,
)
    requires
        model.interface == ModelView::screen_of(handle),
    ensures
        ({
            let outcome = model.update(MsgView::UpdateState(StateView::SelectedServer(handle)), seen);
            &&& outcome.model.interface == model.interface
            &&& outcome.model.tasks == model.tasks
            &&& outcome.follow_up is None
            &&& forall|i: int|
                0 <= i < outcome.commands.len() ==> keeps_screen(#[trigger] outcome.commands[i])
            &&& handle is Create ==> outcome.commands.len() == 1 && outcome.commands[0] is Label
        }),
{
}

/// Selecting an entry of the other screen enters that screen whole. The
/// registry can carry out every command where the label was mounted, and
/// afterwards exactly the widgets of the new screen are mounted: none of
/// the old screen is left.
pub proof fn lemma_screen_switch_is_whole(
    model: ModelView,
    handle: ServerHandleView,
    seen: SeenView,
    before: Set<Id>,
)
    requires
        model.interface != ModelView::screen_of(handle),
        before.contains(Id::Label),
    ensures
        ({
            let outcome = model.update(MsgView::UpdateState(StateView::SelectedServer(handle)), seen);
            let screen = ModelView::screen_of(handle);
            &&& outcome.model.interface == screen
            &&& accepted(before, outcome.commands)
            &&& mounted_after(before, outcome.commands) == screen.spec_widgets().to_set()
            &&& handle is Create ==> focused_by(outcome.commands) == Some(Id::TextInput1)
        }),
{
    let outcome = model.update(MsgView::UpdateState(StateView::SelectedServer(handle)), seen);
    let screen = ModelView::screen_of(handle);
    let told = seq![
        CommandView::Label("State update: "@ + describe(StateView::SelectedServer(handle))),
    ];
    let entry = screen.spec_init();
    let rest = Interface::spec_perform(
        screen.spec_widgets(),
        InterfaceMsgView::SelectedServer(handle),
    ).0;
    assert(outcome.commands =~= (told + entry) + rest);
    assert(told.drop_last() =~= Seq::<CommandView>::empty());
    reveal_with_fuel(mounted_after, 3);
    reveal_with_fuel(accepted, 3);
    assert(mounted_after(before, told) == before);
    assert(accepted(before, told));
    lemma_commands_in_turn(before, told, entry);
    screen.lemma_entry_is_complete(before);
    let all = screen.spec_widgets().to_set();
    lemma_commands_in_turn(before, told + entry, rest);
    match handle {
        ServerHandleView::Create => {
            assert((told + entry) + rest =~= told + entry);
            reveal_with_fuel(focused_by, 3);
            assert((told + entry).drop_last().last() == entry[entry.len() - 2]);
            assert((told + entry).last() == entry[entry.len() - 1]);
        },
        ServerHandleView::Hetzner(server) => {
            let widgets = screen.spec_widgets();
            assert(widgets[3] == Id::Preview);
            assert(rest.len() == 2);
            assert(rest.drop_last().drop_last() =~= Seq::<CommandView>::empty());
            assert(rest.drop_last().last() == rest[0]);
            assert(mounted_after(all, rest.drop_last()) =~= all.remove(Id::Preview));
            assert(accepted(all, rest.drop_last()));
            assert(mounted_after(all, rest) =~= all);
        },
    }
}

/// An idle message counts down: each turn leaves one turn less, and the
/// last is followed by nothing. No turn changes anything but the wish to
/// draw again.
pub proof fn lemma_nop_counts_down(model: ModelView, turns: usize, seen: SeenView)
    ensures
        ({
            let outcome = model.update(MsgView::Nop(turns), seen);
            &&& outcome.model == (ModelView { redraw: true, ..model })
            &&& outcome.commands.len() == 0
            &&& turns > 0 ==> outcome.follow_up == Some(MsgView::Nop((turns - 1) as usize))
            &&& turns == 0 ==> outcome.follow_up is None
        }),
{
}

/// The launch of a screen leads to a request for the provider's summary:
/// it is followed by the message that asks for one, and that message puts
/// the request in the queue behind all earlier ones.
pub proof fn lemma_launch_asks_for_a_summary(model: ModelView, seen: SeenView)
    ensures
        ({
            let launched = model.update(MsgView::Launch, seen);
            let asked = launched.model.update(MsgView::UpdateProviderStatus, seen);
            &&& launched.follow_up == Some(MsgView::UpdateProviderStatus)
            &&& launched.commands.len() == 0
            &&& asked.follow_up is None
            &&& asked.model.tasks.order() == model.tasks.order().push(TasksView::ProviderStatus)
        }),
{
    let launched = model.update(MsgView::Launch, seen);
    let asked = launched.model.update(MsgView::UpdateProviderStatus, seen);
    assert(asked.model.tasks.order() =~= model.tasks.order().push(TasksView::ProviderStatus));
}

/// A submitted form is sent to the provider whatever its fields hold: the
/// label tells of each invalid field, and the request joins the queue
/// behind all earlier ones all the same.
pub proof fn lemma_submit_enqueues(model: ModelView, seen: SeenView)
    requires
        seen.name is Some,
        seen.kind is Some,
        seen.image is Some,
    ensures
        ({
            let outcome = model.update(MsgView::Submit, seen);
            let request = TasksView::CreateServer(
                seen.name->Some_0,
                seen.kind->Some_0,
                seen.image->Some_0,
            );
            &&& outcome.model.tasks.order() == model.tasks.order().push(request)
            &&& outcome.commands[0] is Label
            &&& invalid(seen.name->Some_0) ==> outcome.commands.len() >= 2 && outcome.commands[1]
                == CommandView::Label("Name invalid"@)
        }),
{
    let outcome = model.update(MsgView::Submit, seen);
    let request = TasksView::CreateServer(seen.name->Some_0, seen.kind->Some_0, seen.image->Some_0);
    assert(outcome.model.tasks.order() =~= model.tasks.order().push(request));
}

} // verus!
