//! The server table: one row for each server that the provider listed, and
//! a last row that opens the form for a new one.

use vstd::prelude::*;
use tuirealm::props::TableBuilder;
use crate::components::list::{key_command, list_command};
use crate::components::{Cmd, Event, EventView};
use crate::constants::{
    handles_view, msg_of, copy_handles, Msg, MsgView, ServerHandle, ServerHandleView,
    ServerListStatus, State, StateView, UserEvent, UserEventView,
};
use crate::text::{decimal, to_decimal};

verus! {

#[verifier::external_type_specification]
#[verifier::external_body]
pub struct ExTableBuilder(TableBuilder);

/// The rows of the table that a builder holds, each row the texts of its
/// cells; no rows once the table has been taken out of the builder.
pub uninterp spec fn table_rows(builder: TableBuilder) -> Seq<Seq<Seq<char>>>;

/// `TableBuilder::default`: a new builder holds a table of one row
/// without cells.
#[verifier::external_body]
fn new_table() -> (builder: TableBuilder)
    ensures
        table_rows(builder) == seq![Seq::<Seq<char>>::empty()],
{
    TableBuilder::default()
}

/// `TableBuilder::add_col` with a plain text span: where the builder holds
/// a table, the cell is added at the end of its last row.
#[verifier::external_body]
fn add_col(builder: &mut TableBuilder, text: &str)
    requires
        table_rows(*old(builder)).len() > 0,
    ensures
        table_rows(*final(builder)) == table_rows(*old(builder)).drop_last().push(
            table_rows(*old(builder)).last().push(text@),
        ),
{
    builder.add_col(text.into());
}

/// `TableBuilder::add_row`: where the builder holds a table, a row without
/// cells is added at its end.
#[verifier::external_body]
fn add_row(builder: &mut TableBuilder)
    requires
        table_rows(*old(builder)).len() > 0,
    ensures
        table_rows(*final(builder)) == table_rows(*old(builder)).push(Seq::empty()),
{
    builder.add_row();
}

/// The row of a server: its number, its name, its state and its address.
pub open spec fn server_row(number: int, handle: ServerHandleView) -> Seq<Seq<char>> {
    match handle {
        ServerHandleView::Hetzner(server) => {
            let row = ServerHandle::spec_status(server);
            seq![decimal(number as nat), row.name, row.status, row.ip]
        },
        ServerHandleView::Create => Seq::empty(),
    }
}

/// The row that opens the form for a new server.
pub open spec fn create_row() -> Seq<Seq<char>> {
    seq!["+"@, "Create a new server"@, ""@, ""@]
}

/// The row shown where no server is known.
pub open spec fn no_servers_row() -> Seq<Seq<char>> {
    seq![""@, "No servers detected"@, ""@, ""@]
}

/// The table for a list of servers: their rows, numbered from one, then
/// the row for a new server, then the row without cells that the builder
/// is left with.
pub open spec fn server_table(servers: Seq<ServerHandleView>) -> Seq<Seq<Seq<char>>> {
    Seq::new(servers.len(), |i: int| server_row(i + 1, servers[i])).push(create_row()).push(
        Seq::empty(),
    )
}

/// The table shown before any list has come.
pub open spec fn empty_table() -> Seq<Seq<Seq<char>>> {
    seq![no_servers_row(), create_row(), Seq::empty()]
}

/// Whether a list holds servers only.
pub open spec fn servers_only(servers: Seq<ServerHandleView>) -> bool {
    forall|i: int| 0 <= i < servers.len() ==> (#[trigger] servers[i]) is Hetzner
}

/// The lists that a batch brings, oldest first.
pub open spec fn lists_of(events: Seq<UserEventView>) -> Seq<Seq<ServerHandleView>>
    decreases events.len(),
{
    if events.len() == 0 {
        Seq::empty()
    } else {
        match events.last() {
            UserEventView::ServerListStatus(list) => lists_of(events.drop_last()).push(list),
            _ => lists_of(events.drop_last()),
        }
    }
}

/// Whether each list of several holds servers only.
pub open spec fn all_servers_only(lists: Seq<Seq<ServerHandleView>>) -> bool {
    forall|i: int| 0 <= i < lists.len() ==> servers_only(#[trigger] lists[i])
}

/// Whether every list that an event brings holds servers only.
pub open spec fn brings_servers_only(event: EventView) -> bool {
    match event {
        EventView::User(events) => all_servers_only(lists_of(events)),
        _ => true,
    }
}

/// The servers of an optional list.
pub open spec fn servers_of(servers: Option<Vec<ServerHandle>>) -> Option<Seq<ServerHandleView>> {
    match servers {
        Some(list) => Some(handles_view(list@)),
        None => None,
    }
}

/// What the selected row of the table stands for: the server of that row,
/// the entry for a new server below the last server, and nothing as long
/// as no list has come.
pub open spec fn selection(servers: Option<Seq<ServerHandleView>>, selected: usize) -> StateView {
    match servers {
        Some(list) => if selected < list.len() {
            StateView::SelectedServer(list[selected as int])
        } else {
            StateView::SelectedServer(ServerHandleView::Create)
        },
        None => StateView::Empty,
    }
}

fn add_cells(builder: &mut TableBuilder, a: &str, b: &str, c: &str, d: &str)
    requires
        table_rows(*old(builder)).len() > 0,
        table_rows(*old(builder)).last().len() == 0,
    ensures
        table_rows(*final(builder)) == table_rows(*old(builder)).drop_last().push(
            seq![a@, b@, c@, d@],
        ).push(Seq::empty()),
{
    add_col(builder, a);
    add_col(builder, b);
    add_col(builder, c);
    add_col(builder, d);
    add_row(builder);
    assert(table_rows(*builder) =~= table_rows(*old(builder)).drop_last().push(
        seq![a@, b@, c@, d@],
    ).push(Seq::empty())) by {
        assert(table_rows(*old(builder)).last() =~= Seq::<Seq<char>>::empty());
        assert(Seq::<Seq<char>>::empty().push(a@).push(b@).push(c@).push(d@) =~= seq![
            a@,
            b@,
            c@,
            d@,
        ]);
    }
}

/// The server table, and the list that it shows.
pub struct ServerListConnected {
    pub servers: Option<Vec<ServerHandle>>,
}

impl Default for ServerListConnected {
    fn default() -> (made: Self)
        ensures
            made.servers is None,
    {
        ServerListConnected { servers: None }
    }
}

impl ServerListConnected {
    /// The table shown before any list has come.
    pub fn table() -> (builder: TableBuilder)
        ensures
            table_rows(builder) == empty_table(),
    {
        let mut builder = new_table();
        add_cells(&mut builder, "", "No servers detected", "", "");
        add_cells(&mut builder, "+", "Create a new server", "", "");
        assert(table_rows(builder) =~= empty_table());
        builder
    }

    /// Takes a new list of servers and builds the table that shows it. The
    /// list holds servers only: the row for a new server is the table's own.
    pub fn update_status(&mut self, status: ServerListStatus) -> (builder: TableBuilder)
        requires
            servers_only(status@),
        ensures
            servers_of(final(self).servers) == Some(status@),
            table_rows(builder) == server_table(status@),
    {
        let mut builder = new_table();
        let servers = status.servers;
        let ghost rows = |i: int| server_row(i + 1, handles_view(servers@)[i]);
        let mut i: usize = 0;
        while i < servers.len()
            invariant
                i <= servers.len(),
                servers_only(handles_view(servers@)),
                rows == |i: int| server_row(i + 1, handles_view(servers@)[i]),
                table_rows(builder) == Seq::new(i as nat, rows).push(Seq::empty()),
            decreases servers.len() - i,
        {
            let ghost before = table_rows(builder);
            assert(handles_view(servers@)[i as int] is Hetzner);
            match servers[i].to_status() {
                Some(row) => {
                    let number = to_decimal((i as u64) + 1);
                    add_cells(
                        &mut builder,
                        number.as_str(),
                        row.name.as_str(),
                        row.status.as_str(),
                        row.ip.as_str(),
                    );
                    assert(seq![number@, row.name@, row.status@, row.ip@] == rows(i as int));
                },
                None => {},
            }
            assert(table_rows(builder) =~= Seq::new((i + 1) as nat, rows).push(Seq::empty()));
            i += 1;
        }
        add_cells(&mut builder, "+", "Create a new server", "", "");
        assert(table_rows(builder) =~= server_table(handles_view(servers@)));
        self.servers = Some(servers);
        builder
    }

    /// Takes an event. A key says what the table is to do. A batch hands
    /// the table the last list of servers that it brings, if it brings one,
    /// and says that what is shown has changed.
    pub fn command(&mut self, event: Event) -> (done: (Cmd, Option<TableBuilder>))
        requires
            brings_servers_only(event@),
        ensures
            match event@ {
                EventView::User(events) => {
                    &&& done.0 == Cmd::Change
                    &&& if lists_of(events).len() > 0 {
                        &&& servers_of(final(self).servers) == Some(lists_of(events).last())
                        &&& done.1 is Some
                        &&& table_rows(done.1->Some_0) == server_table(lists_of(events).last())
                    } else {
                        &&& servers_of(final(self).servers) == servers_of(old(self).servers)
                        &&& done.1 is None
                    }
                },
                _ => {
                    &&& done.0 == list_command(event@)
                    &&& done.1 is None
                    &&& servers_of(final(self).servers) == servers_of(old(self).servers)
                },
            },
    {
        let ghost given = event@;
        match event {
            Event::User(batch) => {
                assert(given == EventView::User(batch@));
                let mut table: Option<TableBuilder> = None;
                let mut i: usize = 0;
                while i < batch.events.len()
                    invariant
                        i <= batch.events.len(),
                        brings_servers_only(EventView::User(batch@)),
                        lists_of(batch@.take(i as int)).len() <= lists_of(batch@).len(),
                        forall|k: int|
                            0 <= k < lists_of(batch@.take(i as int)).len() ==> lists_of(
                                batch@.take(i as int),
                            )[k] == lists_of(batch@)[k],
                        if lists_of(batch@.take(i as int)).len() > 0 {
                            &&& servers_of(self.servers) == Some(
                                lists_of(batch@.take(i as int)).last(),
                            )
                            &&& table is Some
                            &&& table_rows(table->Some_0) == server_table(
                                lists_of(batch@.take(i as int)).last(),
                            )
                        } else {
                            &&& servers_of(self.servers) == servers_of(old(self).servers)
                            &&& table is None
                        },
                    decreases batch.events.len() - i,
                {
                    proof {
                        lemma_lists_grow(batch@, i as int);
                        lemma_lists_grow(batch@, i + 1);
                        let seen = batch@.take(i as int);
                        let more = batch@.take(i + 1);
                        assert(more.drop_last() =~= seen);
                        assert(more.last() == batch.events[i as int]@);
                    }
                    match &batch.events[i] {
                        UserEvent::ServerListStatus(list) => {
                            proof {
                                let more = lists_of(batch@.take(i + 1));
                                let all = lists_of(batch@);
                                assert(more.last() == list@);
                                assert(more[more.len() - 1] == all[more.len() - 1]);
                                assert(servers_only(all[more.len() - 1]));
                            }
                            let twin = ServerListStatus::new(copy_handles(&list.servers));
                            table = Some(self.update_status(twin));
                        },
                        _ => {},
                    }
                    i += 1;
                }
                assert(batch@.take(i as int) =~= batch@);
                (Cmd::Change, table)
            },
            other => (key_command(&other), None),
        }
    }

    /// The message that tells what is selected, once the table has done
    /// what it was told: none where it was told nothing.
    pub fn on(&self, cmd: Cmd, selected: usize) -> (msg: Option<Msg>)
        ensures
            msg_of(msg) == if cmd == Cmd::Idle {
                None
            } else {
                Some(MsgView::UpdateState(selection(servers_of(self.servers), selected)))
            },
    {
        let state = match &self.servers {
            Some(servers) => {
                if selected < servers.len() {
                    State::SelectedServer(servers[selected].copy())
                } else {
                    State::SelectedServer(ServerHandle::Create)
                }
            },
            None => State::Empty,
        };
        match cmd {
            Cmd::Idle => None,
            _ => Some(Msg::UpdateState(state)),
        }
    }
}

/// The lists of the first events of a batch are the first lists of the
/// whole batch.
pub proof fn lemma_lists_grow(events: Seq<UserEventView>, upto: int)
    requires
        0 <= upto <= events.len(),
    ensures
        lists_of(events.take(upto)).len() <= lists_of(events).len(),
        forall|k: int|
            0 <= k < lists_of(events.take(upto)).len() ==> lists_of(events.take(upto))[k]
                == lists_of(events)[k],
    decreases events.len() - upto,
{
    if upto == events.len() {
        assert(events.take(upto) =~= events);
    } else {
        lemma_lists_grow(events, upto + 1);
        assert(events.take(upto + 1).drop_last() =~= events.take(upto));
    }
}

} // verus!
