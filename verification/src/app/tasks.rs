//! The background task queue and the bridge that hands its results over.
//!
//! A request runs as a short exchange with the provider: the queue says which
//! call to make, whoever drives it makes the call and delivers the reply, and
//! the queue decides what follows. One request is in flight at a time, and
//! finished tasks leave in the order in which they were submitted.

use vstd::prelude::*;
use crate::constants::{
    handles_view, AuthPlatform, Config, ProviderStatus, ProviderStatusView, Server,
    ServerHandle, ServerHandleView, ServerListStatus, ServerView, UserEvent, UserEventIter,
    UserEventView,
};
use crate::text::join;

verus! {

/// The image every new server is made from.
pub open spec fn image() -> Seq<char> {
    "fedora-41"@
}

/// The location every new server is placed in.
pub open spec fn location() -> Seq<char> {
    "fsn1"@
}

/// What can be asked of the task queue.
#[derive(Debug, Clone, PartialEq, Eq)]
pub enum Tasks {
    ProviderStatus,
    FetchServers,
    /// A new server: its name, its type and the image asked for.
    CreateServer(String, String, String),
    Nop,
}

pub enum TasksView {
    ProviderStatus,
    FetchServers,
    CreateServer(Seq<char>, Seq<char>, Seq<char>),
    Nop,
}

impl View for Tasks {
    type V = TasksView;

    open spec fn view(&self) -> TasksView {
        match self {
            Tasks::ProviderStatus => TasksView::ProviderStatus,
            Tasks::FetchServers => TasksView::FetchServers,
            Tasks::CreateServer(name, kind, image) => TasksView::CreateServer(
                name@,
                kind@,
                image@,
            ),
            Tasks::Nop => TasksView::Nop,
        }
    }
}

/// The view of an optional event.
pub open spec fn event_of(event: Option<UserEvent>) -> Option<UserEventView> {
    match event {
        Some(e) => Some(e@),
        None => None,
    }
}

/// A request together with the event that answers it, once there is one.
#[derive(Debug, Clone)]
pub struct Task {
    pub request: Tasks,
    pub response: Option<UserEvent>,
}

pub struct TaskView {
    pub request: TasksView,
    pub response: Option<UserEventView>,
}

impl View for Task {
    type V = TaskView;

    open spec fn view(&self) -> TaskView {
        TaskView { request: self.request@, response: event_of(self.response) }
    }
}

impl Task {
    /// A task that has not run: it holds the request and no response.
    pub fn new(request: Tasks) -> (made: Self)
        ensures
            made.request == request,
            made.response is None,
    {
        Self { request, response: None }
    }
}

impl Default for Task {
    fn default() -> (made: Self)
        ensures
            made@ == (TaskView { request: TasksView::Nop, response: None }),
    {
        Self { request: Tasks::Nop, response: None }
    }
}

/// What a new server is asked to be.
#[derive(Debug, Clone, PartialEq, Eq)]
pub struct CreateServerRequest {
    pub name: String,
    pub server_type: String,
    pub image: String,
    pub location: String,
    pub ssh_keys: Vec<String>,
    pub start_after_create: bool,
    pub enable_ipv4: bool,
}

pub struct CreateServerRequestView {
    pub name: Seq<char>,
    pub server_type: Seq<char>,
    pub image: Seq<char>,
    pub location: Seq<char>,
    pub ssh_keys: Seq<Seq<char>>,
    pub start_after_create: bool,
    pub enable_ipv4: bool,
}

/// The characters of each text of a list, in order.
pub open spec fn texts_view(texts: Seq<String>) -> Seq<Seq<char>> {
    Seq::new(texts.len(), |i: int| texts[i]@)
}

/// The views of a list of servers, in order.
pub open spec fn servers_view(servers: Seq<Server>) -> Seq<ServerView> {
    Seq::new(servers.len(), |i: int| servers[i]@)
}

impl View for CreateServerRequest {
    type V = CreateServerRequestView;

    open spec fn view(&self) -> CreateServerRequestView {
        CreateServerRequestView {
            name: self.name@,
            server_type: self.server_type@,
            image: self.image@,
            location: self.location@,
            ssh_keys: texts_view(self.ssh_keys@),
            start_after_create: self.start_after_create,
            enable_ipv4: self.enable_ipv4,
        }
    }
}

/// A call to the provider that a running task waits for.
#[derive(Debug, Clone, PartialEq, Eq)]
pub enum Call {
    ListServers,
    ListPrimaryIps,
    ListSshKeys,
    CreateServer(CreateServerRequest),
}

pub enum CallView {
    ListServers,
    ListPrimaryIps,
    ListSshKeys,
    CreateServer(CreateServerRequestView),
}

impl View for Call {
    type V = CallView;

    open spec fn view(&self) -> CallView {
        match self {
            Call::ListServers => CallView::ListServers,
            Call::ListPrimaryIps => CallView::ListPrimaryIps,
            Call::ListSshKeys => CallView::ListSshKeys,
            Call::CreateServer(request) => CallView::CreateServer(request@),
        }
    }
}

/// The view of an optional call.
pub open spec fn call_of(call: Option<Call>) -> Option<CallView> {
    match call {
        Some(c) => Some(c@),
        None => None,
    }
}

/// What came back from a call to the provider.
#[derive(Debug, Clone)]
pub enum Reply {
    /// The servers that the provider listed.
    Servers(Vec<Server>),
    /// The number of primary IPs that the provider listed.
    PrimaryIps(usize),
    /// The names of the SSH keys that the provider listed.
    SshKeys(Vec<String>),
    /// The server was created.
    Created,
    /// The call failed; the text says how.
    Failed(String),
}

pub enum ReplyView {
    Servers(Seq<ServerView>),
    PrimaryIps(usize),
    SshKeys(Seq<Seq<char>>),
    Created,
    Failed(Seq<char>),
}

impl View for Reply {
    type V = ReplyView;

    open spec fn view(&self) -> ReplyView {
        match self {
            Reply::Servers(servers) => ReplyView::Servers(servers_view(servers@)),
            Reply::PrimaryIps(count) => ReplyView::PrimaryIps(*count),
            Reply::SshKeys(keys) => ReplyView::SshKeys(texts_view(keys@)),
            Reply::Created => ReplyView::Created,
            Reply::Failed(message) => ReplyView::Failed(message@),
        }
    }
}

/// The reply that a running task waits for.
#[derive(Debug, Clone, Copy, PartialEq, Eq, Structural)]
pub enum Stage {
    /// The servers, for a provider summary.
    Servers,
    /// The primary IPs, for a provider summary.
    PrimaryIps,
    /// The servers, for the server list.
    Listing,
    /// The SSH keys that a new server is to accept.
    SshKeys,
    /// The creation of a server.
    Creating,
    /// None: the task has its response.
    Done,
}

impl Stage {
    /// Whether a reply answers the call of this stage. A failure answers any call.
    pub open spec fn expects(self, reply: ReplyView) -> bool {
        match self {
            Stage::Servers | Stage::Listing => reply is Servers || reply is Failed,
            Stage::PrimaryIps => reply is PrimaryIps || reply is Failed,
            Stage::SshKeys => reply is SshKeys || reply is Failed,
            Stage::Creating => reply is Created || reply is Failed,
            Stage::Done => false,
        }
    }

    /// The largest number of calls that a task at this stage still makes.
    pub open spec fn calls_left(self) -> nat {
        match self {
            Stage::Servers | Stage::SshKeys => 2,
            Stage::PrimaryIps | Stage::Listing | Stage::Creating => 1,
            Stage::Done => 0,
        }
    }
}

/// A task on its way through the provider.
#[derive(Debug, Clone)]
pub struct Run {
    pub task: Task,
    pub stage: Stage,
    /// The provider summary gathered so far.
    pub overview: ProviderStatus,
    /// The SSH keys that a new server is to accept.
    pub ssh_keys: Vec<String>,
}

pub struct RunView {
    pub task: TaskView,
    pub stage: Stage,
    pub overview: ProviderStatusView,
    pub ssh_keys: Seq<Seq<char>>,
}

impl View for Run {
    type V = RunView;

    open spec fn view(&self) -> RunView {
        RunView {
            task: self.task@,
            stage: self.stage,
            overview: self.overview@,
            ssh_keys: texts_view(self.ssh_keys@),
        }
    }
}

/// The view of an optional run.
pub open spec fn run_of(run: Option<Run>) -> Option<RunView> {
    match run {
        Some(r) => Some(r@),
        None => None,
    }
}

/// A provider summary whose status tells of a failed call.
pub open spec fn disconnected(overview: ProviderStatusView, message: Seq<char>)
    -> ProviderStatusView {
    ProviderStatusView { status: "Disconnected, Error: "@ + message, ..overview }
}

/// The list entries of the servers that a provider listed, in its order.
pub open spec fn listed(servers: Seq<ServerView>) -> Seq<ServerHandleView> {
    Seq::new(servers.len(), |i: int| ServerHandleView::Hetzner(servers[i]))
}

impl RunView {
    /// A request as it enters the provider. An idle request is answered at once.
    pub open spec fn start(request: TasksView, platform: AuthPlatform) -> RunView {
        RunView {
            task: TaskView {
                request,
                response: match request {
                    TasksView::Nop => Some(UserEventView::Empty),
                    _ => None,
                },
            },
            stage: match request {
                TasksView::ProviderStatus => Stage::Servers,
                TasksView::FetchServers => Stage::Listing,
                TasksView::CreateServer(_, _, _) => Stage::SshKeys,
                TasksView::Nop => Stage::Done,
            },
            overview: ProviderStatus::spec_new(platform),
            ssh_keys: Seq::empty(),
        }
    }

    /// The call that the run waits for; none once it is done.
    pub open spec fn call(self) -> Option<CallView> {
        match self.stage {
            Stage::Servers | Stage::Listing => Some(CallView::ListServers),
            Stage::PrimaryIps => Some(CallView::ListPrimaryIps),
            Stage::SshKeys => Some(CallView::ListSshKeys),
            Stage::Creating => Some(
                CallView::CreateServer(
                    CreateServerRequestView {
                        name: match self.task.request {
                            TasksView::CreateServer(name, _, _) => name,
                            _ => Seq::empty(),
                        },
                        server_type: match self.task.request {
                            TasksView::CreateServer(_, kind, _) => kind,
                            _ => Seq::empty(),
                        },
                        image: image(),
                        location: location(),
                        ssh_keys: self.ssh_keys,
                        start_after_create: true,
                        enable_ipv4: false,
                    },
                ),
            ),
            Stage::Done => None,
        }
    }

    /// The run with its response set and nothing left to wait for.
    pub open spec fn done(self, event: UserEventView) -> RunView {
        RunView {
            task: TaskView { request: self.task.request, response: Some(event) },
            stage: Stage::Done,
            ..self
        }
    }

    /// The run after the reply to its call.
    ///
    /// A provider summary asks for the servers and then for the primary IPs,
    /// whatever the first call gave; a failure of either shows in its status.
    /// A failure of any other call ends the task with an error event.
    pub open spec fn advance(self, reply: ReplyView) -> RunView {
        match self.stage {
            Stage::Servers => RunView {
                stage: Stage::PrimaryIps,
                overview: match reply {
                    ReplyView::Servers(servers) => ProviderStatusView {
                        servers: servers.len() as usize,
                        ..self.overview
                    },
                    ReplyView::Failed(message) => disconnected(self.overview, message),
                    _ => self.overview,
                },
                ..self
            },
            Stage::PrimaryIps => {
                let overview = match reply {
                    ReplyView::PrimaryIps(count) => ProviderStatusView {
                        primary_ips: count,
                        ..self.overview
                    },
                    ReplyView::Failed(message) => disconnected(self.overview, message),
                    _ => self.overview,
                };
                RunView { overview, ..self }.done(UserEventView::ProviderStatus(overview))
            },
            Stage::Listing => match reply {
                ReplyView::Servers(servers) => self.done(
                    UserEventView::ServerListStatus(listed(servers)),
                ),
                ReplyView::Failed(message) => self.done(
                    UserEventView::Error("Cannot fetch servers: "@ + message),
                ),
                _ => self,
            },
            Stage::SshKeys => match reply {
                ReplyView::SshKeys(keys) => RunView {
                    stage: Stage::Creating,
                    ssh_keys: keys,
                    ..self
                },
                ReplyView::Failed(message) => self.done(
                    UserEventView::Error("Cannot fetch ssh keys: "@ + message),
                ),
                _ => self,
            },
            Stage::Creating => match reply {
                ReplyView::Created => self.done(UserEventView::Refresh),
                ReplyView::Failed(message) => self.done(
                    UserEventView::Error("Cannot create server: "@ + message),
                ),
                _ => self,
            },
            Stage::Done => self,
        }
    }

    /// A run is sound when it has its response exactly when it is done.
    pub open spec fn sound(self) -> bool {
        (self.stage == Stage::Done) == (self.task.response is Some)
    }
}

fn copy_texts(texts: &Vec<String>) -> (twin: Vec<String>)
    ensures
        texts_view(twin@) == texts_view(texts@),
{
    let mut twin: Vec<String> = Vec::new();
    let mut i: usize = 0;
    while i < texts.len()
        invariant
            i <= texts.len(),
            twin.len() == i,
            forall|j: int| 0 <= j < i ==> twin[j]@ == texts[j]@,
        decreases texts.len() - i,
    {
        twin.push(texts[i].clone());
        i += 1;
    }
    assert(texts_view(twin@) =~= texts_view(texts@));
    twin
}

fn list_entries(servers: &Vec<Server>) -> (entries: Vec<ServerHandle>)
    ensures
        handles_view(entries@) == listed(servers_view(servers@)),
{
    let mut entries: Vec<ServerHandle> = Vec::new();
    let mut i: usize = 0;
    while i < servers.len()
        invariant
            i <= servers.len(),
            entries.len() == i,
            forall|j: int| 0 <= j < i ==> entries[j]@ == ServerHandleView::Hetzner(servers[j]@),
        decreases servers.len() - i,
    {
        entries.push(ServerHandle::Hetzner(Box::new(servers[i].copy())));
        i += 1;
    }
    assert(handles_view(entries@) =~= listed(servers_view(servers@)));
    entries
}

fn fail(overview: ProviderStatus, message: &String) -> (failed: ProviderStatus)
    ensures
        failed@ == disconnected(overview@, message@),
{
    ProviderStatus {
        name: overview.name,
        status: join("Disconnected, Error: ", message.as_str()),
        servers: overview.servers,
        primary_ips: overview.primary_ips,
        firewalls: overview.firewalls,
        load_balancers: overview.load_balancers,
    }
}

impl Run {
    /// Lets a task enter the provider.
    pub fn start(task: Task, config: &Config) -> (run: Self)
        ensures
            run@ == RunView::start(task.request@, config.auth.auth),
            run@.sound(),
    {
        let overview = ProviderStatus::new(config.auth.auth);
        let (stage, response) = match &task.request {
            Tasks::ProviderStatus => (Stage::Servers, None),
            Tasks::FetchServers => (Stage::Listing, None),
            Tasks::CreateServer(_, _, _) => (Stage::SshKeys, None),
            Tasks::Nop => (Stage::Done, Some(UserEvent::Empty)),
        };
        let run = Run {
            task: Task { request: task.request, response },
            stage,
            overview,
            ssh_keys: Vec::new(),
        };
        assert(texts_view(run.ssh_keys@) =~= Seq::empty());
        run
    }

    /// Whether the task has its response.
    pub fn is_done(&self) -> (done: bool)
        ensures
            done == (self.stage == Stage::Done),
    {
        match self.stage {
            Stage::Done => true,
            _ => false,
        }
    }

    /// The call to make for this run now; none once it is done.
    pub fn call(&self) -> (call: Option<Call>)
        ensures
            call_of(call) == self@.call(),
    {
        match self.stage {
            Stage::Servers | Stage::Listing => Some(Call::ListServers),
            Stage::PrimaryIps => Some(Call::ListPrimaryIps),
            Stage::SshKeys => Some(Call::ListSshKeys),
            Stage::Creating => {
                let (name, server_type) = match &self.task.request {
                    Tasks::CreateServer(name, kind, _) => (name.clone(), kind.clone()),
                    _ => (String::new(), String::new()),
                };
                Some(
                    Call::CreateServer(
                        CreateServerRequest {
                            name,
                            server_type,
                            image: "fedora-41".to_owned(),
                            location: "fsn1".to_owned(),
                            ssh_keys: copy_texts(&self.ssh_keys),
                            start_after_create: true,
                            enable_ipv4: false,
                        },
                    ),
                )
            },
            Stage::Done => None,
        }
    }

    /// Whether a reply answers the call that the run waits for.
    pub fn expects(&self, reply: &Reply) -> (fits: bool)
        ensures
            fits == self.stage.expects(reply@),
    {
        match self.stage {
            Stage::Servers | Stage::Listing => match reply {
                Reply::Servers(_) | Reply::Failed(_) => true,
                _ => false,
            },
            Stage::PrimaryIps => match reply {
                Reply::PrimaryIps(_) | Reply::Failed(_) => true,
                _ => false,
            },
            Stage::SshKeys => match reply {
                Reply::SshKeys(_) | Reply::Failed(_) => true,
                _ => false,
            },
            Stage::Creating => match reply {
                Reply::Created | Reply::Failed(_) => true,
                _ => false,
            },
            Stage::Done => false,
        }
    }

    fn finish(self, event: UserEvent) -> (run: Self)
        ensures
            run@ == self@.done(event@),
    {
        Run {
            task: Task { request: self.task.request, response: Some(event) },
            stage: Stage::Done,
            overview: self.overview,
            ssh_keys: self.ssh_keys,
        }
    }

    /// Takes the reply to the run's call and decides what follows: the next
    /// call, or the task's response. The response is set once, on the step
    /// that ends the run, and each step leaves fewer calls to make.
    pub fn advance(self, reply: Reply) -> (run: Self)
        requires
            self@.sound(),
            self.stage.expects(reply@),
        ensures
            run@ == self@.advance(reply@),
            run@.sound(),
            run.stage.calls_left() < self.stage.calls_left(),
            run@.task.request == self@.task.request,
    {
        match self.stage {
            Stage::Servers => {
                let overview = match &reply {
                    Reply::Servers(servers) => ProviderStatus {
                        name: self.overview.name,
                        status: self.overview.status,
                        servers: servers.len(),
                        primary_ips: self.overview.primary_ips,
                        firewalls: self.overview.firewalls,
                        load_balancers: self.overview.load_balancers,
                    },
                    Reply::Failed(message) => fail(self.overview, message),
                    _ => self.overview,
                };
                Run { task: self.task, stage: Stage::PrimaryIps, overview, ssh_keys: self.ssh_keys }
            },
            Stage::PrimaryIps => {
                let overview = match &reply {
                    Reply::PrimaryIps(count) => ProviderStatus {
                        name: self.overview.name,
                        status: self.overview.status,
                        servers: self.overview.servers,
                        primary_ips: *count,
                        firewalls: self.overview.firewalls,
                        load_balancers: self.overview.load_balancers,
                    },
                    Reply::Failed(message) => fail(self.overview, message),
                    _ => self.overview,
                };
                let event = UserEvent::ProviderStatus(overview.copy());
                Run {
                    task: Task { request: self.task.request, response: Some(event) },
                    stage: Stage::Done,
                    overview,
                    ssh_keys: self.ssh_keys,
                }
            },
            Stage::Listing => match &reply {
                Reply::Servers(servers) => {
                    let entries = list_entries(servers);
                    self.finish(UserEvent::ServerListStatus(ServerListStatus::new(entries)))
                },
                Reply::Failed(message) => self.finish(
                    UserEvent::Error(join("Cannot fetch servers: ", message.as_str())),
                ),
                _ => self,
            },
            Stage::SshKeys => match reply {
                Reply::SshKeys(keys) => Run {
                    task: self.task,
                    stage: Stage::Creating,
                    overview: self.overview,
                    ssh_keys: keys,
                },
                Reply::Failed(message) => self.finish(
                    UserEvent::Error(join("Cannot fetch ssh keys: ", message.as_str())),
                ),
                _ => self,
            },
            Stage::Creating => match &reply {
                Reply::Created => self.finish(UserEvent::Refresh),
                Reply::Failed(message) => self.finish(
                    UserEvent::Error(join("Cannot create server: ", message.as_str())),
                ),
                _ => self,
            },
            Stage::Done => self,
        }
    }
}

/// The views of a list of tasks, in order.
pub open spec fn tasks_view(tasks: Seq<Task>) -> Seq<TaskView> {
    Seq::new(tasks.len(), |i: int| tasks[i]@)
}

/// The requests of a list of tasks, in order.
pub open spec fn requests(tasks: Seq<TaskView>) -> Seq<TasksView> {
    Seq::new(tasks.len(), |i: int| tasks[i].request)
}

/// The events that a list of finished tasks hands over, in order. A task
/// without a response hands over nothing.
pub open spec fn responses(tasks: Seq<TaskView>) -> Seq<UserEventView>
    decreases tasks.len(),
{
    if tasks.len() == 0 {
        Seq::empty()
    } else {
        match tasks.last().response {
            Some(event) => responses(tasks.drop_last()).push(event),
            None => responses(tasks.drop_last()),
        }
    }
}

/// The task queue: the requests that wait, the one in flight, and the tasks
/// that are finished and not yet handed over.
#[derive(Debug, Clone)]
pub struct TaskHandler {
    /// Submitted and not yet begun, oldest first.
    pub pending: Vec<Task>,
    /// The one request that is with the provider.
    pub running: Option<Run>,
    /// Finished and not yet handed over, oldest first.
    pub completed: Vec<Task>,
    pub config: Config,
}

pub struct TaskHandlerView {
    pub pending: Seq<TaskView>,
    pub running: Option<RunView>,
    pub completed: Seq<TaskView>,
    pub platform: AuthPlatform,
}

impl View for TaskHandler {
    type V = TaskHandlerView;

    open spec fn view(&self) -> TaskHandlerView {
        TaskHandlerView {
            pending: tasks_view(self.pending@),
            running: run_of(self.running),
            completed: tasks_view(self.completed@),
            platform: self.config.auth.auth,
        }
    }
}

impl TaskHandlerView {
    /// A queue that holds nothing.
    pub open spec fn fresh(platform: AuthPlatform) -> TaskHandlerView {
        TaskHandlerView {
            pending: Seq::empty(),
            running: None,
            completed: Seq::empty(),
            platform,
        }
    }

    /// The queue is well formed when every finished task has its response
    /// and the request in flight has none yet.
    pub open spec fn wf(self) -> bool {
        &&& forall|i: int| 0 <= i < self.completed.len() ==> (#[trigger] self.completed[i]).response is Some
        &&& self.running matches Some(run) ==> run.sound() && run.stage != Stage::Done
    }

    /// The request in flight, as a list of at most one.
    pub open spec fn in_flight(self) -> Seq<TasksView> {
        match self.running {
            Some(run) => seq![run.task.request],
            None => Seq::empty(),
        }
    }

    /// Every request that the queue holds, oldest first: the finished ones,
    /// the one in flight, the waiting ones.
    pub open spec fn order(self) -> Seq<TasksView> {
        requests(self.completed) + self.in_flight() + requests(self.pending)
    }

    /// The queue with one more request waiting.
    pub open spec fn submit(self, task: TaskView) -> TaskHandlerView {
        TaskHandlerView { pending: self.pending.push(task), ..self }
    }

    /// The queue once the worker has taken up what it can: while no request
    /// is in flight, the oldest waiting one enters the provider, and one that
    /// needs no call is finished at once.
    pub open spec fn settle(self) -> TaskHandlerView
        decreases self.pending.len(),
    {
        if self.running is Some || self.pending.len() == 0 {
            self
        } else {
            let run = RunView::start(self.pending[0].request, self.platform);
            if run.stage == Stage::Done {
                TaskHandlerView {
                    pending: self.pending.remove(0),
                    completed: self.completed.push(run.task),
                    ..self
                }.settle()
            } else {
                TaskHandlerView { pending: self.pending.remove(0), running: Some(run), ..self }
            }
        }
    }

    /// The call that the worker is to make; none when nothing is in flight.
    pub open spec fn call(self) -> Option<CallView> {
        match self.running {
            Some(run) => run.call(),
            None => None,
        }
    }

    /// Whether a reply answers the call of the request in flight.
    pub open spec fn expects(self, reply: ReplyView) -> bool {
        self.running matches Some(run) && run.stage.expects(reply)
    }

    /// The queue after the reply to the call of the request in flight: the
    /// request stays in flight while it has calls to make, and joins the
    /// finished tasks behind all earlier ones when it has its response.
    pub open spec fn deliver(self, reply: ReplyView) -> TaskHandlerView {
        match self.running {
            Some(run) => {
                let next = run.advance(reply);
                if next.stage == Stage::Done {
                    TaskHandlerView {
                        running: None,
                        completed: self.completed.push(next.task),
                        ..self
                    }
                } else {
                    TaskHandlerView { running: Some(next), ..self }
                }
            },
            None => self,
        }
    }

    /// The queue after a poll: the finished tasks are gone, all at once.
    pub open spec fn drained(self) -> TaskHandlerView {
        TaskHandlerView { completed: Seq::empty(), ..self }
    }

    /// What a poll returns: nothing where no task is finished, else the
    /// events of all finished tasks, oldest first.
    pub open spec fn batch(self) -> Option<Seq<UserEventView>> {
        if self.completed.len() == 0 {
            None
        } else {
            Some(responses(self.completed))
        }
    }
}

/// The view of an optional batch.
pub open spec fn batch_of(batch: Option<UserEventIter>) -> Option<Seq<UserEventView>> {
    match batch {
        Some(b) => Some(b@),
        None => None,
    }
}

impl TaskHandler {
    /// A queue that holds nothing.
    pub fn new(config: Config) -> (made: Self)
        ensures
            made@ == TaskHandlerView::fresh(config.auth.auth),
            made@.wf(),
            made.config == config,
    {
        let made = TaskHandler {
            pending: Vec::new(),
            running: None,
            completed: Vec::new(),
            config,
        };
        assert(tasks_view(made.pending@) =~= Seq::empty());
        assert(tasks_view(made.completed@) =~= Seq::empty());
        made
    }

    /// Whether the queue is well formed.
    pub fn is_wf(&self) -> (ok: bool)
        ensures
            ok == self@.wf(),
    {
        let mut i: usize = 0;
        while i < self.completed.len()
            invariant
                i <= self.completed.len(),
                forall|j: int| 0 <= j < i ==> (#[trigger] self@.completed[j]).response is Some,
            decreases self.completed.len() - i,
        {
            if self.completed[i].response.is_none() {
                assert(self@.completed[i as int].response is None);
                return false;
            }
            i += 1;
        }
        match &self.running {
            Some(run) => !run.is_done() && run.task.response.is_none(),
            None => true,
        }
    }

    /// Submits a task. Nothing is returned: its event comes with a later poll.
    pub fn add_task(&mut self, task: Task)
        ensures
            final(self)@ == old(self)@.submit(task@),
            final(self)@.order() == old(self)@.order().push(task@.request),
            old(self)@.wf() ==> final(self)@.wf(),
    {
        self.pending.push(task);
        assert(tasks_view(self.pending@) =~= tasks_view(old(self).pending@).push(task@));
        assert(self@.order() =~= old(self)@.order().push(task@.request));
    }

    /// The worker's turn to look: takes up the oldest waiting request where
    /// none is in flight, and says which call to the provider is due. No
    /// call is due exactly when nothing is in flight, and then nothing waits.
    pub fn next_call(&mut self) -> (call: Option<Call>)
        requires
            old(self)@.wf(),
        ensures
            final(self)@ == old(self)@.settle(),
            final(self)@.wf(),
            final(self)@.order() == old(self)@.order(),
            old(self)@.running is Some ==> final(self)@ == old(self)@,
            call_of(call) == final(self)@.call(),
            call is None <==> final(self)@.running is None,
            call is None ==> final(self)@.pending.len() == 0,
    {
        while self.running.is_none() && self.pending.len() > 0
            invariant
                self@.wf(),
                self@.settle() == old(self)@.settle(),
                self@.order() == old(self)@.order(),
            decreases self.pending.len(),
        {
            let ghost before = self@;
            let task = self.pending.remove(0);
            let run = Run::start(task, &self.config);
            assert(tasks_view(self.pending@) =~= before.pending.remove(0));
            if run.is_done() {
                self.completed.push(run.task);
                assert(tasks_view(self.completed@) =~= before.completed.push(run@.task));
            } else {
                self.running = Some(run);
            }
            assert(self@.order() =~= before.order());
        }
        match &self.running {
            Some(run) => run.call(),
            None => None,
        }
    }

    /// Whether a reply answers the call of the request in flight.
    pub fn expects(&self, reply: &Reply) -> (fits: bool)
        ensures
            fits == self@.expects(reply@),
    {
        match &self.running {
            Some(run) => run.expects(reply),
            None => false,
        }
    }

    /// Takes the reply to the call that was due. The request in flight
    /// either has another call to make, or is finished and joins the
    /// finished tasks behind all earlier ones.
    pub fn deliver(&mut self, reply: Reply)
        requires
            old(self)@.wf(),
            old(self)@.expects(reply@),
        ensures
            final(self)@ == old(self)@.deliver(reply@),
            final(self)@.wf(),
            final(self)@.order() == old(self)@.order(),
    {
        let running = self.running.take();
        match running {
            Some(run) => {
                let next = run.advance(reply);
                if next.is_done() {
                    self.completed.push(next.task);
                    assert(tasks_view(self.completed@) =~= old(self)@.completed.push(next@.task));
                } else {
                    self.running = Some(next);
                }
                assert(self@.order() =~= old(self)@.order());
            },
            None => {},
        }
    }

    /// Hands over what is finished, without waiting for anything: nothing
    /// where no task is finished, else one batch with the events of all
    /// finished tasks, oldest first, which then leave the queue.
    pub fn poll(&mut self) -> (batch: Option<UserEventIter>)
        ensures
            batch_of(batch) == old(self)@.batch(),
            old(self)@.completed.len() == 0 ==> *final(self) == *old(self),
            final(self)@ == old(self)@.drained(),
    {
        if self.completed.len() == 0 {
            assert(self@.completed =~= Seq::empty());
            return None;
        }
        let mut events: Vec<UserEvent> = Vec::new();
        let mut i: usize = 0;
        while i < self.completed.len()
            invariant
                i <= self.completed.len(),
                *self == *old(self),
                crate::constants::events_view(events@) == responses(
                    tasks_view(self.completed@).take(i as int),
                ),
            decreases self.completed.len() - i,
        {
            let ghost seen = tasks_view(self.completed@).take(i as int);
            let ghost more = tasks_view(self.completed@).take(i + 1);
            assert(more.drop_last() =~= seen);
            assert(more.last() == self.completed[i as int]@);
            match &self.completed[i].response {
                Some(event) => {
                    let ghost before = crate::constants::events_view(events@);
                    events.push(event.copy());
                    assert(crate::constants::events_view(events@) =~= before.push(event@));
                },
                None => {},
            }
            i += 1;
        }
        assert(tasks_view(self.completed@).take(i as int) =~= tasks_view(self.completed@));
        self.completed.clear();
        assert(tasks_view(self.completed@) =~= Seq::empty());
        Some(UserEventIter::new(events))
    }
}

/// A task's response is written once. Until a run is done its task has no
/// response; the step that ends the run writes it; and a run that is done
/// expects no reply, so nothing writes it again.
pub proof fn lemma_response_is_written_once(run: RunView, reply: ReplyView)
    requires
        run.sound(),
        run.stage.expects(reply),
    ensures
        run.task.response is None,
        run.advance(reply).sound(),
        run.advance(reply).task.request == run.task.request,
        run.advance(reply).stage == Stage::Done ==> forall|later: ReplyView|
            !run.advance(reply).stage.expects(later),
{
}

/// Every request is answered after at most two calls to the provider, and
/// each reply leaves fewer calls to make.
pub proof fn lemma_run_ends(request: TasksView, platform: AuthPlatform, reply: ReplyView)
    ensures
        RunView::start(request, platform).sound(),
        RunView::start(request, platform).stage.calls_left() <= 2,
        request is Nop <==> RunView::start(request, platform).stage == Stage::Done,
        forall|run: RunView|
            run.sound() && run.stage.expects(reply) ==> #[trigger] run.advance(
                reply,
            ).stage.calls_left() < run.stage.calls_left(),
{
}

/// One move in the life of a queue between two polls.
pub enum Op {
    /// A request is submitted.
    Submit(TaskView),
    /// The worker looks for work.
    Look,
    /// The worker delivers the reply to the call that was due.
    Deliver(ReplyView),
}

/// The requests that a list of moves submits, in order.
pub open spec fn submitted(ops: Seq<Op>) -> Seq<TasksView>
    decreases ops.len(),
{
    if ops.len() == 0 {
        Seq::empty()
    } else {
        match ops.last() {
            Op::Submit(task) => submitted(ops.drop_last()).push(task.request),
            _ => submitted(ops.drop_last()),
        }
    }
}

impl TaskHandlerView {
    /// The queue after one move.
    pub open spec fn step(self, op: Op) -> TaskHandlerView {
        match op {
            Op::Submit(task) => self.submit(task),
            Op::Look => self.settle(),
            Op::Deliver(reply) => self.deliver(reply),
        }
    }

    /// Whether a move can be made: a reply can be delivered only to the
    /// call that is due.
    pub open spec fn allows(self, op: Op) -> bool {
        op matches Op::Deliver(reply) ==> self.expects(reply)
    }

    /// The queue after a list of moves.
    pub open spec fn after(self, ops: Seq<Op>) -> TaskHandlerView
        decreases ops.len(),
    {
        if ops.len() == 0 {
            self
        } else {
            self.after(ops.drop_last()).step(ops.last())
        }
    }

    /// Whether each move of a list can be made in its turn.
    pub open spec fn admits(self, ops: Seq<Op>) -> bool
        decreases ops.len(),
    {
        ops.len() == 0 || (self.admits(ops.drop_last()) && self.after(ops.drop_last()).allows(
            ops.last(),
        ))
    }
}

/// Taking up work neither loses nor reorders a request, and leaves the
/// queue well formed.
pub proof fn lemma_settle_keeps_order(queue: TaskHandlerView)
    requires
        queue.wf(),
    ensures
        queue.settle().wf(),
        queue.settle().order() == queue.order(),
        queue.settle().running is None ==> queue.settle().pending.len() == 0,
    decreases queue.pending.len(),
{
    if queue.running is Some || queue.pending.len() == 0 {
    } else {
        let run = RunView::start(queue.pending[0].request, queue.platform);
        if run.stage == Stage::Done {
            let next = TaskHandlerView {
                pending: queue.pending.remove(0),
                completed: queue.completed.push(run.task),
                ..queue
            };
            assert(next.order() =~= queue.order());
            lemma_settle_keeps_order(next);
        } else {
            assert(queue.settle().order() =~= queue.order());
        }
    }
}

/// A delivered reply neither loses nor reorders a request, and leaves the
/// queue well formed.
pub proof fn lemma_deliver_keeps_order(queue: TaskHandlerView, reply: ReplyView)
    requires
        queue.wf(),
        queue.expects(reply),
    ensures
        queue.deliver(reply).wf(),
        queue.deliver(reply).order() == queue.order(),
{
    assert(queue.deliver(reply).order() =~= queue.order());
}

/// Where every task has its response, the events handed over are those
/// responses, one for each task and in the tasks' order.
pub proof fn lemma_responses_of_finished(tasks: Seq<TaskView>)
    requires
        forall|i: int| 0 <= i < tasks.len() ==> (#[trigger] tasks[i]).response is Some,
    ensures
        responses(tasks).len() == tasks.len(),
        forall|i: int|
            0 <= i < tasks.len() ==> Some(#[trigger] responses(tasks)[i]) == tasks[i].response,
    decreases tasks.len(),
{
    if tasks.len() > 0 {
        lemma_responses_of_finished(tasks.drop_last());
    }
}

/// While a request is in flight the worker takes up no other: a look
/// changes nothing, and a delivered reply touches only the request in
/// flight, which either stays in flight or becomes the newest finished task.
pub proof fn lemma_one_request_in_flight(queue: TaskHandlerView, reply: ReplyView)
    requires
        queue.wf(),
        queue.running is Some,
        queue.expects(reply),
    ensures
        queue.settle() == queue,
        queue.deliver(reply).pending == queue.pending,
        queue.deliver(reply).running matches Some(run) ==> run.task.request
            == queue.running->Some_0.task.request && queue.deliver(reply).completed
            == queue.completed,
        queue.deliver(reply).running is None ==> queue.deliver(reply).completed
            == queue.completed.push(queue.running->Some_0.advance(reply).task),
{
}

/// First in, first out. Start from an empty queue and make any moves that
/// submit requests and let the worker run, with no poll between them. Then
/// the queue holds exactly the submitted requests in the order of their
/// submission, the finished ones first, and the next poll hands over one
/// event for each finished task: the response to the first submitted
/// request first, then that to the second, and so on.
pub proof fn lemma_fifo_delivery(platform: AuthPlatform, ops: Seq<Op>)
    requires
        TaskHandlerView::fresh(platform).admits(ops),
    ensures
        ({
            let queue = TaskHandlerView::fresh(platform).after(ops);
            let batch = responses(queue.completed);
            &&& queue.wf()
            &&& queue.order() == submitted(ops)
            &&& queue.completed.len() <= submitted(ops).len()
            &&& batch.len() == queue.completed.len()
            &&& forall|i: int|
                0 <= i < batch.len() ==> (#[trigger] queue.completed[i]).request == submitted(
                    ops,
                )[i] && Some(batch[i]) == queue.completed[i].response
            &&& queue.running is None && queue.pending.len() == 0 ==> batch.len() == submitted(
                ops,
            ).len()
        }),
    decreases ops.len(),
{
    let fresh = TaskHandlerView::fresh(platform);
    if ops.len() == 0 {
        assert(fresh.order() =~= Seq::<TasksView>::empty());
    } else {
        lemma_fifo_delivery(platform, ops.drop_last());
        let before = fresh.after(ops.drop_last());
        match ops.last() {
            Op::Submit(task) => {
                assert(before.submit(task).order() =~= before.order().push(task.request));
            },
            Op::Look => {
                lemma_settle_keeps_order(before);
            },
            Op::Deliver(reply) => {
                lemma_deliver_keeps_order(before, reply);
            },
        }
    }
    let queue = fresh.after(ops);
    lemma_responses_of_finished(queue.completed);
    assert forall|i: int| 0 <= i < queue.completed.len() implies (#[trigger] queue.completed[i]).request
        == submitted(ops)[i] by {
        assert(queue.order()[i] == requests(queue.completed)[i]);
    }
    assert(queue.order().len() == queue.completed.len() + queue.in_flight().len()
        + queue.pending.len());
}

} // verus!
