use carton::app::tasks::{Call, Reply, Run, Stage, Task, TaskHandler, Tasks};
use carton::constants::{
    Args, AuthPlatform, Config, EventKind, Server, ServerHandle, UserEvent,
};

fn config() -> Config {
    Config::new(Args { auth: AuthPlatform::Hetzner, token: "secret".to_string() })
}

fn server(name: &str) -> Server {
    Server {
        name: name.to_string(),
        running: true,
        status: "Running".to_string(),
        ipv4: Some("10.0.0.1".to_string()),
        created: "2024-01-01".to_string(),
        datacenter: "fsn1-dc14".to_string(),
        image: Some("fedora-41".to_string()),
        labels: "{}".to_string(),
        ingoing_traffic: Some(2048),
        outgoing_traffic: None,
        primary_disk_size: 40,
        server_type: "cx22".to_string(),
    }
}

fn finish(handler: &mut TaskHandler, replies: Vec<Reply>) {
    for reply in replies {
        assert!(handler.next_call().is_some());
        assert!(handler.expects(&reply));
        handler.deliver(reply);
    }
}

fn kinds(events: &[UserEvent]) -> Vec<EventKind> {
    events.iter().map(|event| event.kind()).collect()
}

#[test]
fn new_task_has_no_response() {
    let task = Task::new(Tasks::FetchServers);
    assert_eq!(task.request, Tasks::FetchServers);
    assert!(task.response.is_none());
}

#[test]
fn default_task_is_idle() {
    let task = Task::default();
    assert_eq!(task.request, Tasks::Nop);
    assert!(task.response.is_none());
}

#[test]
fn status_refresh_success() {
    let run = Run::start(Task::new(Tasks::ProviderStatus), &config());
    assert_eq!(run.call(), Some(Call::ListServers));
    let run = run.advance(Reply::Servers(vec![server("a"), server("b"), server("c")]));
    assert!(run.task.response.is_none());
    assert_eq!(run.call(), Some(Call::ListPrimaryIps));
    let run = run.advance(Reply::PrimaryIps(1));
    assert!(run.is_done());
    assert_eq!(run.call(), None);
    match run.task.response {
        Some(UserEvent::ProviderStatus(status)) => {
            assert_eq!(status.name, "Hetzner");
            assert_eq!(status.status, "Connected");
            assert_eq!(status.servers, 3);
            assert_eq!(status.primary_ips, 1);
            assert_eq!(status.firewalls, 0);
            assert_eq!(status.load_balancers, 0);
        }
        other => panic!("unexpected response {:?}", other),
    }
}

#[test]
fn status_refresh_failure() {
    let run = Run::start(Task::new(Tasks::ProviderStatus), &config());
    let run = run.advance(Reply::Failed("unauthorized".to_string()));
    assert_eq!(run.stage, Stage::PrimaryIps);
    let run = run.advance(Reply::PrimaryIps(2));
    match run.task.response {
        Some(UserEvent::ProviderStatus(status)) => {
            assert!(status.status.starts_with("Disconnected, Error:"));
            assert_eq!(status.status, "Disconnected, Error: unauthorized");
            assert_eq!(status.servers, 0);
            assert_eq!(status.primary_ips, 2);
        }
        other => panic!("unexpected response {:?}", other),
    }
}

#[test]
fn status_refresh_shows_the_later_failure() {
    let run = Run::start(Task::new(Tasks::ProviderStatus), &config());
    let run = run.advance(Reply::Failed("first".to_string()));
    let run = run.advance(Reply::Failed("second".to_string()));
    match run.task.response {
        Some(UserEvent::ProviderStatus(status)) => {
            assert_eq!(status.status, "Disconnected, Error: second");
        }
        other => panic!("unexpected response {:?}", other),
    }
}

#[test]
fn fetch_servers_keeps_the_provider_order() {
    let run = Run::start(Task::new(Tasks::FetchServers), &config());
    assert_eq!(run.call(), Some(Call::ListServers));
    let run = run.advance(Reply::Servers(vec![server("one"), server("two")]));
    assert!(run.is_done());
    match run.task.response {
        Some(UserEvent::ServerListStatus(list)) => {
            assert_eq!(list.servers.len(), 2);
            assert_eq!(list.servers[0], ServerHandle::Hetzner(Box::new(server("one"))));
            assert_eq!(list.servers[1], ServerHandle::Hetzner(Box::new(server("two"))));
        }
        other => panic!("unexpected response {:?}", other),
    }
}

#[test]
fn fetch_servers_failure_is_an_error_event() {
    let run = Run::start(Task::new(Tasks::FetchServers), &config());
    let run = run.advance(Reply::Failed("timeout".to_string()));
    assert!(run.is_done());
    match run.task.response {
        Some(UserEvent::Error(message)) => assert_eq!(message, "Cannot fetch servers: timeout"),
        other => panic!("unexpected response {:?}", other),
    }
}

#[test]
fn create_server_asks_for_keys_then_creates() {
    let request = Tasks::CreateServer("web".to_string(), "cx22".to_string(), "debian".to_string());
    let run = Run::start(Task::new(request), &config());
    assert_eq!(run.call(), Some(Call::ListSshKeys));
    let run = run.advance(Reply::SshKeys(vec!["laptop".to_string(), "desk".to_string()]));
    assert!(!run.is_done());
    match run.call() {
        Some(Call::CreateServer(asked)) => {
            assert_eq!(asked.name, "web");
            assert_eq!(asked.server_type, "cx22");
            assert_eq!(asked.image, "fedora-41");
            assert_eq!(asked.location, "fsn1");
            assert_eq!(asked.ssh_keys, vec!["laptop".to_string(), "desk".to_string()]);
            assert!(asked.start_after_create);
            assert!(!asked.enable_ipv4);
        }
        other => panic!("unexpected call {:?}", other),
    }
    let run = run.advance(Reply::Created);
    assert!(run.is_done());
    assert!(matches!(run.task.response, Some(UserEvent::Refresh)));
}

#[test]
fn create_server_without_keys_is_an_error_event() {
    let request = Tasks::CreateServer("web".to_string(), "cx22".to_string(), String::new());
    let run = Run::start(Task::new(request), &config());
    let run = run.advance(Reply::Failed("denied".to_string()));
    assert!(run.is_done());
    match run.task.response {
        Some(UserEvent::Error(message)) => assert_eq!(message, "Cannot fetch ssh keys: denied"),
        other => panic!("unexpected response {:?}", other),
    }
}

#[test]
fn create_server_refused_is_an_error_event() {
    let request = Tasks::CreateServer("web".to_string(), "cx22".to_string(), String::new());
    let run = Run::start(Task::new(request), &config());
    let run = run.advance(Reply::SshKeys(Vec::new()));
    let run = run.advance(Reply::Failed("quota".to_string()));
    match run.task.response {
        Some(UserEvent::Error(message)) => assert_eq!(message, "Cannot create server: quota"),
        other => panic!("unexpected response {:?}", other),
    }
}

#[test]
fn idle_request_is_answered_at_once() {
    let run = Run::start(Task::new(Tasks::Nop), &config());
    assert!(run.is_done());
    assert_eq!(run.call(), None);
    assert!(matches!(run.task.response, Some(UserEvent::Empty)));
}

#[test]
fn a_run_expects_the_reply_to_its_call() {
    let run = Run::start(Task::new(Tasks::ProviderStatus), &config());
    assert!(run.expects(&Reply::Servers(Vec::new())));
    assert!(run.expects(&Reply::Failed(String::new())));
    assert!(!run.expects(&Reply::PrimaryIps(0)));
    assert!(!run.expects(&Reply::Created));
    let done = Run::start(Task::new(Tasks::Nop), &config());
    assert!(!done.expects(&Reply::Failed(String::new())));
}

#[test]
fn poll_of_an_empty_queue_returns_nothing() {
    let mut handler = TaskHandler::new(config());
    assert!(handler.poll().is_none());
    handler.add_task(Task::new(Tasks::FetchServers));
    assert!(handler.poll().is_none());
    assert_eq!(handler.pending.len(), 1);
    assert!(handler.running.is_none());
    assert!(handler.next_call().is_some());
    assert!(handler.poll().is_none());
    assert!(handler.running.is_some());
}

#[test]
fn fifo_delivery() {
    let mut handler = TaskHandler::new(config());
    handler.add_task(Task::new(Tasks::FetchServers));
    handler.add_task(Task::new(Tasks::ProviderStatus));
    handler.add_task(Task::new(Tasks::Nop));
    handler.add_task(Task::new(Tasks::CreateServer(
        "web".to_string(),
        "cx22".to_string(),
        String::new(),
    )));
    finish(
        &mut handler,
        vec![
            Reply::Servers(vec![server("a")]),
            Reply::Servers(vec![server("a")]),
            Reply::PrimaryIps(0),
            Reply::Failed("no keys".to_string()),
        ],
    );
    assert_eq!(handler.next_call(), None);
    let batch = handler.poll().expect("four tasks are finished");
    assert_eq!(
        kinds(&batch.events),
        vec![
            EventKind::ServerListStatus,
            EventKind::ProviderStatus,
            EventKind::Empty,
            EventKind::Error,
        ]
    );
    assert!(handler.poll().is_none());
}

#[test]
fn polls_between_completions_keep_the_order() {
    let mut handler = TaskHandler::new(config());
    handler.add_task(Task::new(Tasks::FetchServers));
    handler.add_task(Task::new(Tasks::ProviderStatus));
    finish(&mut handler, vec![Reply::Failed("down".to_string())]);
    let first = handler.poll().expect("one task is finished");
    assert_eq!(kinds(&first.events), vec![EventKind::Error]);
    handler.add_task(Task::new(Tasks::Nop));
    finish(&mut handler, vec![Reply::Servers(Vec::new()), Reply::PrimaryIps(4)]);
    assert_eq!(handler.next_call(), None);
    let second = handler.poll().expect("two tasks are finished");
    assert_eq!(kinds(&second.events), vec![EventKind::ProviderStatus, EventKind::Empty]);
}

#[test]
fn one_request_is_in_flight_at_a_time() {
    let mut handler = TaskHandler::new(config());
    handler.add_task(Task::new(Tasks::ProviderStatus));
    handler.add_task(Task::new(Tasks::FetchServers));
    assert_eq!(handler.next_call(), Some(Call::ListServers));
    assert_eq!(handler.pending.len(), 1);
    assert_eq!(handler.next_call(), Some(Call::ListServers));
    assert_eq!(handler.pending.len(), 1);
    handler.deliver(Reply::Servers(Vec::new()));
    assert_eq!(handler.next_call(), Some(Call::ListPrimaryIps));
    assert_eq!(handler.pending.len(), 1);
    assert!(handler.completed.is_empty());
    handler.deliver(Reply::PrimaryIps(0));
    assert_eq!(handler.completed.len(), 1);
    assert!(handler.running.is_none());
    assert_eq!(handler.next_call(), Some(Call::ListServers));
    assert_eq!(handler.pending.len(), 0);
    assert_eq!(handler.running.as_ref().map(|run| run.task.request.clone()), Some(Tasks::FetchServers));
}

#[test]
fn a_reply_is_expected_only_while_a_request_is_in_flight() {
    let mut handler = TaskHandler::new(config());
    assert!(!handler.expects(&Reply::Failed(String::new())));
    handler.add_task(Task::new(Tasks::FetchServers));
    assert!(!handler.expects(&Reply::Servers(Vec::new())));
    handler.next_call();
    assert!(handler.expects(&Reply::Servers(Vec::new())));
    assert!(!handler.expects(&Reply::Created));
}

#[test]
fn poll_hands_over_nothing_for_a_task_without_response() {
    let mut handler = TaskHandler::new(config());
    handler.completed.push(Task::new(Tasks::FetchServers));
    handler.completed.push(Task {
        request: Tasks::Nop,
        response: Some(UserEvent::Empty),
    });
    let batch = handler.poll().expect("the list of finished tasks is not empty");
    assert_eq!(kinds(&batch.events), vec![EventKind::Empty]);
    assert!(handler.completed.is_empty());
}

#[test]
fn a_queue_is_well_formed_until_it_is_tampered_with() {
    let mut handler = TaskHandler::new(config());
    assert!(handler.is_wf());
    handler.add_task(Task::new(Tasks::ProviderStatus));
    handler.next_call();
    assert!(handler.is_wf());
    handler.deliver(Reply::Servers(Vec::new()));
    handler.deliver(Reply::PrimaryIps(0));
    assert!(handler.is_wf());
    handler.completed.push(Task::new(Tasks::Nop));
    assert!(!handler.is_wf());
    handler.completed.clear();
    handler.running = Some(Run::start(Task::new(Tasks::Nop), &config()));
    assert!(!handler.is_wf());
}
