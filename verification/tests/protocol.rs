use bubbles::protocol::{agent_address, Method, Operation};

const ALL: [Operation; 3] = [Operation::Ready, Operation::Shutdown, Operation::SpawnTerminal];

#[test]
fn readiness_is_a_get_of_ready() {
    assert_eq!(Operation::Ready.method(), Method::Get);
    assert_eq!(Operation::Ready.path(), "/ready");
    assert_eq!(Operation::Ready.url(), "http://localhost/ready");
}

#[test]
fn shutdown_is_a_post_of_shutdown() {
    assert_eq!(Operation::Shutdown.method(), Method::Post);
    assert_eq!(Operation::Shutdown.path(), "/shutdown");
    assert_eq!(Operation::Shutdown.url(), "http://localhost/shutdown");
}

#[test]
fn a_terminal_is_a_post_of_spawn_terminal() {
    assert_eq!(Operation::SpawnTerminal.method(), Method::Post);
    assert_eq!(Operation::SpawnTerminal.path(), "/spawn-terminal");
    assert_eq!(Operation::SpawnTerminal.url(), "http://localhost/spawn-terminal");
}

#[test]
fn methods_have_their_names() {
    assert_eq!(Method::Get.name(), "GET");
    assert_eq!(Method::Post.name(), "POST");
}

#[test]
fn readiness_is_answered_with_ok() {
    let response = Operation::Ready.respond();
    assert_eq!(response.status, 200);
    assert_eq!(response.body, "OK");
}

#[test]
fn shutdown_and_terminal_are_answered_with_created() {
    let response = Operation::Shutdown.respond();
    assert_eq!(response.status, 201);
    assert_eq!(response.body, "Shutdown initiated");
    let response = Operation::SpawnTerminal.respond();
    assert_eq!(response.status, 201);
    assert_eq!(response.body, "Spawned");
}

#[test]
fn each_operation_is_found_by_its_method_and_path() {
    for operation in ALL {
        assert_eq!(Operation::lookup(operation.method(), operation.path()), Some(operation));
    }
}

#[test]
fn nothing_else_is_an_operation() {
    assert_eq!(Operation::lookup(Method::Post, "/ready"), None);
    assert_eq!(Operation::lookup(Method::Get, "/shutdown"), None);
    assert_eq!(Operation::lookup(Method::Get, "/spawn-terminal"), None);
    assert_eq!(Operation::lookup(Method::Get, "/"), None);
    assert_eq!(Operation::lookup(Method::Get, ""), None);
    assert_eq!(Operation::lookup(Method::Get, "/ready/"), None);
    assert_eq!(Operation::lookup(Method::Get, "ready"), None);
    assert_eq!(Operation::lookup(Method::Post, "/Shutdown"), None);
    assert_eq!(Operation::lookup(Method::Post, "/spawn_terminal"), None);
}

#[test]
fn the_readiness_probe_starts_nothing_in_the_guest() {
    assert!(Operation::Ready.guest_command().is_none());
}

#[test]
fn shutdown_powers_the_guest_off() {
    let command = Operation::Shutdown.guest_command().unwrap();
    assert_eq!(command.argv, vec!["sudo", "shutdown", "-h", "now"]);
    assert_eq!(command.working_dir, None);
    assert_eq!(command.env, None);
}

#[test]
fn a_terminal_is_spawned_in_the_desktop_session() {
    let command = Operation::SpawnTerminal.guest_command().unwrap();
    assert_eq!(command.argv, vec!["x-terminal-emulator"]);
    assert_eq!(command.working_dir, Some("/home/user".to_string()));
    assert_eq!(
        command.env,
        Some(("XDG_RUNTIME_DIR".to_string(), "/run/user/1000".to_string()))
    );
}

#[test]
fn the_agent_listens_on_the_loopback() {
    assert_eq!(agent_address(), "127.0.0.1:3000");
}
