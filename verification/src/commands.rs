//! The command lines of the processes that the host starts: the two sidecars,
//! the hypervisor, the probes of the readiness poller and the requests to the
//! guest. Each is a list of arguments whose first is the program.

use crate::orchestrator::{Action, Probe, Role};
use crate::paths::{join, spec_join, VmPaths};
use crate::protocol::Operation;
use crate::text::{no_lines, push_line, push_str_line, views};
use vstd::prelude::*;

verus! {

/// What the host's environment gives: the working directory, the home
/// directory, under which the tools are installed, and the display session to
/// which the hypervisor attaches.
pub struct Host {
    /// The working directory, under which machines and images are stored.
    pub working_dir: String,
    /// The value of `HOME`.
    pub home: String,
    /// The value of `XDG_RUNTIME_DIR`.
    pub runtime_dir: String,
    /// The value of `WAYLAND_DISPLAY`.
    pub wayland_display: String,
}

/// The socket forwarder: it listens on the bridging socket and forwards each
/// connection to port 11111 of the guest with context id 3.
pub open spec fn spec_bridge_command(home: Seq<char>, bridge_socket: Seq<char>) -> Seq<Seq<char>> {
    seq![
        spec_join(home, "bubbles/socat"@),
        "UNIX-LISTEN:"@ + bridge_socket + ",fork"@,
        "VSOCK-CONNECT:3:11111"@,
    ]
}

/// The network backend, in the foreground and in vhost-user mode, bound to its
/// socket.
pub open spec fn spec_backend_command(home: Seq<char>, backend_socket: Seq<char>) -> Seq<
    Seq<char>,
> {
    seq![
        spec_join(home, "bubbles/passt"@),
        "-f"@,
        "--vhost-user"@,
        "--socket"@,
        backend_socket,
    ]
}

/// The hypervisor: four cores and 7000 MiB of memory, the machine's disk,
/// initrd and kernel, its management socket, the guest's context id 3, graphics
/// passed through to the host's display session, and the network backend's
/// socket.
pub open spec fn spec_hypervisor_command(host: Host, name: Seq<char>, paths: VmPaths) -> Seq<
    Seq<char>,
> {
    seq![
        spec_join(host.home@, "bubbles/crosvm"@),
        "run"@,
        "--name"@,
        name,
        "--cpus"@,
        "num-cores=4"@,
        "-m"@,
        "7000"@,
        "--rwdisk"@,
        paths.assets.disk@,
        "--initrd"@,
        paths.assets.initrd@,
        "--socket"@,
        paths.control_socket@,
        "--vsock"@,
        "3"@,
        "--gpu"@,
        "context-types=cross-domain,displays=[]"@,
        "--wayland-sock"@,
        spec_join(host.runtime_dir@, host.wayland_display@),
        "--vhost-user"@,
        "net,socket="@ + paths.backend_socket@,
        "-p"@,
        "root=/dev/vda2"@,
        paths.assets.kernel@,
    ]
}

/// The request to the hypervisor, over its management socket, to stop.
pub open spec fn spec_hypervisor_stop_command(home: Seq<char>, control_socket: Seq<char>) -> Seq<
    Seq<char>,
> {
    seq![spec_join(home, "bubbles/crosvm"@), "stop"@, control_socket]
}

/// One attempt of a probe: a shell runs the check on its argument and, where
/// the check fails, waits half a second before it fails too.
pub open spec fn spec_probe_command(check: Seq<char>, target: Seq<char>) -> Seq<Seq<char>> {
    seq!["sh"@, "-c"@, check + " || (sleep 0.5 && exit 1)"@, target]
}

/// The check that a path exists.
pub open spec fn spec_exists_check() -> Seq<char> {
    "stat $0"@
}

/// The check that the guest agent answers the readiness request.
pub open spec fn spec_ready_check() -> Seq<char> {
    "curl -sS --unix-socket $0 "@ + Operation::Ready.spec_url()
}

/// A request of an operation to the guest, over the bridging socket.
pub open spec fn spec_request_command(operation: Operation, bridge_socket: Seq<char>) -> Seq<
    Seq<char>,
> {
    seq![
        "curl"@,
        "-X"@ + operation.spec_method().spec_name(),
        "--unix-socket"@,
        bridge_socket,
        operation.spec_url(),
    ]
}

/// The command line of the socket forwarder.
pub fn bridge_command(home: &str, bridge_socket: &str) -> (argv: Vec<String>)
    ensures
        views(argv@) =~= spec_bridge_command(home@, bridge_socket@),
{
    let mut listen = String::from_str("UNIX-LISTEN:");
    listen.append(bridge_socket);
    listen.append(",fork");
    let mut argv = no_lines();
    push_line(&mut argv, join(home, "bubbles/socat"));
    push_line(&mut argv, listen);
    push_str_line(&mut argv, "VSOCK-CONNECT:3:11111");
    argv
}

/// The command line of the network backend.
pub fn backend_command(home: &str, backend_socket: &str) -> (argv: Vec<String>)
    ensures
        views(argv@) =~= spec_backend_command(home@, backend_socket@),
{
    let mut argv = no_lines();
    push_line(&mut argv, join(home, "bubbles/passt"));
    push_str_line(&mut argv, "-f");
    push_str_line(&mut argv, "--vhost-user");
    push_str_line(&mut argv, "--socket");
    push_str_line(&mut argv, backend_socket);
    argv
}

/// The command line of the hypervisor for one machine. It only starts the
/// guest; whether the guest is ready is found out by probing.
pub fn hypervisor_command(host: &Host, name: &str, paths: &VmPaths) -> (argv: Vec<String>)
    ensures
        views(argv@) =~= spec_hypervisor_command(*host, name@, *paths),
{
    let mut network = String::from_str("net,socket=");
    network.append(paths.backend_socket.as_str());
    let mut argv = no_lines();
    push_line(&mut argv, join(host.home.as_str(), "bubbles/crosvm"));
    push_str_line(&mut argv, "run");
    push_str_line(&mut argv, "--name");
    push_str_line(&mut argv, name);
    push_str_line(&mut argv, "--cpus");
    push_str_line(&mut argv, "num-cores=4");
    push_str_line(&mut argv, "-m");
    push_str_line(&mut argv, "7000");
    push_str_line(&mut argv, "--rwdisk");
    push_str_line(&mut argv, paths.assets.disk.as_str());
    push_str_line(&mut argv, "--initrd");
    push_str_line(&mut argv, paths.assets.initrd.as_str());
    push_str_line(&mut argv, "--socket");
    push_str_line(&mut argv, paths.control_socket.as_str());
    push_str_line(&mut argv, "--vsock");
    push_str_line(&mut argv, "3");
    push_str_line(&mut argv, "--gpu");
    push_str_line(&mut argv, "context-types=cross-domain,displays=[]");
    push_str_line(&mut argv, "--wayland-sock");
    push_line(&mut argv, join(host.runtime_dir.as_str(), host.wayland_display.as_str()));
    push_str_line(&mut argv, "--vhost-user");
    push_line(&mut argv, network);
    push_str_line(&mut argv, "-p");
    push_str_line(&mut argv, "root=/dev/vda2");
    push_str_line(&mut argv, paths.assets.kernel.as_str());
    argv
}

/// The command line that asks the hypervisor of one machine to stop.
pub fn hypervisor_stop_command(home: &str, control_socket: &str) -> (argv: Vec<String>)
    ensures
        views(argv@) =~= spec_hypervisor_stop_command(home@, control_socket@),
{
    let mut argv = no_lines();
    push_line(&mut argv, join(home, "bubbles/crosvm"));
    push_str_line(&mut argv, "stop");
    push_str_line(&mut argv, control_socket);
    argv
}

fn probe_command(check: String, target: &str) -> (argv: Vec<String>)
    ensures
        views(argv@) =~= spec_probe_command(check@, target@),
{
    let mut script = check;
    script.append(" || (sleep 0.5 && exit 1)");
    let mut argv = no_lines();
    push_str_line(&mut argv, "sh");
    push_str_line(&mut argv, "-c");
    push_line(&mut argv, script);
    push_str_line(&mut argv, target);
    argv
}

/// The command line of one attempt to find a path on disk.
pub fn exists_probe_command(path: &str) -> (argv: Vec<String>)
    ensures
        views(argv@) =~= spec_probe_command(spec_exists_check(), path@),
{
    probe_command(String::from_str("stat $0"), path)
}

/// The command line of one attempt to reach the guest agent through the
/// bridging socket.
pub fn ready_probe_command(bridge_socket: &str) -> (argv: Vec<String>)
    ensures
        views(argv@) =~= spec_probe_command(spec_ready_check(), bridge_socket@),
{
    let mut check = String::from_str("curl -sS --unix-socket $0 ");
    let url = Operation::Ready.url();
    check.append(url.as_str());
    probe_command(check, bridge_socket)
}

/// The command line of a request to the guest.
pub fn request_command(operation: Operation, bridge_socket: &str) -> (argv: Vec<String>)
    ensures
        views(argv@) =~= spec_request_command(operation, bridge_socket@),
{
    let mut method = String::from_str("-X");
    method.append(operation.method().name());
    let mut argv = no_lines();
    push_str_line(&mut argv, "curl");
    push_line(&mut argv, method);
    push_str_line(&mut argv, "--unix-socket");
    push_str_line(&mut argv, bridge_socket);
    push_line(&mut argv, operation.url());
    argv
}

/// The command line that downloads the base image.
pub fn download_command() -> (argv: Vec<String>)
    ensures
        views(argv@) =~= seq!["scripts/download.bash"@],
{
    let mut argv = no_lines();
    push_str_line(&mut argv, "scripts/download.bash");
    argv
}

/// The command line that an action of the orchestrator runs, for the machine
/// with these paths. Waiting, signalling and doing nothing run none.
pub open spec fn spec_command_for(action: Action, host: Host, name: Seq<char>, paths: VmPaths)
    -> Option<Seq<Seq<char>>> {
    match action {
        Action::Spawn(Role::Bridge) => Some(
            spec_bridge_command(host.home@, paths.bridge_socket@),
        ),
        Action::Spawn(Role::Backend) => Some(
            spec_backend_command(host.home@, paths.backend_socket@),
        ),
        Action::Spawn(Role::Hypervisor) => Some(spec_hypervisor_command(host, name, paths)),
        Action::Run(Probe::BackendSocket) => Some(
            spec_probe_command(spec_exists_check(), paths.backend_socket@),
        ),
        Action::Run(Probe::GuestReady) => Some(
            spec_probe_command(spec_ready_check(), paths.bridge_socket@),
        ),
        Action::Request(operation) => Some(spec_request_command(operation, paths.bridge_socket@)),
        Action::StopHypervisor => Some(
            spec_hypervisor_stop_command(host.home@, paths.control_socket@),
        ),
        Action::Nothing | Action::AwaitExit(_) | Action::Signal(_, _) => None,
    }
}

/// The command line that an action of the orchestrator runs, if it runs one.
pub fn command_for(action: Action, host: &Host, name: &str, paths: &VmPaths) -> (argv: Option<
    Vec<String>,
>)
    ensures
        argv is Some <==> spec_command_for(action, *host, name@, *paths) is Some,
        argv matches Some(lines) ==> views(lines@) =~= spec_command_for(
            action,
            *host,
            name@,
            *paths,
        )->0,
{
    match action {
        Action::Spawn(Role::Bridge) => Some(
            bridge_command(host.home.as_str(), paths.bridge_socket.as_str()),
        ),
        Action::Spawn(Role::Backend) => Some(
            backend_command(host.home.as_str(), paths.backend_socket.as_str()),
        ),
        Action::Spawn(Role::Hypervisor) => Some(hypervisor_command(host, name, paths)),
        Action::Run(Probe::BackendSocket) => Some(
            exists_probe_command(paths.backend_socket.as_str()),
        ),
        Action::Run(Probe::GuestReady) => Some(ready_probe_command(paths.bridge_socket.as_str())),
        Action::Request(operation) => Some(
            request_command(operation, paths.bridge_socket.as_str()),
        ),
        Action::StopHypervisor => Some(
            hypervisor_stop_command(host.home.as_str(), paths.control_socket.as_str()),
        ),
        Action::Nothing | Action::AwaitExit(_) | Action::Signal(_, _) => None,
    }
}

} // verus!
