//! The guest control protocol: three operations carried over HTTP on the
//! bridging socket, none of which returns more than a status code and a short
//! body. The host never waits for the guest to finish what it was asked for.
//!
//! The channel is not authenticated. It is trusted because only the host can
//! reach the bridging socket.

use crate::text::{no_lines, push_str_line, views};
use vstd::prelude::*;

verus! {

/// An HTTP method of the control protocol.
#[derive(Clone, Copy, Debug, PartialEq, Eq, Structural)]
pub enum Method {
    Get,
    Post,
}

/// An operation that the guest agent offers.
#[derive(Clone, Copy, Debug, PartialEq, Eq, Structural)]
pub enum Operation {
    /// Asks whether the guest agent is up.
    Ready,
    /// Asks the guest to power off.
    Shutdown,
    /// Asks the guest to open an interactive terminal.
    SpawnTerminal,
}

/// What the guest agent answers.
pub struct Response {
    /// The HTTP status code.
    pub status: u16,
    /// The body.
    pub body: String,
}

/// A process that the guest agent starts to carry out an operation.
pub struct GuestCommand {
    /// The program and its arguments.
    pub argv: Vec<String>,
    /// The directory in which it runs, where one is set.
    pub working_dir: Option<String>,
    /// One environment variable and its value, where one is set.
    pub env: Option<(String, String)>,
}

impl Method {
    /// The method's name on the wire.
    pub open spec fn spec_name(self) -> Seq<char> {
        match self {
            Method::Get => "GET"@,
            Method::Post => "POST"@,
        }
    }

    /// The method's name on the wire.
    pub fn name(self) -> (name: &'static str)
        ensures
            name@ == self.spec_name(),
    {
        match self {
            Method::Get => "GET",
            Method::Post => "POST",
        }
    }
}

impl Operation {
    /// The method with which the operation is requested.
    pub open spec fn spec_method(self) -> Method {
        match self {
            Operation::Ready => Method::Get,
            Operation::Shutdown => Method::Post,
            Operation::SpawnTerminal => Method::Post,
        }
    }

    /// The path at which the operation is requested.
    pub open spec fn spec_path(self) -> Seq<char> {
        match self {
            Operation::Ready => "/ready"@,
            Operation::Shutdown => "/shutdown"@,
            Operation::SpawnTerminal => "/spawn-terminal"@,
        }
    }

    /// The address at which the host requests the operation, through the
    /// bridging socket.
    pub open spec fn spec_url(self) -> Seq<char> {
        "http://localhost"@ + self.spec_path()
    }

    /// The status code with which the guest answers.
    pub open spec fn spec_status(self) -> u16 {
        match self {
            Operation::Ready => 200,
            Operation::Shutdown => 201,
            Operation::SpawnTerminal => 201,
        }
    }

    /// The body with which the guest answers.
    pub open spec fn spec_body(self) -> Seq<char> {
        match self {
            Operation::Ready => "OK"@,
            Operation::Shutdown => "Shutdown initiated"@,
            Operation::SpawnTerminal => "Spawned"@,
        }
    }

    /// The operation that a request with this method and path asks for, if any.
    pub open spec fn spec_lookup(method: Method, path: Seq<char>) -> Option<Operation> {
        if method == Method::Get && path == "/ready"@ {
            Some(Operation::Ready)
        } else if method == Method::Post && path == "/shutdown"@ {
            Some(Operation::Shutdown)
        } else if method == Method::Post && path == "/spawn-terminal"@ {
            Some(Operation::SpawnTerminal)
        } else {
            None
        }
    }

    /// The method with which the operation is requested.
    pub fn method(self) -> (method: Method)
        ensures
            method == self.spec_method(),
    {
        match self {
            Operation::Ready => Method::Get,
            Operation::Shutdown => Method::Post,
            Operation::SpawnTerminal => Method::Post,
        }
    }

    /// The path at which the operation is requested.
    pub fn path(self) -> (path: &'static str)
        ensures
            path@ == self.spec_path(),
    {
        match self {
            Operation::Ready => "/ready",
            Operation::Shutdown => "/shutdown",
            Operation::SpawnTerminal => "/spawn-terminal",
        }
    }

    /// The address at which the host requests the operation.
    pub fn url(self) -> (url: String)
        ensures
            url@ == self.spec_url(),
    {
        let mut url = String::from_str("http://localhost");
        url.append(self.path());
        url
    }

    /// What the guest agent answers to the operation.
    pub fn respond(self) -> (response: Response)
        ensures
            response.status == self.spec_status(),
            response.body@ == self.spec_body(),
    {
        match self {
            Operation::Ready => Response { status: 200, body: String::from_str("OK") },
            Operation::Shutdown => Response {
                status: 201,
                body: String::from_str("Shutdown initiated"),
            },
            Operation::SpawnTerminal => Response { status: 201, body: String::from_str("Spawned") },
        }
    }

    /// The operation that a request with this method and path asks for: each
    /// operation is found by its own method and path, and nothing else is an
    /// operation.
    pub fn lookup(method: Method, path: &str) -> (found: Option<Operation>)
        ensures
            found == Operation::spec_lookup(method, path@),
            forall|operation: Operation|
                found == Some(operation) <==> method == operation.spec_method() && path@
                    == #[trigger] operation.spec_path(),
    {
        proof {
            lemma_paths_differ();
        }
        let path = String::from_str(path);
        match method {
            Method::Get => {
                if path == String::from_str("/ready") {
                    Some(Operation::Ready)
                } else {
                    None
                }
            },
            Method::Post => {
                if path == String::from_str("/shutdown") {
                    Some(Operation::Shutdown)
                } else if path == String::from_str("/spawn-terminal") {
                    Some(Operation::SpawnTerminal)
                } else {
                    None
                }
            },
        }
    }

    /// Whether this is the process that the guest agent starts for the
    /// operation.
    pub open spec fn starts(self, command: GuestCommand) -> bool {
        match self {
            Operation::Ready => false,
            Operation::Shutdown => {
                &&& views(command.argv@) =~= seq!["sudo"@, "shutdown"@, "-h"@, "now"@]
                &&& command.working_dir is None
                &&& command.env is None
            },
            Operation::SpawnTerminal => {
                &&& views(command.argv@) =~= seq!["x-terminal-emulator"@]
                &&& command.working_dir matches Some(dir) && dir@ == "/home/user"@
                &&& command.env matches Some(pair) && pair.0@ == "XDG_RUNTIME_DIR"@ && pair.1@
                    == "/run/user/1000"@
            },
        }
    }

    /// The process that the guest agent starts to carry out the operation: a
    /// privileged power-off, or a terminal emulator in the guest's desktop
    /// session. The readiness probe starts nothing.
    pub fn guest_command(self) -> (command: Option<GuestCommand>)
        ensures
            self == Operation::Ready <==> command is None,
            command matches Some(c) ==> self.starts(c),
    {
        match self {
            Operation::Ready => None,
            Operation::Shutdown => {
                let mut argv = no_lines();
                push_str_line(&mut argv, "sudo");
                push_str_line(&mut argv, "shutdown");
                push_str_line(&mut argv, "-h");
                push_str_line(&mut argv, "now");
                Some(GuestCommand { argv, working_dir: None, env: None })
            },
            Operation::SpawnTerminal => {
                let mut argv = no_lines();
                push_str_line(&mut argv, "x-terminal-emulator");
                Some(
                    GuestCommand {
                        argv,
                        working_dir: Some(String::from_str("/home/user")),
                        env: Some(
                            (
                                String::from_str("XDG_RUNTIME_DIR"),
                                String::from_str("/run/user/1000"),
                            ),
                        ),
                    },
                )
            },
        }
    }
}

/// The address on which the guest agent listens inside the guest.
pub fn agent_address() -> (address: &'static str)
    ensures
        address@ == "127.0.0.1:3000"@,
{
    "127.0.0.1:3000"
}

/// The three paths are pairwise different.
pub proof fn lemma_paths_differ()
    ensures
        Operation::Ready.spec_path() != Operation::Shutdown.spec_path(),
        Operation::Ready.spec_path() != Operation::SpawnTerminal.spec_path(),
        Operation::Shutdown.spec_path() != Operation::SpawnTerminal.spec_path(),
{
    reveal_strlit("/ready");
    reveal_strlit("/shutdown");
    reveal_strlit("/spawn-terminal");
    assert("/ready"@.len() == 6);
    assert("/shutdown"@.len() == 9);
    assert("/spawn-terminal"@.len() == 15);
}

/// Each operation is found again by its own method and path.
pub proof fn lemma_lookup_finds_each(operation: Operation)
    ensures
        Operation::spec_lookup(operation.spec_method(), operation.spec_path()) == Some(operation),
{
    lemma_paths_differ();
}

} // verus!
