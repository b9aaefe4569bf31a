//! Virtual machines as the registry lists them: one per directory under the
//! storage root, named after it, with a status derived from what lies in it.

use crate::widgets::{Button, Label};
use vstd::prelude::*;

verus! {

/// Where a virtual machine stands in its lifecycle.
#[derive(Clone, Copy, Debug, PartialEq, Eq, Structural)]
pub enum VMStatus {
    /// No hypervisor runs for the machine.
    NotRunning,
    /// The guest has confirmed that it is ready.
    Running,
    /// A start or stop was requested and is not confirmed yet.
    InFlux,
}

/// A virtual machine: its name, which is also the name of its directory, and
/// its status.
#[derive(Clone, Debug, PartialEq, Eq)]
pub struct VM {
    pub name: String,
    pub status: VMStatus,
}

/// A virtual machine, with its name as a sequence of characters.
pub struct VMView {
    pub name: Seq<char>,
    pub status: VMStatus,
}

impl View for VM {
    type V = VMView;

    open spec fn view(&self) -> VMView {
        VMView { name: self.name@, status: self.status }
    }
}

/// What a scan of the storage root found of one machine.
#[derive(Debug, PartialEq, Eq)]
pub struct VmDirectory {
    /// The name of the directory.
    pub name: String,
    /// Whether the hypervisor's control socket lies in it.
    pub control_socket_exists: bool,
}

/// The machines of a list, each by its view.
pub open spec fn vm_views(vms: Seq<VM>) -> Seq<VMView> {
    vms.map_values(|vm: VM| vm@)
}

/// The status that a control socket's presence stands for. A socket left behind
/// by a hypervisor that crashed looks like one in use.
pub open spec fn spec_running_status(socket_exists: bool) -> VMStatus {
    if socket_exists {
        VMStatus::Running
    } else {
        VMStatus::NotRunning
    }
}

/// Derives a machine's status from whether its control socket exists.
pub fn determine_running_status(socket_exists: bool) -> (status: VMStatus)
    ensures
        status == spec_running_status(socket_exists),
{
    if socket_exists {
        VMStatus::Running
    } else {
        VMStatus::NotRunning
    }
}

/// The machine that stands for one directory of the storage root.
pub open spec fn spec_listed(directory: VmDirectory) -> VMView {
    VMView {
        name: directory.name@,
        status: spec_running_status(directory.control_socket_exists),
    }
}

/// The list of the machines of the storage root: one for each directory, in
/// the scan's order.
pub open spec fn spec_load_vms(directories: Seq<VmDirectory>) -> Seq<VMView> {
    Seq::new(directories.len(), |i: int| spec_listed(directories[i]))
}

/// Lists the machines of the storage root: one for each directory that the scan
/// found, in the scan's order, named after the directory.
pub fn load_vms(directories: &Vec<VmDirectory>) -> (vms: Vec<VM>)
    ensures
        vm_views(vms@) =~= spec_load_vms(directories@),
{
    let mut vms: Vec<VM> = Vec::new();
    let mut i: usize = 0;
    while i < directories.len()
        invariant
            0 <= i <= directories.len(),
            vms.len() == i,
            forall|j: int| 0 <= j < i ==> (#[trigger] vms[j])@ == spec_listed(directories[j]),
        decreases directories.len() - i,
    {
        let directory = &directories[i];
        vms.push(
            VM {
                name: directory.name.clone(),
                status: determine_running_status(directory.control_socket_exists),
            },
        );
        i = i + 1;
    }
    vms
}

/// Whether a machine of this name is in flux in the list.
pub open spec fn in_flux(vms: Seq<VMView>, name: Seq<char>) -> bool {
    exists|i: int| 0 <= i < vms.len() && (#[trigger] vms[i]).name == name && vms[i].status
        == VMStatus::InFlux
}

/// Tells whether a machine of this name is in flux in the list.
pub fn is_in_flux(vms: &Vec<VM>, name: &String) -> (found: bool)
    ensures
        found == in_flux(vm_views(vms@), name@),
{
    let mut i: usize = 0;
    while i < vms.len()
        invariant
            0 <= i <= vms.len(),
            forall|j: int|
                0 <= j < i ==> !((#[trigger] vms[j]).name@ == name@ && vms[j].status
                    == VMStatus::InFlux),
        decreases vms.len() - i,
    {
        if vms[i].status == VMStatus::InFlux && vms[i].name == *name {
            assert(vm_views(vms@)[i as int].name == name@);
            return true;
        }
        i = i + 1;
    }
    proof {
        if in_flux(vm_views(vms@), name@) {
            let j = choose|j: int|
                0 <= j < vms.len() && (#[trigger] vm_views(vms@)[j]).name == name@ && vm_views(
                    vms@,
                )[j].status == VMStatus::InFlux;
            assert(vms[j].name@ == name@ && vms[j].status == VMStatus::InFlux);
        }
    }
    false
}

/// What a rescan makes of one directory: a machine named after it, which
/// stays in flux if the list that is known has it in flux, and otherwise has
/// the status that the directory stands for.
pub open spec fn spec_rescanned(known: Seq<VMView>, directory: VmDirectory) -> VMView {
    VMView {
        name: directory.name@,
        status: if in_flux(known, directory.name@) {
            VMStatus::InFlux
        } else {
            spec_running_status(directory.control_socket_exists)
        },
    }
}

/// The list after a rescan: one machine for each directory, in the scan's
/// order.
pub open spec fn spec_rescan(known: Seq<VMView>, directories: Seq<VmDirectory>) -> Seq<
    VMView,
> {
    Seq::new(directories.len(), |i: int| spec_rescanned(known, directories[i]))
}

/// Replaces the list that is known by what a rescan of the storage root found.
/// A machine that is in flux stays so: only the task that starts or stops it
/// may say how that ended.
pub fn rescan(known: &Vec<VM>, directories: &Vec<VmDirectory>) -> (vms: Vec<VM>)
    ensures
        vm_views(vms@) =~= spec_rescan(vm_views(known@), directories@),
{
    let mut vms: Vec<VM> = Vec::new();
    let mut i: usize = 0;
    while i < directories.len()
        invariant
            0 <= i <= directories.len(),
            vms.len() == i,
            forall|j: int|
                0 <= j < i ==> (#[trigger] vms[j])@ == spec_rescanned(
                    vm_views(known@),
                    directories[j],
                ),
        decreases directories.len() - i,
    {
        let directory = &directories[i];
        let status = if is_in_flux(known, &directory.name) {
            VMStatus::InFlux
        } else {
            determine_running_status(directory.control_socket_exists)
        };
        vms.push(VM { name: directory.name.clone(), status });
        i = i + 1;
    }
    vms
}

/// After a rescan, a directory that the scan found once, without a control
/// socket, stands in the list exactly once, as a machine that is not running,
/// unless a machine of its name was in flux. So a machine that was just
/// created, and not started yet, is listed once and as not running.
pub proof fn lemma_listed_once_and_not_running(
    known: Seq<VMView>,
    directories: Seq<VmDirectory>,
    at: int,
)
    requires
        0 <= at < directories.len(),
        forall|i: int|
            0 <= i < directories.len() && i != at ==> (#[trigger] directories[i]).name@
                != directories[at].name@,
        !directories[at].control_socket_exists,
        !in_flux(known, directories[at].name@),
    ensures
        spec_rescan(known, directories).len() == directories.len(),
        spec_rescan(known, directories)[at] == (VMView {
            name: directories[at].name@,
            status: VMStatus::NotRunning,
        }),
        forall|i: int|
            0 <= i < directories.len() && i != at ==> (#[trigger] spec_rescan(
                known,
                directories,
            )[i]).name != directories[at].name@,
{
}

/// What the user's press of the power button asks for.
#[derive(Clone, Copy, Debug, PartialEq, Eq, Structural)]
pub enum PowerRequest {
    Start,
    Stop,
}

/// What a press of the power button asks for: a start where the machine is not
/// running, a stop where it is running or in flux.
pub open spec fn spec_power_toggle(status: VMStatus) -> PowerRequest {
    if status == VMStatus::NotRunning {
        PowerRequest::Start
    } else {
        PowerRequest::Stop
    }
}

/// Tells what a press of the power button asks for.
pub fn power_toggle(status: VMStatus) -> (request: PowerRequest)
    ensures
        request == spec_power_toggle(status),
{
    match status {
        VMStatus::NotRunning => PowerRequest::Start,
        VMStatus::Running | VMStatus::InFlux => PowerRequest::Stop,
    }
}

/// The text that a row shows for a status.
pub open spec fn spec_caption(status: VMStatus) -> Seq<char> {
    match status {
        VMStatus::NotRunning => "Stopped"@,
        VMStatus::Running => "Running"@,
        VMStatus::InFlux => "Working..."@,
    }
}

/// The text that a row shows for a status.
pub fn caption(status: VMStatus) -> (text: &'static str)
    ensures
        text@ == spec_caption(status),
{
    match status {
        VMStatus::NotRunning => "Stopped",
        VMStatus::Running => "Running",
        VMStatus::InFlux => "Working...",
    }
}

/// The text of the status label of a machine's controls.
pub open spec fn spec_status_label(status: VMStatus) -> Seq<char> {
    match status {
        VMStatus::Running => "Running"@,
        VMStatus::NotRunning => "Not Running"@,
        VMStatus::InFlux => "..."@,
    }
}

/// The icon of the power button.
pub open spec fn spec_power_icon(status: VMStatus) -> Seq<char> {
    match status {
        VMStatus::Running | VMStatus::NotRunning => "system-shutdown-symbolic"@,
        VMStatus::InFlux => "image-loading-symbolic"@,
    }
}

/// The tooltip of the power button: what a press would do.
pub open spec fn spec_power_tooltip(status: VMStatus) -> Seq<char> {
    match status {
        VMStatus::Running => "Stop"@,
        VMStatus::NotRunning => "Start"@,
        VMStatus::InFlux => ""@,
    }
}

/// Shows a status on the controls of a machine. The power button can be pressed
/// unless the machine is in flux; the terminal button only while it runs. Of
/// the terminal button nothing else changes.
pub fn set_running_status_on_button(
    power_button: &mut Button,
    terminal_button: &mut Button,
    label: &mut Label,
    vm_status: VMStatus,
)
    ensures
        final(label).label@ == spec_status_label(vm_status),
        final(power_button).sensitive == (vm_status != VMStatus::InFlux),
        final(power_button).icon_name@ == spec_power_icon(vm_status),
        final(power_button).tooltip_text matches Some(text) && text@ == spec_power_tooltip(
            vm_status,
        ),
        final(terminal_button).sensitive == (vm_status == VMStatus::Running),
        final(terminal_button).icon_name == old(terminal_button).icon_name,
        final(terminal_button).tooltip_text == old(terminal_button).tooltip_text,
{
    match vm_status {
        VMStatus::Running => {
            label.label = String::from_str("Running");
            power_button.sensitive = true;
            power_button.icon_name = String::from_str("system-shutdown-symbolic");
            power_button.tooltip_text = Some(String::from_str("Stop"));
            terminal_button.sensitive = true;
        },
        VMStatus::NotRunning => {
            label.label = String::from_str("Not Running");
            power_button.sensitive = true;
            power_button.icon_name = String::from_str("system-shutdown-symbolic");
            power_button.tooltip_text = Some(String::from_str("Start"));
            terminal_button.sensitive = false;
        },
        VMStatus::InFlux => {
            label.label = String::from_str("...");
            power_button.sensitive = false;
            power_button.icon_name = String::from_str("image-loading-symbolic");
            power_button.tooltip_text = Some(String::from_str(""));
            terminal_button.sensitive = false;
        },
    }
}

} // verus!
