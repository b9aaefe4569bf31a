//! The state that the application's window shows, and what each message does
//! to it. The window's owner is the only one that writes this state; tasks
//! report to it by messages.

use crate::images::{determine_download_status, spec_download_status, ImageStatus};
use crate::vms::{load_vms, rescan, spec_load_vms, spec_rescan, vm_views};
use crate::vms::{VMStatus, VMView, VmDirectory, VM};
use vstd::prelude::*;

verus! {

/// The state of the application.
pub struct App {
    /// The machines, as listed.
    pub vms: Vec<VM>,
    /// Whether a machine is being created.
    pub currently_creating_bubble: bool,
    /// The status of the base image.
    pub image_status: ImageStatus,
}

/// The state of the application, with its machines by their views.
pub struct AppView {
    pub vms: Seq<VMView>,
    pub currently_creating_bubble: bool,
    pub image_status: ImageStatus,
}

impl View for App {
    type V = AppView;

    open spec fn view(&self) -> AppView {
        AppView {
            vms: vm_views(self.vms@),
            currently_creating_bubble: self.currently_creating_bubble,
            image_status: self.image_status,
        }
    }
}

/// A message to the application.
pub enum AppMsg {
    /// The user asked for the base image to be downloaded.
    DownloadImage,
    /// The download has ended; the image's directory exists or not.
    FinishImageDownload(bool),
    /// The user asked for the dialog in which a machine is named.
    ShowBubbleCreationDialog,
    /// The dialog is to be closed.
    HideBubbleCreationDialog,
    /// The user asked for a machine of this name.
    CreateNewBubble(String),
    /// The task of the machine at this place in the list reports its status.
    HandleVMStatusUpdate(usize, VMStatus),
    /// The creation has ended; a scan of the storage root found these.
    FinishBubbleCreation(Vec<VmDirectory>),
    /// The user asked to close the window.
    CloseApplication,
}

/// What the shell is to do after a message.
#[derive(Debug, PartialEq, Eq)]
pub enum AppAction {
    /// Nothing.
    Nothing,
    /// Present the dialog in which a machine is named.
    PresentCreationDialog,
    /// Close that dialog.
    CloseCreationDialog,
    /// Create the machine of this name, then send `FinishBubbleCreation`.
    CreateVm(String),
    /// Run the download, then send `FinishImageDownload`.
    Download,
    /// Tell the user that something is still running.
    PresentWarning,
    /// Quit.
    Quit,
}

/// An action, with the name it holds as a sequence of characters.
pub enum AppActionView {
    Nothing,
    PresentCreationDialog,
    CloseCreationDialog,
    CreateVm(Seq<char>),
    Download,
    PresentWarning,
    Quit,
}

impl View for AppAction {
    type V = AppActionView;

    open spec fn view(&self) -> AppActionView {
        match self {
            AppAction::Nothing => AppActionView::Nothing,
            AppAction::PresentCreationDialog => AppActionView::PresentCreationDialog,
            AppAction::CloseCreationDialog => AppActionView::CloseCreationDialog,
            AppAction::CreateVm(name) => AppActionView::CreateVm(name@),
            AppAction::Download => AppActionView::Download,
            AppAction::PresentWarning => AppActionView::PresentWarning,
            AppAction::Quit => AppActionView::Quit,
        }
    }
}

impl AppView {
    /// Whether something is still under way: a download, a creation, or a
    /// machine that is not stopped.
    pub open spec fn busy(self) -> bool {
        ||| self.image_status == ImageStatus::Downloading
        ||| self.currently_creating_bubble
        ||| exists|i: int| 0 <= i < self.vms.len() && (#[trigger] self.vms[i]).status
            != VMStatus::NotRunning
    }

    /// The state after a message, and the action that answers it.
    ///
    /// A download is started unless one is under way. While a machine is
    /// created the state says so, until the rescan that follows. A rescan
    /// leaves machines in flux as they are. The window closes only when nothing
    /// is under way.
    pub open spec fn update(self, msg: AppMsg) -> (AppView, AppActionView) {
        match msg {
            AppMsg::ShowBubbleCreationDialog => (self, AppActionView::PresentCreationDialog),
            AppMsg::HideBubbleCreationDialog => (self, AppActionView::CloseCreationDialog),
            AppMsg::CreateNewBubble(name) => (
                AppView { currently_creating_bubble: true, ..self },
                AppActionView::CreateVm(name@),
            ),
            AppMsg::FinishBubbleCreation(directories) => (
                AppView {
                    vms: spec_rescan(self.vms, directories@),
                    currently_creating_bubble: false,
                    ..self
                },
                AppActionView::Nothing,
            ),
            AppMsg::DownloadImage => if self.image_status == ImageStatus::Downloading {
                (self, AppActionView::Nothing)
            } else {
                (
                    AppView { image_status: ImageStatus::Downloading, ..self },
                    AppActionView::Download,
                )
            },
            AppMsg::FinishImageDownload(image_exists) => (
                AppView { image_status: spec_download_status(image_exists), ..self },
                AppActionView::Nothing,
            ),
            AppMsg::HandleVMStatusUpdate(index, status) => (
                AppView {
                    vms: self.vms.update(
                        index as int,
                        VMView { name: self.vms[index as int].name, status },
                    ),
                    ..self
                },
                AppActionView::Nothing,
            ),
            AppMsg::CloseApplication => (
                self,
                if self.busy() {
                    AppActionView::PresentWarning
                } else {
                    AppActionView::Quit
                },
            ),
        }
    }
}

impl App {
    /// The state at startup: the machines that a scan of the storage root
    /// found, nothing being created, and the image present or not.
    pub fn init(image_exists: bool, directories: &Vec<VmDirectory>) -> (app: App)
        ensures
            app@.vms =~= spec_load_vms(directories@),
            !app.currently_creating_bubble,
            app.image_status == spec_download_status(image_exists),
    {
        App {
            vms: load_vms(directories),
            currently_creating_bubble: false,
            image_status: determine_download_status(image_exists),
        }
    }

    /// Whether a machine can be created now: none is being created, and the
    /// base image is present.
    pub fn creation_enabled(&self) -> (enabled: bool)
        ensures
            enabled == (!self.currently_creating_bubble && self.image_status
                == ImageStatus::Present),
    {
        !self.currently_creating_bubble && self.image_status == ImageStatus::Present
    }

    /// Whether a download can be asked for now: none is under way.
    pub fn download_enabled(&self) -> (enabled: bool)
        ensures
            enabled == (self.image_status != ImageStatus::Downloading),
    {
        self.image_status != ImageStatus::Downloading
    }

    /// The page that the window shows: the invitation to create a machine while
    /// there is none, the list of machines otherwise.
    pub fn visible_page(&self) -> (page: &'static str)
        ensures
            page@ == (if self.vms.len() == 0 {
                "create-view"@
            } else {
                "vm-view"@
            }),
    {
        if self.vms.len() == 0 {
            "create-view"
        } else {
            "vm-view"
        }
    }

    /// Tells whether something is still under way.
    pub fn is_busy(&self) -> (busy: bool)
        ensures
            busy == self@.busy(),
    {
        let mut vm_running = false;
        let mut i: usize = 0;
        while i < self.vms.len()
            invariant
                0 <= i <= self.vms.len(),
                vm_running == exists|j: int|
                    0 <= j < i && (#[trigger] self.vms@[j]).status != VMStatus::NotRunning,
            decreases self.vms.len() - i,
        {
            if self.vms[i].status != VMStatus::NotRunning {
                vm_running = true;
            }
            i = i + 1;
        }
        proof {
            if vm_running {
                let j = choose|j: int|
                    0 <= j < self.vms.len() && (#[trigger] self.vms@[j]).status
                        != VMStatus::NotRunning;
                assert(self@.vms[j].status != VMStatus::NotRunning);
            }
            if exists|j: int|
                0 <= j < self@.vms.len() && (#[trigger] self@.vms[j]).status
                    != VMStatus::NotRunning {
                let j = choose|j: int|
                    0 <= j < self@.vms.len() && (#[trigger] self@.vms[j]).status
                        != VMStatus::NotRunning;
                assert(self.vms@[j].status != VMStatus::NotRunning);
            }
        }
        self.image_status == ImageStatus::Downloading || self.currently_creating_bubble
            || vm_running
    }

    /// Takes a message, changes the state and returns what the shell is to do.
    pub fn update(&mut self, msg: AppMsg) -> (action: AppAction)
        requires
            msg matches AppMsg::HandleVMStatusUpdate(index, _) ==> index < old(self).vms.len(),
        ensures
            final(self)@.vms =~= old(self)@.update(msg).0.vms,
            final(self).currently_creating_bubble == old(self)@.update(
                msg,
            ).0.currently_creating_bubble,
            final(self).image_status == old(self)@.update(msg).0.image_status,
            action@ == old(self)@.update(msg).1,
    {
        match msg {
            AppMsg::ShowBubbleCreationDialog => AppAction::PresentCreationDialog,
            AppMsg::HideBubbleCreationDialog => AppAction::CloseCreationDialog,
            AppMsg::CreateNewBubble(name) => {
                self.currently_creating_bubble = true;
                AppAction::CreateVm(name)
            },
            AppMsg::FinishBubbleCreation(directories) => {
                let new_vms = rescan(&self.vms, &directories);
                self.currently_creating_bubble = false;
                self.vms = new_vms;
                AppAction::Nothing
            },
            AppMsg::DownloadImage => {
                if self.image_status == ImageStatus::Downloading {
                    AppAction::Nothing
                } else {
                    self.image_status = ImageStatus::Downloading;
                    AppAction::Download
                }
            },
            AppMsg::FinishImageDownload(image_exists) => {
                self.image_status = determine_download_status(image_exists);
                AppAction::Nothing
            },
            AppMsg::HandleVMStatusUpdate(index, status) => {
                let name = self.vms[index].name.clone();
                self.vms.set(index, VM { name, status });
                AppAction::Nothing
            },
            AppMsg::CloseApplication => {
                if self.is_busy() {
                    AppAction::PresentWarning
                } else {
                    AppAction::Quit
                }
            },
        }
    }
}

} // verus!
