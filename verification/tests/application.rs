use bubbles::application::{App, AppAction, AppMsg};
use bubbles::images::ImageStatus;
use bubbles::vms::{VMStatus, VmDirectory, VM};

fn directory(name: &str, control_socket_exists: bool) -> VmDirectory {
    VmDirectory { name: name.to_string(), control_socket_exists }
}

fn vm(name: &str, status: VMStatus) -> VM {
    VM { name: name.to_string(), status }
}

fn app(vms: Vec<VM>, creating: bool, image_status: ImageStatus) -> App {
    App { vms, currently_creating_bubble: creating, image_status }
}

#[test]
fn the_application_starts_with_what_is_on_disk() {
    let started = App::init(true, &vec![directory("dev", false), directory("old", true)]);
    assert_eq!(
        started.vms,
        vec![vm("dev", VMStatus::NotRunning), vm("old", VMStatus::Running)]
    );
    assert!(!started.currently_creating_bubble);
    assert_eq!(started.image_status, ImageStatus::Present);

    let empty = App::init(false, &vec![]);
    assert!(empty.vms.is_empty());
    assert_eq!(empty.image_status, ImageStatus::NotPresent);
}

#[test]
fn creating_dev_lists_it_once_as_not_running() {
    let mut app = App::init(true, &vec![]);
    assert_eq!(
        app.update(AppMsg::CreateNewBubble("dev".to_string())),
        AppAction::CreateVm("dev".to_string())
    );
    assert!(app.currently_creating_bubble);
    assert!(app.vms.is_empty());
    assert_eq!(
        app.update(AppMsg::FinishBubbleCreation(vec![directory("dev", false)])),
        AppAction::Nothing
    );
    assert!(!app.currently_creating_bubble);
    assert_eq!(app.vms, vec![vm("dev", VMStatus::NotRunning)]);
}

#[test]
fn the_rescan_after_a_creation_leaves_machines_in_flux_alone() {
    let mut app = app(
        vec![vm("a", VMStatus::InFlux), vm("b", VMStatus::Running)],
        true,
        ImageStatus::Present,
    );
    app.update(AppMsg::FinishBubbleCreation(vec![
        directory("a", false),
        directory("b", true),
        directory("c", false),
    ]));
    assert_eq!(
        app.vms,
        vec![
            vm("a", VMStatus::InFlux),
            vm("b", VMStatus::Running),
            vm("c", VMStatus::NotRunning),
        ]
    );
}

#[test]
fn a_download_goes_from_absent_over_downloading_to_present() {
    let mut app = App::init(false, &vec![]);
    assert_eq!(app.image_status, ImageStatus::NotPresent);
    assert_eq!(app.update(AppMsg::DownloadImage), AppAction::Download);
    assert_eq!(app.image_status, ImageStatus::Downloading);
    assert_eq!(app.update(AppMsg::FinishImageDownload(true)), AppAction::Nothing);
    assert_eq!(app.image_status, ImageStatus::Present);
}

#[test]
fn a_second_download_request_spawns_no_second_download() {
    let mut app = App::init(false, &vec![]);
    assert_eq!(app.update(AppMsg::DownloadImage), AppAction::Download);
    assert_eq!(app.update(AppMsg::DownloadImage), AppAction::Nothing);
    assert_eq!(app.update(AppMsg::DownloadImage), AppAction::Nothing);
    assert_eq!(app.image_status, ImageStatus::Downloading);
}

#[test]
fn a_download_that_left_nothing_behind_shows_the_image_as_absent() {
    let mut app = App::init(false, &vec![]);
    app.update(AppMsg::DownloadImage);
    app.update(AppMsg::FinishImageDownload(false));
    assert_eq!(app.image_status, ImageStatus::NotPresent);
}

#[test]
fn a_present_image_can_be_downloaded_again() {
    let mut app = App::init(true, &vec![]);
    assert_eq!(app.update(AppMsg::DownloadImage), AppAction::Download);
    assert_eq!(app.image_status, ImageStatus::Downloading);
}

#[test]
fn the_dialog_is_presented_and_closed() {
    let mut app = App::init(true, &vec![directory("dev", false)]);
    assert_eq!(app.update(AppMsg::ShowBubbleCreationDialog), AppAction::PresentCreationDialog);
    assert_eq!(app.update(AppMsg::HideBubbleCreationDialog), AppAction::CloseCreationDialog);
    assert_eq!(app.vms, vec![vm("dev", VMStatus::NotRunning)]);
    assert!(!app.currently_creating_bubble);
    assert_eq!(app.image_status, ImageStatus::Present);
}

#[test]
fn a_status_update_changes_one_machine() {
    let mut app = App::init(true, &vec![directory("a", false), directory("b", false)]);
    assert_eq!(app.update(AppMsg::HandleVMStatusUpdate(1, VMStatus::InFlux)), AppAction::Nothing);
    assert_eq!(app.vms, vec![vm("a", VMStatus::NotRunning), vm("b", VMStatus::InFlux)]);
    app.update(AppMsg::HandleVMStatusUpdate(1, VMStatus::Running));
    app.update(AppMsg::HandleVMStatusUpdate(0, VMStatus::InFlux));
    assert_eq!(app.vms, vec![vm("a", VMStatus::InFlux), vm("b", VMStatus::Running)]);
}

#[test]
fn the_window_closes_when_nothing_is_under_way() {
    let mut idle = App::init(true, &vec![directory("dev", false)]);
    assert!(!idle.is_busy());
    assert_eq!(idle.update(AppMsg::CloseApplication), AppAction::Quit);
    let mut empty = App::init(false, &vec![]);
    assert_eq!(empty.update(AppMsg::CloseApplication), AppAction::Quit);
}

#[test]
fn the_window_stays_open_while_something_is_under_way() {
    let mut downloading = app(vec![], false, ImageStatus::Downloading);
    assert_eq!(downloading.update(AppMsg::CloseApplication), AppAction::PresentWarning);
    let mut creating = app(vec![], true, ImageStatus::Present);
    assert_eq!(creating.update(AppMsg::CloseApplication), AppAction::PresentWarning);
    let mut running = app(
        vec![vm("a", VMStatus::NotRunning), vm("b", VMStatus::Running)],
        false,
        ImageStatus::Present,
    );
    assert!(running.is_busy());
    assert_eq!(running.update(AppMsg::CloseApplication), AppAction::PresentWarning);
    let mut in_flux = app(vec![vm("a", VMStatus::InFlux)], false, ImageStatus::Present);
    assert_eq!(in_flux.update(AppMsg::CloseApplication), AppAction::PresentWarning);
    assert_eq!(in_flux.vms, vec![vm("a", VMStatus::InFlux)]);
}

#[test]
fn a_machine_can_be_created_only_with_an_image_and_one_at_a_time() {
    assert!(app(vec![], false, ImageStatus::Present).creation_enabled());
    assert!(!app(vec![], true, ImageStatus::Present).creation_enabled());
    assert!(!app(vec![], false, ImageStatus::NotPresent).creation_enabled());
    assert!(!app(vec![], false, ImageStatus::Downloading).creation_enabled());
}

#[test]
fn a_download_can_be_asked_for_unless_one_is_under_way() {
    assert!(app(vec![], false, ImageStatus::Present).download_enabled());
    assert!(app(vec![], false, ImageStatus::NotPresent).download_enabled());
    assert!(!app(vec![], false, ImageStatus::Downloading).download_enabled());
}

#[test]
fn the_list_is_shown_once_there_is_a_machine() {
    assert_eq!(app(vec![], false, ImageStatus::Present).visible_page(), "create-view");
    assert_eq!(
        app(vec![vm("a", VMStatus::NotRunning)], false, ImageStatus::Present).visible_page(),
        "vm-view"
    );
}
