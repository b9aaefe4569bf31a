use bubbles::images::{
    caption, determine_download_status, download_icon, load_images,
    set_download_status_on_button, Image, ImageStatus,
};
use bubbles::nixstores::load_nixstores;
use bubbles::widgets::{Button, Label};

#[test]
fn an_absent_image_is_not_present() {
    assert_eq!(determine_download_status(false), ImageStatus::NotPresent);
}

#[test]
fn an_image_on_disk_is_present() {
    assert_eq!(determine_download_status(true), ImageStatus::Present);
}

#[test]
fn there_is_one_image() {
    assert_eq!(
        load_images(false),
        vec![Image {
            name: "Debian 13 Bubble Distribution".to_string(),
            status: ImageStatus::NotPresent,
        }]
    );
    assert_eq!(
        load_images(true),
        vec![Image {
            name: "Debian 13 Bubble Distribution".to_string(),
            status: ImageStatus::Present,
        }]
    );
}

#[test]
fn the_image_row_is_captioned_by_status() {
    assert_eq!(caption(ImageStatus::Present), "Ready");
    assert_eq!(caption(ImageStatus::NotPresent), "Not downloaded");
    assert_eq!(caption(ImageStatus::Downloading), "Downloading...");
}

#[test]
fn the_download_button_shows_what_a_press_would_do() {
    assert_eq!(download_icon(ImageStatus::Present), "view-refresh-symbolic");
    assert_eq!(download_icon(ImageStatus::NotPresent), "folder-download-symbolic");
    assert_eq!(download_icon(ImageStatus::Downloading), "image-loading-symbolic");
}

fn shown(status: ImageStatus) -> (Button, Label) {
    let mut button = Button {
        sensitive: false,
        icon_name: "old".to_string(),
        tooltip_text: Some("kept".to_string()),
    };
    let mut label = Label::new("old");
    set_download_status_on_button(&mut button, &mut label, status);
    (button, label)
}

#[test]
fn a_present_image_can_be_refreshed() {
    let (button, label) = shown(ImageStatus::Present);
    assert_eq!(label.label, "Ready");
    assert_eq!(
        button,
        Button {
            sensitive: true,
            icon_name: "view-refresh-symbolic".to_string(),
            tooltip_text: Some("kept".to_string()),
        }
    );
}

#[test]
fn a_download_under_way_cannot_be_asked_for_again() {
    let (button, label) = shown(ImageStatus::Downloading);
    assert_eq!(label.label, "Loading...");
    assert_eq!(
        button,
        Button {
            sensitive: false,
            icon_name: "image-loading-symbolic".to_string(),
            tooltip_text: Some("kept".to_string()),
        }
    );
}

#[test]
fn an_absent_image_can_be_downloaded() {
    let (button, label) = shown(ImageStatus::NotPresent);
    assert_eq!(label.label, "Not downloaded");
    assert_eq!(
        button,
        Button {
            sensitive: true,
            icon_name: "folder-download-symbolic".to_string(),
            tooltip_text: Some("kept".to_string()),
        }
    );
}

#[test]
fn there_are_no_nix_stores() {
    assert!(load_nixstores().is_empty());
}
