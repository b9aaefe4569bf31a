//! The base image: the disk, kernel and initrd from which machines are made by
//! copying. It is shared and never changed by a machine.

use crate::widgets::{Button, Label};
use vstd::prelude::*;

verus! {

/// Whether the base image is on disk.
#[derive(Clone, Copy, Debug, PartialEq, Eq, Structural)]
pub enum ImageStatus {
    /// The image was not downloaded.
    NotPresent,
    /// A download is under way.
    Downloading,
    /// The image is on disk.
    Present,
}

/// An image: its name, as shown, and its status.
#[derive(Clone, Debug, PartialEq, Eq)]
pub struct Image {
    pub name: String,
    pub status: ImageStatus,
}

/// The status that the image directory's presence stands for.
pub open spec fn spec_download_status(image_exists: bool) -> ImageStatus {
    if image_exists {
        ImageStatus::Present
    } else {
        ImageStatus::NotPresent
    }
}

/// Derives the image's status from whether its directory exists.
pub fn determine_download_status(image_exists: bool) -> (status: ImageStatus)
    ensures
        status == spec_download_status(image_exists),
{
    if image_exists {
        ImageStatus::Present
    } else {
        ImageStatus::NotPresent
    }
}

/// Lists the images: there is one, the distribution's, with the status that its
/// directory's presence stands for.
pub fn load_images(image_exists: bool) -> (images: Vec<Image>)
    ensures
        images.len() == 1,
        images[0].name@ == "Debian 13 Bubble Distribution"@,
        images[0].status == spec_download_status(image_exists),
{
    let mut images: Vec<Image> = Vec::new();
    images.push(
        Image {
            name: String::from_str("Debian 13 Bubble Distribution"),
            status: determine_download_status(image_exists),
        },
    );
    images
}

/// The text that the image's row shows for a status.
pub open spec fn spec_caption(status: ImageStatus) -> Seq<char> {
    match status {
        ImageStatus::Present => "Ready"@,
        ImageStatus::NotPresent => "Not downloaded"@,
        ImageStatus::Downloading => "Downloading..."@,
    }
}

/// The text that the image's row shows for a status.
pub fn caption(status: ImageStatus) -> (text: &'static str)
    ensures
        text@ == spec_caption(status),
{
    match status {
        ImageStatus::Present => "Ready",
        ImageStatus::NotPresent => "Not downloaded",
        ImageStatus::Downloading => "Downloading...",
    }
}

/// The icon of the download button: refresh, download, or loading.
pub open spec fn spec_download_icon(status: ImageStatus) -> Seq<char> {
    match status {
        ImageStatus::Present => "view-refresh-symbolic"@,
        ImageStatus::NotPresent => "folder-download-symbolic"@,
        ImageStatus::Downloading => "image-loading-symbolic"@,
    }
}

/// The icon of the download button.
pub fn download_icon(status: ImageStatus) -> (icon: &'static str)
    ensures
        icon@ == spec_download_icon(status),
{
    match status {
        ImageStatus::Present => "view-refresh-symbolic",
        ImageStatus::NotPresent => "folder-download-symbolic",
        ImageStatus::Downloading => "image-loading-symbolic",
    }
}

/// The text of the status label beside the download button.
pub open spec fn spec_status_label(status: ImageStatus) -> Seq<char> {
    match status {
        ImageStatus::Present => "Ready"@,
        ImageStatus::Downloading => "Loading..."@,
        ImageStatus::NotPresent => "Not downloaded"@,
    }
}

/// Shows a status on the download button and its label. The button cannot be
/// pressed while a download is under way. Its tooltip stays as it is.
pub fn set_download_status_on_button(
    button: &mut Button,
    label: &mut Label,
    image_status: ImageStatus,
)
    ensures
        final(label).label@ == spec_status_label(image_status),
        final(button).sensitive == (image_status != ImageStatus::Downloading),
        final(button).icon_name@ == spec_download_icon(image_status),
        final(button).tooltip_text == old(button).tooltip_text,
{
    match image_status {
        ImageStatus::Present => {
            label.label = String::from_str("Ready");
            button.sensitive = true;
        },
        ImageStatus::Downloading => {
            label.label = String::from_str("Loading...");
            button.sensitive = false;
        },
        ImageStatus::NotPresent => {
            label.label = String::from_str("Not downloaded");
            button.sensitive = true;
        },
    }
    button.icon_name = String::from_str(download_icon(image_status));
}

} // verus!
