use bubbles::paths::{
    assets_in, control_socket, creation_plan, image_dir, images_dir, is_valid_name, join,
    vm_paths, vms_dir,
};

#[test]
fn join_appends_after_a_separator() {
    assert_eq!(join("/home/user", "bubbles/socat"), "/home/user/bubbles/socat");
    assert_eq!(join("relative", "x"), "relative/x");
}

#[test]
fn join_adds_no_second_separator() {
    assert_eq!(join("/", ".bubbles/vms"), "/.bubbles/vms");
    assert_eq!(join("/tmp/", "passt_socket_dev"), "/tmp/passt_socket_dev");
}

#[test]
fn join_of_a_rooted_path_replaces_the_base() {
    assert_eq!(join("/home/user", "/etc/passwd"), "/etc/passwd");
    assert_eq!(join("", "/x"), "/x");
}

#[test]
fn join_to_an_empty_base_is_the_path() {
    assert_eq!(join("", "x"), "x");
    assert_eq!(join("", ""), "");
}

#[test]
fn join_of_an_empty_path_ends_in_a_separator() {
    assert_eq!(join("/a", ""), "/a/");
    assert_eq!(join("/a/", ""), "/a/");
}

#[test]
fn join_agrees_with_std_paths() {
    let bases = ["", "/", "/a", "/a/", "a", "a/b", "a/b/"];
    let paths = ["", "x", "x/y", "/x", "/", ".bubbles/vms", "x/"];
    for base in bases {
        for path in paths {
            let expected = std::path::Path::new(base).join(path);
            assert_eq!(
                join(base, path),
                expected.to_str().unwrap(),
                "joining {:?} to {:?}",
                path,
                base
            );
        }
    }
}

#[test]
fn join_counts_characters_not_bytes() {
    assert_eq!(join("/tmp/é", "ü"), "/tmp/é/ü");
    assert_eq!(join("é/", "ü"), "é/ü");
}

#[test]
fn storage_roots_lie_under_the_working_directory() {
    assert_eq!(vms_dir("/work"), "/work/.bubbles/vms");
    assert_eq!(images_dir("/work"), "/work/.bubbles/images");
    assert_eq!(image_dir("/work"), "/work/.bubbles/images/debian-13");
}

#[test]
fn the_paths_of_a_machine_follow_from_its_name() {
    let paths = vm_paths("/work", "dev");
    assert_eq!(paths.dir, "/work/.bubbles/vms/dev");
    assert_eq!(paths.assets.disk, "/work/.bubbles/vms/dev/disk.img");
    assert_eq!(paths.assets.kernel, "/work/.bubbles/vms/dev/vmlinuz");
    assert_eq!(paths.assets.initrd, "/work/.bubbles/vms/dev/initrd.img");
    assert_eq!(paths.bridge_socket, "/work/.bubbles/vms/dev/vsock");
    assert_eq!(paths.control_socket, "/work/.bubbles/vms/dev/crosvm_socket");
    assert_eq!(paths.backend_socket, "/tmp/passt_socket_dev");
}

#[test]
fn the_control_socket_is_the_one_of_the_machine_paths() {
    assert_eq!(control_socket("/work", "dev"), vm_paths("/work", "dev").control_socket);
    assert_eq!(control_socket("/work", "dev"), "/work/.bubbles/vms/dev/crosvm_socket");
}

#[test]
fn two_machines_share_no_path() {
    let a = vm_paths("/work", "dev");
    let b = vm_paths("/work", "dev2");
    assert_ne!(a.dir, b.dir);
    assert_ne!(a.bridge_socket, b.bridge_socket);
    assert_ne!(a.control_socket, b.control_socket);
    assert_ne!(a.backend_socket, b.backend_socket);
    assert_ne!(a.assets.disk, b.assets.disk);
}

#[test]
fn assets_are_the_three_files_of_a_directory() {
    let assets = assets_in("/img");
    assert_eq!(assets.disk, "/img/disk.img");
    assert_eq!(assets.kernel, "/img/vmlinuz");
    assert_eq!(assets.initrd, "/img/initrd.img");
}

#[test]
fn creation_copies_the_image_into_the_machine_directory() {
    let plan = creation_plan("/work", "dev");
    assert_eq!(plan.dir, "/work/.bubbles/vms/dev");
    assert_eq!(plan.from.disk, "/work/.bubbles/images/debian-13/disk.img");
    assert_eq!(plan.from.kernel, "/work/.bubbles/images/debian-13/vmlinuz");
    assert_eq!(plan.from.initrd, "/work/.bubbles/images/debian-13/initrd.img");
    assert_eq!(plan.to.disk, "/work/.bubbles/vms/dev/disk.img");
    assert_eq!(plan.to.kernel, "/work/.bubbles/vms/dev/vmlinuz");
    assert_eq!(plan.to.initrd, "/work/.bubbles/vms/dev/initrd.img");
}

#[test]
fn plain_names_are_valid() {
    assert!(is_valid_name("dev"));
    assert!(is_valid_name("development"));
    assert!(is_valid_name("a"));
    assert!(is_valid_name("..."));
    assert!(is_valid_name(".hidden"));
    assert!(is_valid_name("a.b"));
    assert!(is_valid_name("with space"));
    assert!(is_valid_name("büro"));
}

#[test]
fn names_that_are_no_single_directory_entry_are_invalid() {
    assert!(!is_valid_name(""));
    assert!(!is_valid_name("."));
    assert!(!is_valid_name(".."));
    assert!(!is_valid_name("a/b"));
    assert!(!is_valid_name("/abs"));
    assert!(!is_valid_name("trailing/"));
    assert!(!is_valid_name("nul\0byte"));
}
