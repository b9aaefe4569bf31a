//! Where things lie on the host. Every path of a machine is a function of the
//! working directory and of the machine's name.
//!
//! Paths are plain strings with `/` as the separator.

use vstd::prelude::*;

verus! {

/// What joining a path to a base gives: a path that starts at the root
/// replaces the base; otherwise it is appended, after a separator where the
/// base is not empty and does not end in one.
pub open spec fn spec_join(base: Seq<char>, path: Seq<char>) -> Seq<char> {
    if path.len() > 0 && path[0] == '/' {
        path
    } else if base.len() > 0 && base.last() != '/' {
        base + seq!['/'] + path
    } else {
        base + path
    }
}

/// Joins a path to a base.
pub fn join(base: &str, path: &str) -> (joined: String)
    ensures
        joined@ == spec_join(base@, path@),
{
    let path_len: usize = path.unicode_len();
    if path_len > 0 && path.get_char(0) == '/' {
        return String::from_str(path);
    }
    let base_len: usize = base.unicode_len();
    let mut joined = String::from_str(base);
    if base_len > 0 && base.get_char(base_len - 1) != '/' {
        proof {
            reveal_strlit("/");
            assert("/"@ =~= seq!['/']);
        }
        joined.append("/");
    }
    joined.append(path);
    joined
}

/// Whether a string can name a machine: it is not empty, holds neither a
/// separator nor a NUL, and is neither `.` nor `..`. Such a name is one
/// directory entry.
pub open spec fn valid_name(name: Seq<char>) -> bool {
    &&& name.len() > 0
    &&& forall|i: int| 0 <= i < name.len() ==> name[i] != '/' && name[i] != '\0'
    &&& name != seq!['.']
    &&& name != seq!['.', '.']
}

/// Tells whether a string can name a machine.
pub fn is_valid_name(name: &str) -> (valid: bool)
    ensures
        valid == valid_name(name@),
{
    let len: usize = name.unicode_len();
    if len == 0 {
        return false;
    }
    let mut dots: usize = 0;
    let mut i: usize = 0;
    while i < len
        invariant
            len == name@.len(),
            0 <= i <= len,
            dots <= i,
            forall|j: int| 0 <= j < i ==> name@[j] != '/' && name@[j] != '\0',
            dots == i <==> (forall|j: int| 0 <= j < i ==> name@[j] == '.'),
        decreases len - i,
    {
        let c = name.get_char(i);
        if c == '/' || c == '\0' {
            return false;
        }
        if c == '.' {
            if dots == i {
                dots = dots + 1;
            }
        }
        i = i + 1;
    }
    if dots == len && len <= 2 {
        proof {
            if len == 1 {
                assert(name@ =~= seq!['.']);
            } else {
                assert(name@ =~= seq!['.', '.']);
            }
        }
        return false;
    }
    proof {
        if name@ == seq!['.'] {
            assert(forall|j: int| 0 <= j < 1 ==> name@[j] == '.');
        }
        if name@ == seq!['.', '.'] {
            assert(forall|j: int| 0 <= j < 2 ==> name@[j] == '.');
        }
    }
    true
}

/// The directory that holds one directory per machine.
pub open spec fn spec_vms_dir(working_dir: Seq<char>) -> Seq<char> {
    spec_join(working_dir, ".bubbles/vms"@)
}

/// The directory that holds one directory per image.
pub open spec fn spec_images_dir(working_dir: Seq<char>) -> Seq<char> {
    spec_join(working_dir, ".bubbles/images"@)
}

/// The directory of the base image.
pub open spec fn spec_image_dir(working_dir: Seq<char>) -> Seq<char> {
    spec_join(spec_images_dir(working_dir), "debian-13"@)
}

/// The directory of the machine of the given name.
pub open spec fn spec_vm_dir(working_dir: Seq<char>, name: Seq<char>) -> Seq<char> {
    spec_join(spec_vms_dir(working_dir), name)
}

/// The socket of the network backend of the machine of the given name.
pub open spec fn spec_backend_socket(name: Seq<char>) -> Seq<char> {
    spec_join("/tmp"@, "passt_socket_"@ + name)
}

/// The directory that holds one directory per machine; the storage root.
pub fn vms_dir(working_dir: &str) -> (dir: String)
    ensures
        dir@ == spec_vms_dir(working_dir@),
{
    join(working_dir, ".bubbles/vms")
}

/// The directory that holds one directory per image.
pub fn images_dir(working_dir: &str) -> (dir: String)
    ensures
        dir@ == spec_images_dir(working_dir@),
{
    join(working_dir, ".bubbles/images")
}

/// The directory of the base image, whose presence says that it was downloaded.
pub fn image_dir(working_dir: &str) -> (dir: String)
    ensures
        dir@ == spec_image_dir(working_dir@),
{
    let images = images_dir(working_dir);
    join(images.as_str(), "debian-13")
}

/// The three files of an image or of a machine.
pub struct Assets {
    /// The disk image.
    pub disk: String,
    /// The kernel.
    pub kernel: String,
    /// The initial ramdisk.
    pub initrd: String,
}

impl Assets {
    /// Whether these are the three asset files in the given directory.
    pub open spec fn lie_in(self, dir: Seq<char>) -> bool {
        &&& self.disk@ == spec_join(dir, "disk.img"@)
        &&& self.kernel@ == spec_join(dir, "vmlinuz"@)
        &&& self.initrd@ == spec_join(dir, "initrd.img"@)
    }
}

/// The three asset files in a directory.
pub fn assets_in(dir: &str) -> (assets: Assets)
    ensures
        assets.lie_in(dir@),
{
    Assets {
        disk: join(dir, "disk.img"),
        kernel: join(dir, "vmlinuz"),
        initrd: join(dir, "initrd.img"),
    }
}

/// The paths of one machine.
pub struct VmPaths {
    /// The machine's directory.
    pub dir: String,
    /// The machine's copies of the image's files.
    pub assets: Assets,
    /// The socket on which the socket forwarder listens; the control channel to
    /// the guest.
    pub bridge_socket: String,
    /// The hypervisor's management socket.
    pub control_socket: String,
    /// The socket of the network backend.
    pub backend_socket: String,
}

impl VmPaths {
    /// Whether these are the paths of the machine of the given name.
    pub open spec fn belong_to(self, working_dir: Seq<char>, name: Seq<char>) -> bool {
        &&& self.dir@ == spec_vm_dir(working_dir, name)
        &&& self.assets.lie_in(spec_vm_dir(working_dir, name))
        &&& self.bridge_socket@ == spec_join(spec_vm_dir(working_dir, name), "vsock"@)
        &&& self.control_socket@ == spec_join(spec_vm_dir(working_dir, name), "crosvm_socket"@)
        &&& self.backend_socket@ == spec_backend_socket(name)
    }
}

/// The paths of the machine of the given name.
pub fn vm_paths(working_dir: &str, name: &str) -> (paths: VmPaths)
    ensures
        paths.belong_to(working_dir@, name@),
{
    let root = vms_dir(working_dir);
    let dir = join(root.as_str(), name);
    let assets = assets_in(dir.as_str());
    let bridge_socket = join(dir.as_str(), "vsock");
    let control_socket = join(dir.as_str(), "crosvm_socket");
    let mut socket_name = String::from_str("passt_socket_");
    socket_name.append(name);
    let backend_socket = join("/tmp", socket_name.as_str());
    VmPaths { dir, assets, bridge_socket, control_socket, backend_socket }
}

/// The control socket of the machine of the given name. Its presence is taken
/// as evidence that the machine runs.
pub fn control_socket(working_dir: &str, name: &str) -> (socket: String)
    ensures
        socket@ == spec_join(spec_vm_dir(working_dir@, name@), "crosvm_socket"@),
{
    let root = vms_dir(working_dir);
    let dir = join(root.as_str(), name);
    join(dir.as_str(), "crosvm_socket")
}

/// What creating a machine takes: its directory is made, and the image's three
/// files are copied into it, the disk first, then the kernel, then the initrd.
pub struct CreationPlan {
    /// The directory to create, with the directories above it.
    pub dir: String,
    /// The files of the base image.
    pub from: Assets,
    /// Where their copies go.
    pub to: Assets,
}

/// Plans the creation of the machine of the given name from the base image.
pub fn creation_plan(working_dir: &str, name: &str) -> (plan: CreationPlan)
    ensures
        plan.dir@ == spec_vm_dir(working_dir@, name@),
        plan.from.lie_in(spec_image_dir(working_dir@)),
        plan.to.lie_in(spec_vm_dir(working_dir@, name@)),
{
    let root = vms_dir(working_dir);
    let dir = join(root.as_str(), name);
    let image = image_dir(working_dir);
    let from = assets_in(image.as_str());
    let to = assets_in(dir.as_str());
    CreationPlan { dir, from, to }
}

/// Appending to one prefix keeps different strings different.
proof fn lemma_same_prefix(prefix: Seq<char>, a: Seq<char>, b: Seq<char>)
    requires
        prefix + a == prefix + b,
    ensures
        a == b,
{
    let left = prefix + a;
    let right = prefix + b;
    assert(left.len() == right.len());
    assert(a =~= left.subrange(prefix.len() as int, left.len() as int));
    assert(b =~= right.subrange(prefix.len() as int, right.len() as int));
}

/// Appending one suffix keeps different strings different.
proof fn lemma_same_suffix(a: Seq<char>, b: Seq<char>, suffix: Seq<char>)
    requires
        a + suffix == b + suffix,
    ensures
        a == b,
{
    let left = a + suffix;
    let right = b + suffix;
    assert(left.len() == right.len());
    assert(a =~= left.subrange(0, a.len() as int));
    assert(b =~= right.subrange(0, b.len() as int));
}

/// Joining two different valid names to one base gives two different
/// directories, neither of which ends in a separator.
proof fn lemma_join_names(base: Seq<char>, a: Seq<char>, b: Seq<char>)
    requires
        valid_name(a),
        valid_name(b),
        a != b,
    ensures
        spec_join(base, a) != spec_join(base, b),
        spec_join(base, a).len() > 0 && spec_join(base, a).last() != '/',
        spec_join(base, b).len() > 0 && spec_join(base, b).last() != '/',
{
    let prefix = if base.len() > 0 && base.last() != '/' {
        base + seq!['/']
    } else {
        base
    };
    assert(spec_join(base, a) == prefix + a);
    assert(spec_join(base, b) == prefix + b);
    assert(a[0] != '/' && b[0] != '/');
    assert((prefix + a).last() == a.last());
    assert((prefix + b).last() == b.last());
    if prefix + a == prefix + b {
        lemma_same_prefix(prefix, a, b);
    }
}

/// Joining one file name, which does not start with a separator, to two
/// different directories that do not end in one gives two different paths.
proof fn lemma_join_file(a: Seq<char>, b: Seq<char>, file: Seq<char>)
    requires
        a != b,
        a.len() > 0 && a.last() != '/',
        b.len() > 0 && b.last() != '/',
        file.len() > 0 && file[0] != '/',
    ensures
        spec_join(a, file) != spec_join(b, file),
{
    let suffix = seq!['/'] + file;
    assert(spec_join(a, file) =~= a + suffix);
    assert(spec_join(b, file) =~= b + suffix);
    if a + suffix == b + suffix {
        lemma_same_suffix(a, b, suffix);
    }
}

/// No two machines collide: the directories, the bridging sockets, the control
/// sockets and the backend sockets of two machines with different valid names
/// are different paths.
pub proof fn lemma_paths_do_not_collide(working_dir: Seq<char>, a: Seq<char>, b: Seq<char>)
    requires
        valid_name(a),
        valid_name(b),
        a != b,
    ensures
        spec_vm_dir(working_dir, a) != spec_vm_dir(working_dir, b),
        spec_join(spec_vm_dir(working_dir, a), "vsock"@) != spec_join(
            spec_vm_dir(working_dir, b),
            "vsock"@,
        ),
        spec_join(spec_vm_dir(working_dir, a), "crosvm_socket"@) != spec_join(
            spec_vm_dir(working_dir, b),
            "crosvm_socket"@,
        ),
        spec_join(spec_vm_dir(working_dir, a), "disk.img"@) != spec_join(
            spec_vm_dir(working_dir, b),
            "disk.img"@,
        ),
        spec_backend_socket(a) != spec_backend_socket(b),
{
    let root = spec_vms_dir(working_dir);
    lemma_join_names(root, a, b);
    reveal_strlit("vsock");
    reveal_strlit("crosvm_socket");
    reveal_strlit("disk.img");
    lemma_join_file(spec_vm_dir(working_dir, a), spec_vm_dir(working_dir, b), "vsock"@);
    lemma_join_file(spec_vm_dir(working_dir, a), spec_vm_dir(working_dir, b), "crosvm_socket"@);
    lemma_join_file(spec_vm_dir(working_dir, a), spec_vm_dir(working_dir, b), "disk.img"@);
    reveal_strlit("/tmp");
    reveal_strlit("passt_socket_");
    let prefix = "/tmp"@ + seq!['/'] + "passt_socket_"@;
    assert(("passt_socket_"@ + a)[0] == 'p');
    assert(("passt_socket_"@ + b)[0] == 'p');
    assert(spec_backend_socket(a) =~= prefix + a);
    assert(spec_backend_socket(b) =~= prefix + b);
    if prefix + a == prefix + b {
        lemma_same_prefix(prefix, a, b);
    }
}

} // verus!
