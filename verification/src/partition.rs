//! Disk partitioning: turns a partitioning request into the exact ordered
//! sequence of format, mkdir and mount operations. Automatic mode lays out a
//! GPT label with an EFI partition and a root partition on the target device;
//! manual mode executes the given partition specs sorted by mountpoint path
//! length, so a parent mountpoint is always prepared before anything nested
//! beneath it.

use vstd::prelude::*;
use vstd::string::*;
use crate::command::{Cmd, CmdView, Step, StepView, host_cmd, cmd_new, args1, args2, args4, args6, args7};
use crate::eval::{ConfigError, spec_umount_cmd};
use crate::strutil::{str_eq, contains_str, concat_str, contains_seq, u64_to_dec, spec_dec};

verus! {

broadcast use vstd::seq_lib::group_to_multiset_ensures, vstd::string::group_string_axioms;

/// One partition spec of a manual plan: where to mount, which block device,
/// and the filesystem tag to format it with.
#[derive(Debug)]
pub struct Partition {
    pub mountpoint: String,
    pub blockdevice: String,
    pub filesystem: String,
}

/// Mathematical image of a `Partition`.
#[verifier::ext_equal]
pub ghost struct PartitionView {
    pub mountpoint: Seq<char>,
    pub blockdevice: Seq<char>,
    pub filesystem: Seq<char>,
}

impl View for Partition {
    type V = PartitionView;

    open spec fn view(&self) -> PartitionView {
        PartitionView {
            mountpoint: self.mountpoint@,
            blockdevice: self.blockdevice@,
            filesystem: self.filesystem@,
        }
    }
}

impl DeepView for Partition {
    type V = PartitionView;

    open spec fn deep_view(&self) -> PartitionView {
        self.view()
    }
}

impl Partition {
    pub fn new(mountpoint: String, blockdevice: String, filesystem: String) -> (r: Self)
        ensures
            r@ == (PartitionView {
                mountpoint: mountpoint@,
                blockdevice: blockdevice@,
                filesystem: filesystem@,
            }),
    {
        Self { mountpoint, blockdevice, filesystem }
    }
}

/// Whether the partitioner lays the device out itself or follows the given
/// partition specs.
#[derive(Debug, Clone, Copy, PartialEq, Eq, Structural)]
pub enum PartitionMode {
    Auto,
    Manual,
}

/// The mount command for a partition at a mountpoint, with optional mount
/// options.
pub open spec fn spec_mount_cmd(partition: Seq<char>, mountpoint: Seq<char>, options: Seq<char>) -> CmdView {
    if options.len() == 0 {
        host_cmd("mount"@, seq![partition, mountpoint])
    } else {
        host_cmd("mount"@, seq![partition, mountpoint, "-o"@, options])
    }
}

/// The command mounting `partition` at `mountpoint`; an empty `options`
/// string means no `-o` argument is passed.
pub fn mount(partition: &str, mountpoint: &str, options: &str) -> (c: Cmd)
    ensures
        c@ == spec_mount_cmd(partition@, mountpoint@, options@),
{
    if !options.is_empty() {
        cmd_new(false, "mount", args4(partition, mountpoint, "-o", options))
    } else {
        cmd_new(false, "mount", args2(partition, mountpoint))
    }
}

/// The command unmounting `mountpoint`.
pub fn umount(mountpoint: &str) -> (c: Cmd)
    ensures
        c@ == spec_umount_cmd(mountpoint@),
{
    cmd_new(false, "umount", args1(mountpoint))
}

/// The step creating a mountpoint directory (with parents).
pub open spec fn spec_mkdir_step(path: Seq<char>) -> StepView {
    StepView::Run(host_cmd("mkdir"@, seq!["-p"@, path]))
}

fn mkdir_step(path: &str) -> (s: Step)
    ensures
        s@ == spec_mkdir_step(path@),
{
    Step::Run(cmd_new(false, "mkdir", args2("-p", path)))
}

/// The step marking partition 1 of `device` as EFI System Partition. The
/// underlying operation is idempotent: see `lemma_esp_mark_idempotent`.
pub open spec fn spec_esp_on_step(device: Seq<char>) -> StepView {
    StepView::Run(host_cmd("parted"@, seq!["-s"@, device, "set"@, "1"@, "esp"@, "on"@]))
}

fn esp_on_step(device: &str) -> (s: Step)
    ensures
        s@ == spec_esp_on_step(device@),
{
    Step::Run(cmd_new(false, "parted", args6("-s", device, "set", "1", "esp", "on")))
}

/// The filesystem tags a partition spec may carry.
pub open spec fn spec_noformat(fs: Seq<char>) -> bool {
    fs == "noformat"@ || fs == "don't format"@
}

pub open spec fn known_filesystem(fs: Seq<char>) -> bool {
    ||| fs == "ext4"@
    ||| fs == "fat32"@
    ||| fs == "btrfs"@
    ||| fs == "xfs"@
    ||| spec_noformat(fs)
}

/// The six filesystem tags are pairwise distinct character sequences.
proof fn lemma_fs_literals_distinct()
    ensures
        "ext4"@ != "fat32"@,
        "ext4"@ != "btrfs"@,
        "ext4"@ != "xfs"@,
        "ext4"@ != "noformat"@,
        "ext4"@ != "don't format"@,
        "fat32"@ != "btrfs"@,
        "fat32"@ != "xfs"@,
        "fat32"@ != "noformat"@,
        "fat32"@ != "don't format"@,
        "btrfs"@ != "xfs"@,
        "btrfs"@ != "noformat"@,
        "btrfs"@ != "don't format"@,
        "xfs"@ != "noformat"@,
        "xfs"@ != "don't format"@,
{
    reveal_strlit("ext4");
    reveal_strlit("fat32");
    reveal_strlit("btrfs");
    reveal_strlit("xfs");
    reveal_strlit("noformat");
    reveal_strlit("don't format");
    assert("ext4"@.len() == 4);
    assert("fat32"@.len() == 5);
    assert("btrfs"@.len() == 5);
    assert("xfs"@.len() == 3);
    assert("noformat"@.len() == 8);
    assert("don't format"@.len() == 12);
    assert("fat32"@[0] == 'f');
    assert("btrfs"@[0] == 'b');
}

/// The formatting step for a formatting filesystem tag.
pub open spec fn spec_format_step(fs: Seq<char>, blockdevice: Seq<char>) -> StepView {
    if fs == "ext4"@ {
        StepView::Run(host_cmd("mkfs.ext4"@, seq![blockdevice]))
    } else if fs == "fat32"@ {
        StepView::Run(host_cmd("mkfs.fat"@, seq!["-F32"@, blockdevice]))
    } else if fs == "btrfs"@ {
        StepView::Run(host_cmd("mkfs.btrfs"@, seq!["-f"@, blockdevice]))
    } else {
        StepView::Run(host_cmd("mkfs.xfs"@, seq![blockdevice]))
    }
}

/// The steps handling one partition spec: format it (unless the tag asks not
/// to), create the mountpoint, mount it there.
pub open spec fn spec_fmt_mount(mp: Seq<char>, fs: Seq<char>, bd: Seq<char>) -> Seq<StepView> {
    if spec_noformat(fs) {
        seq![spec_mkdir_step(mp), StepView::Run(spec_mount_cmd(bd, mp, Seq::<char>::empty()))]
    } else {
        seq![
            spec_format_step(fs, bd),
            spec_mkdir_step(mp),
            StepView::Run(spec_mount_cmd(bd, mp, Seq::<char>::empty())),
        ]
    }
}

/// Format `blockdevice` as `filesystem`, create `mountpoint` and mount it
/// there; a `noformat` tag skips the formatting but still mounts. An unknown
/// filesystem tag is a configuration error and plans nothing.
pub fn fmt_mount(mountpoint: &str, filesystem: &str, blockdevice: &str) -> (r: Result<
    Vec<Step>,
    ConfigError,
>)
    ensures
        known_filesystem(filesystem@) ==> (r matches Ok(steps) && steps.deep_view()
            == spec_fmt_mount(mountpoint@, filesystem@, blockdevice@)),
        !known_filesystem(filesystem@) ==> (r matches Err(ConfigError::UnknownFilesystem {
            filesystem: f,
            blockdevice: b,
        }) && f@ == filesystem@ && b@ == blockdevice@),
{
    let mut steps: Vec<Step> = Vec::new();
    if str_eq(filesystem, "ext4") {
        steps.push(Step::Run(cmd_new(false, "mkfs.ext4", args1(blockdevice))));
    } else if str_eq(filesystem, "fat32") {
        steps.push(Step::Run(cmd_new(false, "mkfs.fat", args2("-F32", blockdevice))));
    } else if str_eq(filesystem, "btrfs") {
        steps.push(Step::Run(cmd_new(false, "mkfs.btrfs", args2("-f", blockdevice))));
    } else if str_eq(filesystem, "xfs") {
        steps.push(Step::Run(cmd_new(false, "mkfs.xfs", args1(blockdevice))));
    } else if str_eq(filesystem, "noformat") || str_eq(filesystem, "don't format") {
        // formatting skipped; the mountpoint is still created and mounted
    } else {
        return Err(ConfigError::UnknownFilesystem {
            filesystem: String::from_str(filesystem),
            blockdevice: String::from_str(blockdevice),
        });
    }
    steps.push(mkdir_step(mountpoint));
    steps.push(Step::Run(mount(blockdevice, mountpoint, "")));
    proof {
        reveal_strlit("");
        lemma_fs_literals_distinct();
        assert(steps.deep_view() =~~= spec_fmt_mount(mountpoint@, filesystem@, blockdevice@));
    }
    Ok(steps)
}

/// NVMe- and MMC-style device names carry a `p` before the partition number;
/// every other device name takes the bare number.
pub open spec fn nvme_style(device: Seq<char>) -> bool {
    contains_seq(device, "nvme"@) || contains_seq(device, "mmcblk"@)
}

/// The path of partition `n` of `device` under the given naming style.
pub open spec fn spec_part_path(device: Seq<char>, nvme: bool, n: nat) -> Seq<char> {
    (if nvme {
        device + "p"@
    } else {
        device
    }) + spec_dec(n)
}

/// How partition paths are derived from a device path.
#[derive(Debug, Clone, Copy, PartialEq, Eq, Structural)]
pub enum DeviceNamer {
    /// Bare numeric suffix, as for `sd` devices.
    Standard,
    /// `p`-prefixed numeric suffix, as for NVMe and MMC devices.
    NvmeStyle,
}

impl DeviceNamer {
    /// The naming style of a device path.
    pub open spec fn spec_of(device: Seq<char>) -> DeviceNamer {
        if nvme_style(device) {
            DeviceNamer::NvmeStyle
        } else {
            DeviceNamer::Standard
        }
    }

    /// Select the naming style once from the device path.
    pub fn of_device(device: &str) -> (r: DeviceNamer)
        ensures
            r == DeviceNamer::spec_of(device@),
    {
        if contains_str(device, "nvme") || contains_str(device, "mmcblk") {
            DeviceNamer::NvmeStyle
        } else {
            DeviceNamer::Standard
        }
    }

    /// The path of partition `n` of `device`.
    pub fn part_path(&self, device: &str, n: u64) -> (r: String)
        ensures
            r@ == spec_part_path(device@, *self is NvmeStyle, n as nat),
    {
        let num = u64_to_dec(n);
        match self {
            DeviceNamer::NvmeStyle => {
                let mut s = concat_str(device, "p");
                s.append(num.as_str());
                proof {
                    assert(s@ =~= spec_part_path(device@, true, n as nat));
                }
                s
            },
            DeviceNamer::Standard => {
                let mut s = String::from_str(device);
                s.append(num.as_str());
                proof {
                    assert(s@ =~= spec_part_path(device@, false, n as nat));
                }
                s
            },
        }
    }
}

/// The four `parted` steps laying out the GPT label on the device: the label
/// itself, the EFI partition over the first ~300 units, its ESP mark, and the
/// primary partition from 512 units to the end of the device.
pub open spec fn spec_gpt_label_plan(device: Seq<char>) -> Seq<StepView> {
    seq![
        StepView::Run(host_cmd("parted"@, seq!["-s"@, device, "mklabel"@, "gpt"@])),
        StepView::Run(host_cmd("parted"@, seq!["-s"@, device, "mkpart"@, "fat32"@, "0"@, "300"@])),
        spec_esp_on_step(device),
        StepView::Run(
            host_cmd(
                "parted"@,
                seq!["-s"@, device, "mkpart"@, "primary"@, "ext4"@, "512MIB"@, "100%"@],
            ),
        ),
    ]
}

/// Plan the GPT label and the two partitions on `device`.
pub fn partition_with_efi(device: &str) -> (steps: Vec<Step>)
    ensures
        steps.deep_view() == spec_gpt_label_plan(device@),
{
    let mut steps: Vec<Step> = Vec::new();
    steps.push(Step::Run(cmd_new(false, "parted", args4("-s", device, "mklabel", "gpt"))));
    steps.push(Step::Run(cmd_new(false, "parted", args6("-s", device, "mkpart", "fat32", "0", "300"))));
    steps.push(esp_on_step(device));
    steps.push(
        Step::Run(cmd_new(false, "parted", args7("-s", device, "mkpart", "primary", "ext4", "512MIB", "100%"))),
    );
    proof {
        assert(steps.deep_view() =~~= spec_gpt_label_plan(device@));
    }
    steps
}

/// The formatting and mounting steps for an NVMe-class device (EFI layout):
/// partition 1 as FAT32 mounted at the boot-EFI mountpoint and marked ESP,
/// partition 2 as ext4 mounted at the staging root.
pub open spec fn spec_nvme_steps(device: Seq<char>) -> Seq<StepView> {
    let p1 = spec_part_path(device, true, 1);
    let p2 = spec_part_path(device, true, 2);
    seq![
        StepView::Run(host_cmd("mkfs.fat"@, seq!["-F32"@, p1])),
        StepView::Run(host_cmd("mkfs.ext4"@, seq![p2])),
        StepView::Run(spec_mount_cmd(p2, "/mnt"@, Seq::<char>::empty())),
        StepView::CreateDir("/mnt/boot"@),
        StepView::CreateDir("/mnt/boot/efi"@),
        StepView::Run(spec_mount_cmd(p1, "/mnt/boot/efi"@, Seq::<char>::empty())),
        spec_esp_on_step(device),
    ]
}

/// The formatting and mounting steps for a standard device: with EFI the
/// same layout as NVMe (FAT32 boot partition marked ESP); without EFI both
/// partitions are ext4 and partition 1 is mounted at the boot directory.
pub open spec fn spec_disk_steps(device: Seq<char>, efi: bool) -> Seq<StepView> {
    let p1 = spec_part_path(device, false, 1);
    let p2 = spec_part_path(device, false, 2);
    if efi {
        seq![
            StepView::Run(host_cmd("mkfs.fat"@, seq!["-F32"@, p1])),
            StepView::Run(host_cmd("mkfs.ext4"@, seq![p2])),
            StepView::Run(spec_mount_cmd(p2, "/mnt"@, Seq::<char>::empty())),
            StepView::CreateDir("/mnt/boot"@),
            StepView::CreateDir("/mnt/boot/efi"@),
            StepView::Run(spec_mount_cmd(p1, "/mnt/boot/efi"@, Seq::<char>::empty())),
            spec_esp_on_step(device),
        ]
    } else {
        seq![
            StepView::Run(host_cmd("mkfs.ext4"@, seq![p1])),
            StepView::Run(host_cmd("mkfs.ext4"@, seq![p2])),
            StepView::Run(spec_mount_cmd(p2, "/mnt/"@, Seq::<char>::empty())),
            StepView::CreateDir("/mnt/boot"@),
            StepView::Run(spec_mount_cmd(p1, "/mnt/boot"@, Seq::<char>::empty())),
        ]
    }
}

/// Format and mount the two derived partitions of an NVMe-class device.
/// These devices are only partitioned with EFI: asking for an EFI-less
/// layout is a configuration error, and nothing is planned.
pub fn part_nvme(device: &str, efi: bool) -> (r: Result<Vec<Step>, ConfigError>)
    ensures
        efi ==> (r matches Ok(steps) && steps.deep_view() == spec_nvme_steps(device@)),
        !efi ==> (r matches Err(ConfigError::EfiRequired { device: d }) && d@ == device@),
{
    if !efi {
        return Err(ConfigError::EfiRequired { device: String::from_str(device) });
    }
    let p1 = DeviceNamer::NvmeStyle.part_path(device, 1);
    let p2 = DeviceNamer::NvmeStyle.part_path(device, 2);
    let mut steps: Vec<Step> = Vec::new();
    steps.push(Step::Run(cmd_new(false, "mkfs.fat", args2("-F32", p1.as_str()))));
    steps.push(Step::Run(cmd_new(false, "mkfs.ext4", args1(p2.as_str()))));
    steps.push(Step::Run(mount(p2.as_str(), "/mnt", "")));
    steps.push(Step::CreateDir(String::from_str("/mnt/boot")));
    steps.push(Step::CreateDir(String::from_str("/mnt/boot/efi")));
    steps.push(Step::Run(mount(p1.as_str(), "/mnt/boot/efi", "")));
    steps.push(esp_on_step(device));
    proof {
        reveal_strlit("");
        assert(steps.deep_view() =~~= spec_nvme_steps(device@));
    }
    Ok(steps)
}

/// Format and mount the two derived partitions of a standard device, with or
/// without an EFI layout.
pub fn part_disk(device: &str, efi: bool) -> (steps: Vec<Step>)
    ensures
        steps.deep_view() == spec_disk_steps(device@, efi),
{
    let p1 = DeviceNamer::Standard.part_path(device, 1);
    let p2 = DeviceNamer::Standard.part_path(device, 2);
    let mut steps: Vec<Step> = Vec::new();
    if efi {
        steps.push(Step::Run(cmd_new(false, "mkfs.fat", args2("-F32", p1.as_str()))));
        steps.push(Step::Run(cmd_new(false, "mkfs.ext4", args1(p2.as_str()))));
        steps.push(Step::Run(mount(p2.as_str(), "/mnt", "")));
        steps.push(Step::CreateDir(String::from_str("/mnt/boot")));
        steps.push(Step::CreateDir(String::from_str("/mnt/boot/efi")));
        steps.push(Step::Run(mount(p1.as_str(), "/mnt/boot/efi", "")));
        steps.push(esp_on_step(device));
    } else {
        steps.push(Step::Run(cmd_new(false, "mkfs.ext4", args1(p1.as_str()))));
        steps.push(Step::Run(cmd_new(false, "mkfs.ext4", args1(p2.as_str()))));
        steps.push(Step::Run(mount(p2.as_str(), "/mnt/", "")));
        steps.push(Step::CreateDir(String::from_str("/mnt/boot")));
        steps.push(Step::Run(mount(p1.as_str(), "/mnt/boot", "")));
    }
    proof {
        reveal_strlit("");
        assert(steps.deep_view() =~~= spec_disk_steps(device@, efi));
    }
    steps
}

/// The whole automatic plan: the GPT label steps followed by the
/// format/mount steps of the device's naming style.
pub open spec fn spec_auto_plan(device: Seq<char>, efi: bool) -> Seq<StepView> {
    spec_gpt_label_plan(device) + (if nvme_style(device) {
        spec_nvme_steps(device)
    } else {
        spec_disk_steps(device, efi)
    })
}

/// Execution order of a manual plan: non-decreasing mountpoint path length,
/// so a parent directory is prepared before anything nested beneath it.
pub open spec fn mp_sorted(parts: Seq<PartitionView>) -> bool {
    forall|i: int, j: int|
        0 <= i < j < parts.len() ==> parts[i].mountpoint.len() <= parts[j].mountpoint.len()
}

/// Index of the spec with the shortest mountpoint.
fn min_mp_index(v: &Vec<Partition>) -> (m: usize)
    requires
        v@.len() > 0,
    ensures
        m < v@.len(),
        forall|j: int|
            0 <= j < v@.len() ==> v.deep_view()[m as int].mountpoint.len()
                <= v.deep_view()[j].mountpoint.len(),
{
    let mut m: usize = 0;
    let mut best: usize = v[0].mountpoint.as_str().unicode_len();
    let mut i: usize = 1;
    while i < v.len()
        invariant
            m < v@.len(),
            1 <= i <= v@.len(),
            best == v.deep_view()[m as int].mountpoint.len(),
            forall|j: int| 0 <= j < i ==> best <= v.deep_view()[j].mountpoint.len(),
        decreases v@.len() - i,
    {
        let li = v[i].mountpoint.as_str().unicode_len();
        if li < best {
            m = i;
            best = li;
        }
        i += 1;
    }
    m
}

/// Sort the partition specs by mountpoint path length, ascending. The result
/// is a permutation of the input.
#[verifier::loop_isolation(false)]
pub fn sort_partitions(v: &mut Vec<Partition>)
    ensures
        mp_sorted(final(v).deep_view()),
        final(v).deep_view().to_multiset() == old(v).deep_view().to_multiset(),
{
    let ghost orig = v.deep_view();
    let mut out: Vec<Partition> = Vec::new();
    proof {
        assert(out.deep_view() =~= Seq::<PartitionView>::empty());
        assert(out.deep_view().to_multiset().add(v.deep_view().to_multiset())
            =~= orig.to_multiset());
    }
    while v.len() > 0
        invariant
            mp_sorted(out.deep_view()),
            forall|i: int, j: int|
                0 <= i < out.deep_view().len() && 0 <= j < v.deep_view().len()
                    ==> out.deep_view()[i].mountpoint.len() <= v.deep_view()[j].mountpoint.len(),
            out.deep_view().to_multiset().add(v.deep_view().to_multiset()) == orig.to_multiset(),
        decreases v@.len(),
    {
        let m = min_mp_index(v);
        let ghost pre_v = v.deep_view();
        let ghost pre_out = out.deep_view();
        let x = v.remove(m);
        out.push(x);
        proof {
            assert(v.deep_view() =~= pre_v.remove(m as int));
            assert(out.deep_view() =~= pre_out.push(pre_v[m as int]));
            assert(out.deep_view().to_multiset().add(v.deep_view().to_multiset()) =~= orig.to_multiset());
            assert forall|i: int, j: int|
                0 <= i < out.deep_view().len() && 0 <= j < v.deep_view().len()
                    implies out.deep_view()[i].mountpoint.len()
                    <= v.deep_view()[j].mountpoint.len() by {
                assert(v.deep_view()[j] == if j < m { pre_v[j] } else { pre_v[j + 1] });
            }
        }
    }
    *v = out;
}

/// The steps for one spec of a manual plan: format and mount it, and mark it
/// as ESP when it is the conventional EFI mountpoint.
pub open spec fn spec_manual_step(p: PartitionView) -> Seq<StepView> {
    spec_fmt_mount(p.mountpoint, p.filesystem, p.blockdevice) + (if p.mountpoint == "/boot/efi"@ {
        seq![spec_esp_on_step(p.blockdevice)]
    } else {
        Seq::<StepView>::empty()
    })
}

/// The full manual plan over specs already in execution order.
pub open spec fn spec_manual_plan(parts: Seq<PartitionView>) -> Seq<StepView>
    decreases parts.len(),
{
    if parts.len() == 0 {
        Seq::<StepView>::empty()
    } else {
        spec_manual_plan(parts.drop_last()) + spec_manual_step(parts.last())
    }
}

/// `i` is the first position whose filesystem tag is unknown.
pub open spec fn unknown_at(parts: Seq<PartitionView>, i: int) -> bool {
    &&& 0 <= i < parts.len()
    &&& !known_filesystem(parts[i].filesystem)
    &&& forall|j: int| 0 <= j < i ==> known_filesystem(parts[j].filesystem)
}

/// Plan the whole partitioning.
///
/// Automatic mode requires the target device to exist, derives the two
/// partition paths by the device's naming style, and lays out the GPT label
/// followed by the per-style format/mount steps; an NVMe-class device without
/// EFI is a configuration error. Manual mode first sorts the specs by
/// mountpoint path length (the execution order), and plans each spec in that
/// order, marking the conventional EFI mountpoint as ESP; an unknown
/// filesystem tag is a configuration error.
#[verifier::rlimit(30)]
#[verifier::loop_isolation(false)]
pub fn partition(
    device: &str,
    device_exists: bool,
    mode: PartitionMode,
    efi: bool,
    partitions: &mut Vec<Partition>,
) -> (r: Result<Vec<Step>, ConfigError>)
    requires
        mode == PartitionMode::Manual ==> distinct_mountpoints(old(partitions).deep_view()),
    ensures
        mode == PartitionMode::Auto ==> {
            &&& *final(partitions) == *old(partitions)
            &&& match r {
                Ok(steps) => {
                    &&& device_exists
                    &&& (efi || !nvme_style(device@))
                    &&& steps.deep_view() == spec_auto_plan(device@, efi)
                },
                Err(ConfigError::MissingDevice { device: d }) => !device_exists && d@ == device@,
                Err(ConfigError::EfiRequired { device: d }) => {
                    &&& device_exists
                    &&& nvme_style(device@)
                    &&& !efi
                    &&& d@ == device@
                },
                Err(_) => false,
            }
        },
        mode == PartitionMode::Manual ==> {
            &&& mp_sorted(final(partitions).deep_view())
            &&& final(partitions).deep_view().to_multiset() == old(
                partitions,
            ).deep_view().to_multiset()
            &&& match r {
                Ok(steps) => {
                    let parts = final(partitions).deep_view();
                    &&& forall|j: int|
                        0 <= j < parts.len() ==> known_filesystem(#[trigger] parts[j].filesystem)
                    &&& steps.deep_view() == spec_manual_plan(parts)
                },
                Err(ConfigError::UnknownFilesystem { filesystem: f, blockdevice: b }) => {
                    let parts = final(partitions).deep_view();
                    exists|i: int|
                        {
                            &&& #[trigger] unknown_at(parts, i)
                            &&& f@ == parts[i].filesystem
                            &&& b@ == parts[i].blockdevice
                        }
                },
                Err(_) => false,
            }
        },
{
    match mode {
        PartitionMode::Auto => {
            if !device_exists {
                return Err(ConfigError::MissingDevice { device: String::from_str(device) });
            }
            let mut steps = partition_with_efi(device);
            let namer = DeviceNamer::of_device(device);
            match namer {
                DeviceNamer::NvmeStyle => {
                    match part_nvme(device, efi) {
                        Ok(mut more) => {
                            let ghost pre = steps.deep_view();
                            let ghost extra = more.deep_view();
                            steps.append(&mut more);
                            proof {
                                assert(steps.deep_view() =~~= pre + extra);
                            }
                            Ok(steps)
                        },
                        Err(e) => Err(e),
                    }
                },
                DeviceNamer::Standard => {
                    let mut more = part_disk(device, efi);
                    let ghost pre = steps.deep_view();
                    let ghost extra = more.deep_view();
                    steps.append(&mut more);
                    proof {
                        assert(steps.deep_view() =~~= pre + extra);
                    }
                    Ok(steps)
                },
            }
        },
        PartitionMode::Manual => {
            sort_partitions(partitions);
            let ghost parts = partitions.deep_view();
            let mut steps: Vec<Step> = Vec::new();
            let mut idx: usize = 0;
            proof {
                assert(parts.take(0) =~= Seq::<PartitionView>::empty());
                assert(steps.deep_view() =~= Seq::<StepView>::empty());
            }
            while idx < partitions.len()
                invariant
                    parts == partitions.deep_view(),
                    idx <= parts.len(),
                    forall|j: int| 0 <= j < idx ==> known_filesystem(parts[j].filesystem),
                    steps.deep_view() == spec_manual_plan(parts.take(idx as int)),
                decreases parts.len() - idx,
            {
                let p_mp = partitions[idx].mountpoint.as_str();
                let p_fs = partitions[idx].filesystem.as_str();
                let p_bd = partitions[idx].blockdevice.as_str();
                let ghost pre_steps = steps.deep_view();
                match fmt_mount(p_mp, p_fs, p_bd) {
                    Ok(mut sub) => {
                        let ghost sub_view = sub.deep_view();
                        steps.append(&mut sub);
                        proof {
                            assert(steps.deep_view() =~~= pre_steps + sub_view);
                        }
                    },
                    Err(e) => {
                        proof {
                            assert(unknown_at(parts, idx as int));
                        }
                        return Err(e);
                    },
                }
                if str_eq(p_mp, "/boot/efi") {
                    let ghost pre2 = steps.deep_view();
                    steps.push(esp_on_step(p_bd));
                    proof {
                        assert(steps.deep_view() =~~= pre2.push(spec_esp_on_step(parts[idx as int].blockdevice)));
                    }
                }
                proof {
                    assert(parts.take(idx + 1int).drop_last() =~= parts.take(idx as int));
                    assert(parts.take(idx + 1int).last() == parts[idx as int]);
                    assert(steps.deep_view() =~~= spec_manual_plan(parts.take(idx as int))
                        + spec_manual_step(parts[idx as int]));
                    assert(steps.deep_view() =~~= spec_manual_plan(parts.take(idx + 1int)));
                }
                idx += 1;
            }
            proof {
                assert(parts.take(parts.len() as int) =~= parts);
            }
            Ok(steps)
        },
    }
}

/// The slice of the disk state that the ESP mark acts on: which devices have
/// their first partition flagged as EFI System Partition.
#[verifier::ext_equal]
pub ghost struct EspState {
    pub marked: Set<Seq<char>>,
}

/// The device a step marks as ESP, if it is such a mark.
pub open spec fn esp_mark_device(step: StepView) -> Option<Seq<char>> {
    match step {
        StepView::Run(c) => if c == host_cmd(
            "parted"@,
            seq!["-s"@, c.args[1], "set"@, "1"@, "esp"@, "on"@],
        ) {
            Some(c.args[1])
        } else {
            None
        },
        _ => None,
    }
}

/// The effect of one step on the ESP marks: a mark step records its device,
/// every other step leaves the marks alone.
pub open spec fn spec_step_esp(s: EspState, step: StepView) -> EspState {
    match esp_mark_device(step) {
        Some(dev) => EspState { marked: s.marked.insert(dev) },
        None => s,
    }
}

/// The effect of a whole plan on the ESP marks, step by step.
pub open spec fn spec_plan_esp(s: EspState, plan: Seq<StepView>) -> EspState
    decreases plan.len(),
{
    if plan.len() == 0 {
        s
    } else {
        spec_plan_esp(spec_step_esp(s, plan[0]), plan.drop_first())
    }
}

/// The devices a plan marks as ESP.
pub open spec fn spec_esp_devices(plan: Seq<StepView>) -> Set<Seq<char>>
    decreases plan.len(),
{
    if plan.len() == 0 {
        Set::<Seq<char>>::empty()
    } else {
        (match esp_mark_device(plan[0]) {
            Some(dev) => Set::<Seq<char>>::empty().insert(dev),
            None => Set::<Seq<char>>::empty(),
        }) + spec_esp_devices(plan.drop_first())
    }
}

/// The ESP mark step of `dev` acts on exactly `dev`.
pub proof fn lemma_esp_on_step_device(dev: Seq<char>)
    ensures
        esp_mark_device(spec_esp_on_step(dev)) == Some(dev),
{
    assert(seq!["-s"@, dev, "set"@, "1"@, "esp"@, "on"@][1] == dev);
}

/// Law: marking a partition as ESP is idempotent. Applying any step twice in
/// a row leaves the ESP marks exactly as applying it once does, so a plan
/// that marks a partition already marked (a manual plan re-run) asks nothing
/// new of the disk.
pub proof fn lemma_esp_mark_idempotent(s: EspState, step: StepView)
    ensures
        spec_step_esp(spec_step_esp(s, step), step) == spec_step_esp(s, step),
{
    assert(spec_step_esp(spec_step_esp(s, step), step) =~~= spec_step_esp(s, step));
}

/// A plan's effect on the ESP marks is exactly to add the devices it marks.
pub proof fn lemma_plan_esp_union(s: EspState, plan: Seq<StepView>)
    ensures
        spec_plan_esp(s, plan).marked == s.marked + spec_esp_devices(plan),
    decreases plan.len(),
{
    if plan.len() == 0 {
        assert(spec_plan_esp(s, plan).marked =~= s.marked + spec_esp_devices(plan));
    } else {
        lemma_plan_esp_union(spec_step_esp(s, plan[0]), plan.drop_first());
        assert(spec_plan_esp(s, plan).marked =~= s.marked + spec_esp_devices(plan));
    }
}

/// Law: re-running a whole plan leaves the ESP marks exactly as the first
/// run left them.
pub proof fn lemma_plan_esp_rerun(s: EspState, plan: Seq<StepView>)
    ensures
        spec_plan_esp(spec_plan_esp(s, plan), plan) == spec_plan_esp(s, plan),
{
    lemma_plan_esp_union(s, plan);
    lemma_plan_esp_union(spec_plan_esp(s, plan), plan);
    assert(spec_plan_esp(spec_plan_esp(s, plan), plan) =~~= spec_plan_esp(s, plan));
}

/// The decimal renderings of the two partition numbers.
pub proof fn lemma_dec_digits()
    ensures
        spec_dec(1) == seq!['1'],
        spec_dec(2) == seq!['2'],
{
    assert(spec_dec(1) =~= seq!['1']);
    assert(spec_dec(2) =~= seq!['2']);
}

/// Law: automatic partitioning with EFI on a standard device (one without an
/// NVMe- or MMC-style name) derives the partition paths by bare numeric
/// suffixes: partition 1 is formatted FAT32, mounted at the boot-EFI
/// mountpoint and marked ESP; partition 2 is formatted ext4 and mounted at
/// the staging root.
pub proof fn lemma_auto_standard_efi_layout(device: Seq<char>)
    requires
        !nvme_style(device),
    ensures
        ({
            let plan = spec_auto_plan(device, true);
            let p1 = device + seq!['1'];
            let p2 = device + seq!['2'];
            &&& plan.len() == 11
            &&& plan[4] == StepView::Run(host_cmd("mkfs.fat"@, seq!["-F32"@, p1]))
            &&& plan[5] == StepView::Run(host_cmd("mkfs.ext4"@, seq![p2]))
            &&& plan[6] == StepView::Run(host_cmd("mount"@, seq![p2, "/mnt"@]))
            &&& plan[9] == StepView::Run(host_cmd("mount"@, seq![p1, "/mnt/boot/efi"@]))
            &&& plan[10] == spec_esp_on_step(device)
        }),
{
    lemma_dec_digits();
    let plan = spec_auto_plan(device, true);
    assert(spec_part_path(device, false, 1) == device + seq!['1']);
    assert(spec_part_path(device, false, 2) == device + seq!['2']);
    assert(plan[4] == spec_disk_steps(device, true)[0]);
    assert(plan[5] == spec_disk_steps(device, true)[1]);
    assert(plan[6] == spec_disk_steps(device, true)[2]);
    assert(plan[9] == spec_disk_steps(device, true)[5]);
    assert(plan[10] == spec_disk_steps(device, true)[6]);
}

/// Law: automatic partitioning with EFI on an NVMe-style device derives the
/// partition paths by `p`-prefixed numeric suffixes, with the same roles as
/// on a standard device.
pub proof fn lemma_auto_nvme_efi_layout(device: Seq<char>)
    requires
        nvme_style(device),
    ensures
        ({
            let plan = spec_auto_plan(device, true);
            let p1 = device + seq!['p', '1'];
            let p2 = device + seq!['p', '2'];
            &&& plan.len() == 11
            &&& plan[4] == StepView::Run(host_cmd("mkfs.fat"@, seq!["-F32"@, p1]))
            &&& plan[5] == StepView::Run(host_cmd("mkfs.ext4"@, seq![p2]))
            &&& plan[6] == StepView::Run(host_cmd("mount"@, seq![p2, "/mnt"@]))
            &&& plan[9] == StepView::Run(host_cmd("mount"@, seq![p1, "/mnt/boot/efi"@]))
            &&& plan[10] == spec_esp_on_step(device)
        }),
{
    lemma_dec_digits();
    reveal_strlit("p");
    let plan = spec_auto_plan(device, true);
    assert(spec_part_path(device, true, 1) =~= device + seq!['p', '1']);
    assert(spec_part_path(device, true, 2) =~= device + seq!['p', '2']);
    assert(plan[4] == spec_nvme_steps(device)[0]);
    assert(plan[5] == spec_nvme_steps(device)[1]);
    assert(plan[6] == spec_nvme_steps(device)[2]);
    assert(plan[9] == spec_nvme_steps(device)[5]);
    assert(plan[10] == spec_nvme_steps(device)[6]);
}


/// A run step that is no ESP mark: wrong program, wrong arity, or not a
/// `set` operation.
proof fn lemma_not_esp_run(c: CmdView)
    requires
        c.program != "parted"@ || c.args.len() != 6 || c.args[2] != "set"@,
    ensures
        esp_mark_device(StepView::Run(c)) is None,
{
    if c == host_cmd("parted"@, seq!["-s"@, c.args[1], "set"@, "1"@, "esp"@, "on"@]) {
        assert(c.args == seq!["-s"@, c.args[1], "set"@, "1"@, "esp"@, "on"@]);
        assert(c.args.len() == 6);
        assert(c.args[2] == "set"@);
    }
}

/// The program names of the planned commands are distinct where it matters
/// for recognising the ESP mark.
proof fn lemma_esp_literals()
    ensures
        "mkfs.ext4"@ != "parted"@,
        "mkfs.fat"@ != "parted"@,
        "mkfs.btrfs"@ != "parted"@,
        "mkfs.xfs"@ != "parted"@,
        "mkdir"@ != "parted"@,
        "mount"@ != "parted"@,
        "mkpart"@ != "set"@,
{
    reveal_strlit("mkfs.ext4");
    reveal_strlit("mkfs.fat");
    reveal_strlit("mkfs.btrfs");
    reveal_strlit("mkfs.xfs");
    reveal_strlit("mkdir");
    reveal_strlit("mount");
    reveal_strlit("parted");
    reveal_strlit("mkpart");
    reveal_strlit("set");
    assert("mkfs.ext4"@.len() == 9);
    assert("mkfs.fat"@.len() == 8);
    assert("mkfs.btrfs"@.len() == 10);
    assert("mkfs.xfs"@.len() == 8);
    assert("mkdir"@.len() == 5);
    assert("mount"@.len() == 5);
    assert("parted"@.len() == 6);
    assert("mkpart"@.len() == 6);
    assert("set"@.len() == 3);
}

/// Concatenated plans mark the union of what each part marks.
pub proof fn lemma_esp_devices_concat(a: Seq<StepView>, b: Seq<StepView>)
    ensures
        spec_esp_devices(a + b) == spec_esp_devices(a) + spec_esp_devices(b),
    decreases a.len(),
{
    if a.len() == 0 {
        assert(a + b =~= b);
        assert(spec_esp_devices(a + b) =~= spec_esp_devices(a) + spec_esp_devices(b));
    } else {
        assert((a + b).drop_first() =~= a.drop_first() + b);
        assert((a + b)[0] == a[0]);
        lemma_esp_devices_concat(a.drop_first(), b);
        assert(spec_esp_devices(a + b) =~= spec_esp_devices(a) + spec_esp_devices(b));
    }
}

/// Formatting and mounting one spec marks nothing.
proof fn lemma_fmt_mount_esp_free(mp: Seq<char>, fs: Seq<char>, bd: Seq<char>)
    ensures
        spec_esp_devices(spec_fmt_mount(mp, fs, bd)) == Set::<Seq<char>>::empty(),
{
    lemma_esp_literals();
    let plan = spec_fmt_mount(mp, fs, bd);
    assert forall|i: int| 0 <= i < plan.len() implies esp_mark_device(#[trigger] plan[i]) is None by {
        match plan[i] {
            StepView::Run(c) => {
                lemma_not_esp_run(c);
            },
            _ => {},
        }
    }
    assert(spec_esp_devices(plan) =~= Set::<Seq<char>>::empty()) by {
        lemma_esp_devices_pointwise(plan);
    }
}

/// A plan without ESP marks marks nothing.
proof fn lemma_esp_devices_pointwise(plan: Seq<StepView>)
    requires
        forall|i: int| 0 <= i < plan.len() ==> esp_mark_device(#[trigger] plan[i]) is None,
    ensures
        spec_esp_devices(plan) == Set::<Seq<char>>::empty(),
    decreases plan.len(),
{
    if plan.len() > 0 {
        assert(forall|i: int|
            0 <= i < plan.drop_first().len() ==> esp_mark_device(
                #[trigger] plan.drop_first()[i],
            ) is None);
        lemma_esp_devices_pointwise(plan.drop_first());
        assert(spec_esp_devices(plan) =~= Set::<Seq<char>>::empty());
    } else {
        assert(spec_esp_devices(plan) =~= Set::<Seq<char>>::empty());
    }
}

/// The plan of just one ESP mark marks just its device.
proof fn lemma_esp_devices_single(d: Seq<char>)
    ensures
        spec_esp_devices(seq![spec_esp_on_step(d)]) == Set::<Seq<char>>::empty().insert(d),
{
    lemma_esp_on_step_device(d);
    let single = seq![spec_esp_on_step(d)];
    assert(single[0] == spec_esp_on_step(d));
    assert(single.drop_first() =~= Seq::<StepView>::empty());
    assert(spec_esp_devices(single.drop_first()) == Set::<Seq<char>>::empty());
    assert(spec_esp_devices(single) =~= Set::<Seq<char>>::empty().insert(d));
}

/// No two specs of a manual plan may claim the same mountpoint.
pub open spec fn distinct_mountpoints(parts: Seq<PartitionView>) -> bool {
    forall|i: int, j: int|
        0 <= i < j < parts.len() ==> parts[i].mountpoint != parts[j].mountpoint
}

/// The devices of the specs mounted at the conventional EFI mountpoint.
pub open spec fn spec_efi_devices(parts: Seq<PartitionView>) -> Set<Seq<char>> {
    Set::new(
        |d: Seq<char>|
            exists|i: int|
                0 <= i < parts.len() && #[trigger] parts[i].mountpoint == "/boot/efi"@
                    && parts[i].blockdevice == d,
    )
}

/// Law: a manual plan marks as ESP exactly the block devices of the specs
/// mounted at the conventional EFI mountpoint, besides whatever was marked
/// before — so re-running the plan re-marks the same devices and nothing
/// else.
pub proof fn lemma_manual_plan_esp(s: EspState, parts: Seq<PartitionView>)
    ensures
        spec_plan_esp(s, spec_manual_plan(parts)).marked == s.marked + spec_efi_devices(parts),
    decreases parts.len(),
{
    lemma_plan_esp_union(s, spec_manual_plan(parts));
    lemma_manual_devices(parts);
}

/// The devices a manual plan marks, computed spec by spec.
proof fn lemma_manual_devices(parts: Seq<PartitionView>)
    ensures
        spec_esp_devices(spec_manual_plan(parts)) == spec_efi_devices(parts),
    decreases parts.len(),
{
    if parts.len() == 0 {
        assert(spec_esp_devices(spec_manual_plan(parts)) =~= spec_efi_devices(parts));
    } else {
        let front = parts.drop_last();
        let p = parts.last();
        lemma_manual_devices(front);
        lemma_esp_devices_concat(spec_manual_plan(front), spec_manual_step(p));
        lemma_fmt_mount_esp_free(p.mountpoint, p.filesystem, p.blockdevice);
        lemma_esp_devices_concat(
            spec_fmt_mount(p.mountpoint, p.filesystem, p.blockdevice),
            if p.mountpoint == "/boot/efi"@ {
                seq![spec_esp_on_step(p.blockdevice)]
            } else {
                Seq::<StepView>::empty()
            },
        );
        if p.mountpoint == "/boot/efi"@ {
            lemma_esp_devices_single(p.blockdevice);
        } else {
            assert(spec_esp_devices(Seq::<StepView>::empty()) =~= Set::<Seq<char>>::empty());
        }
        assert forall|d: Seq<char>| spec_efi_devices(parts).contains(d) implies (spec_efi_devices(
            front,
        ) + (if p.mountpoint == "/boot/efi"@ {
            Set::<Seq<char>>::empty().insert(p.blockdevice)
        } else {
            Set::<Seq<char>>::empty()
        })).contains(d) by {
            let i = choose|i: int|
                0 <= i < parts.len() && #[trigger] parts[i].mountpoint == "/boot/efi"@
                    && parts[i].blockdevice == d;
            if i < parts.len() - 1 {
                assert(front[i] == parts[i]);
            }
        }
        assert forall|d: Seq<char>| (spec_efi_devices(front) + (if p.mountpoint == "/boot/efi"@ {
            Set::<Seq<char>>::empty().insert(p.blockdevice)
        } else {
            Set::<Seq<char>>::empty()
        })).contains(d) implies spec_efi_devices(parts).contains(d) by {
            if spec_efi_devices(front).contains(d) {
                let i = choose|i: int|
                    0 <= i < front.len() && #[trigger] front[i].mountpoint == "/boot/efi"@
                        && front[i].blockdevice == d;
                assert(parts[i] == front[i]);
            } else {
                assert(parts[parts.len() - 1] == p);
            }
        }
        assert(spec_esp_devices(spec_manual_plan(parts)) =~= spec_efi_devices(parts));
    }
}

/// Law: an automatic plan marks as ESP exactly the target device (the GPT
/// label steps already flag its first partition, with or without the EFI
/// layout), besides whatever was marked before.
pub proof fn lemma_auto_plan_esp(s: EspState, device: Seq<char>, efi: bool)
    requires
        efi || !nvme_style(device),
    ensures
        spec_plan_esp(s, spec_auto_plan(device, efi)).marked == s.marked.insert(device),
{
    lemma_plan_esp_union(s, spec_auto_plan(device, efi));
    lemma_esp_literals();
    lemma_esp_on_step_device(device);
    lemma_esp_devices_concat(
        spec_gpt_label_plan(device),
        if nvme_style(device) {
            spec_nvme_steps(device)
        } else {
            spec_disk_steps(device, efi)
        },
    );
    assert(spec_esp_devices(spec_gpt_label_plan(device)) =~= Set::<Seq<char>>::empty().insert(
        device,
    )) by {
        let plan = spec_gpt_label_plan(device);
        let front = plan.take(2);
        let single = seq![spec_esp_on_step(device)];
        let tail = plan.skip(3);
        assert(plan =~= front + (single + tail));
        lemma_esp_devices_concat(front, single + tail);
        lemma_esp_devices_concat(single, tail);
        assert forall|i: int| 0 <= i < front.len() implies esp_mark_device(
            #[trigger] front[i],
        ) is None by {
            match front[i] {
                StepView::Run(c) => {
                    lemma_not_esp_run(c);
                },
                _ => {},
            }
        }
        lemma_esp_devices_pointwise(front);
        assert forall|i: int| 0 <= i < tail.len() implies esp_mark_device(
            #[trigger] tail[i],
        ) is None by {
            match tail[i] {
                StepView::Run(c) => {
                    lemma_not_esp_run(c);
                },
                _ => {},
            }
        }
        lemma_esp_devices_pointwise(tail);
        lemma_esp_devices_single(device);
    }
    if nvme_style(device) {
        let arm = spec_nvme_steps(device);
        assert(spec_esp_devices(arm) =~= Set::<Seq<char>>::empty().insert(device)) by {
            lemma_nvme_arm_devices(device);
        }
    } else {
        let arm = spec_disk_steps(device, efi);
        assert(spec_esp_devices(arm) =~= (if efi {
            Set::<Seq<char>>::empty().insert(device)
        } else {
            Set::<Seq<char>>::empty()
        })) by {
            lemma_disk_arm_devices(device, efi);
        }
    }
    assert(spec_plan_esp(s, spec_auto_plan(device, efi)).marked =~= s.marked.insert(device));
}

/// The NVMe arm marks exactly the device.
proof fn lemma_nvme_arm_devices(device: Seq<char>)
    ensures
        spec_esp_devices(spec_nvme_steps(device)) == Set::<Seq<char>>::empty().insert(device),
{
    lemma_esp_literals();
    lemma_esp_on_step_device(device);
    let front = spec_nvme_steps(device).take(6);
    let arm = spec_nvme_steps(device);
    assert(arm =~= front + seq![spec_esp_on_step(device)]);
    lemma_esp_devices_concat(front, seq![spec_esp_on_step(device)]);
    assert forall|i: int| 0 <= i < front.len() implies esp_mark_device(#[trigger] front[i]) is None by {
        match front[i] {
            StepView::Run(c) => {
                lemma_not_esp_run(c);
            },
            _ => {},
        }
    }
    lemma_esp_devices_pointwise(front);
    lemma_esp_devices_single(device);
    assert(spec_esp_devices(arm) =~= Set::<Seq<char>>::empty().insert(device));
}

/// The standard-device arm marks the device with EFI, and nothing without.
proof fn lemma_disk_arm_devices(device: Seq<char>, efi: bool)
    ensures
        spec_esp_devices(spec_disk_steps(device, efi)) == (if efi {
            Set::<Seq<char>>::empty().insert(device)
        } else {
            Set::<Seq<char>>::empty()
        }),
{
    lemma_esp_literals();
    let arm = spec_disk_steps(device, efi);
    if efi {
        lemma_esp_on_step_device(device);
        let front = arm.take(6);
        assert(arm =~= front + seq![spec_esp_on_step(device)]);
        lemma_esp_devices_concat(front, seq![spec_esp_on_step(device)]);
        assert forall|i: int| 0 <= i < front.len() implies esp_mark_device(
            #[trigger] front[i],
        ) is None by {
            match front[i] {
                StepView::Run(c) => {
                    lemma_not_esp_run(c);
                },
                _ => {},
            }
        }
        lemma_esp_devices_pointwise(front);
        lemma_esp_devices_single(device);
        assert(spec_esp_devices(arm) =~= Set::<Seq<char>>::empty().insert(device));
    } else {
        assert forall|i: int| 0 <= i < arm.len() implies esp_mark_device(#[trigger] arm[i]) is None by {
            match arm[i] {
                StepView::Run(c) => {
                    lemma_not_esp_run(c);
                },
                _ => {},
            }
        }
        lemma_esp_devices_pointwise(arm);
    }
}


/// No step of the plan runs under the soft policy.
pub open spec fn fatal_only(plan: Seq<StepView>) -> bool {
    forall|i: int| 0 <= i < plan.len() ==> !(#[trigger] plan[i] is RunSoft)
}

/// Law: partitioning has no tolerated failures. Every step of a manual plan
/// runs under the fatal policy: a failure mid-sequence ends the
/// installation rather than continuing over a broken layout.
pub proof fn lemma_manual_plan_fatal_only(parts: Seq<PartitionView>)
    ensures
        fatal_only(spec_manual_plan(parts)),
    decreases parts.len(),
{
    if parts.len() > 0 {
        lemma_manual_plan_fatal_only(parts.drop_last());
        let front = spec_manual_plan(parts.drop_last());
        let step = spec_manual_step(parts.last());
        assert forall|i: int| 0 <= i < step.len() implies !(#[trigger] step[i] is RunSoft) by {
            let fm = spec_fmt_mount(
                parts.last().mountpoint,
                parts.last().filesystem,
                parts.last().blockdevice,
            );
            if i < fm.len() {
                assert(step[i] == fm[i]);
            }
        }
        assert forall|i: int|
            0 <= i < spec_manual_plan(parts).len() implies !(#[trigger] spec_manual_plan(
            parts,
        )[i] is RunSoft) by {
            if i < front.len() {
                assert(spec_manual_plan(parts)[i] == front[i]);
            } else {
                assert(spec_manual_plan(parts)[i] == step[i - front.len()]);
            }
        }
    }
}

/// Law: automatic partitioning has no tolerated failures either.
pub proof fn lemma_auto_plan_fatal_only(device: Seq<char>, efi: bool)
    ensures
        fatal_only(spec_auto_plan(device, efi)),
{
    let label = spec_gpt_label_plan(device);
    let arm = if nvme_style(device) {
        spec_nvme_steps(device)
    } else {
        spec_disk_steps(device, efi)
    };
    assert forall|i: int|
        0 <= i < spec_auto_plan(device, efi).len() implies !(#[trigger] spec_auto_plan(
        device,
        efi,
    )[i] is RunSoft) by {
        if i < label.len() {
            assert(spec_auto_plan(device, efi)[i] == label[i]);
        } else {
            assert(spec_auto_plan(device, efi)[i] == arm[i - label.len()]);
        }
    }
}

} // verus!
