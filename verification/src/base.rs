//! Base-system planning: the packages that populate the staging root, the
//! keyring setup, fstab generation, the bootloader installation, the live
//! configuration copy, the NVIDIA driver configuration rewrites, and swap.

use vstd::prelude::*;
use vstd::string::*;
use crate::command::{Step, StepView, target_cmd, host_cmd, cmd_new, args1, args2, args3, args4};
use crate::eval::ConfigError;
use crate::strutil::{
    str_eq, starts_with, contains_str, concat_str, is_prefix, contains_seq, u64_to_dec, spec_dec,
};

verus! {

/// The kernel package that a requested kernel name selects: the known kernel
/// names select themselves, everything else (the empty request too) falls
/// back to the default kernel.
pub open spec fn spec_kernel_choice(kernel: Seq<char>) -> Seq<char> {
    if kernel == "linux"@ || kernel == "linux-lts"@ || kernel == "linux-zen"@ || kernel
        == "linux-hardened"@ {
        kernel
    } else {
        "linux"@
    }
}

/// Select the kernel package for a requested kernel name.
pub fn kernel_choice<'a>(kernel: &'a str) -> (r: &'a str)
    ensures
        r@ == spec_kernel_choice(kernel@),
{
    if str_eq(kernel, "linux") || str_eq(kernel, "linux-lts") || str_eq(kernel, "linux-zen")
        || str_eq(kernel, "linux-hardened") {
        kernel
    } else {
        "linux"
    }
}

/// The base package set, with the selected kernel and its headers.
pub open spec fn spec_base_packages(kernel: Seq<char>) -> Seq<Seq<char>> {
    let k = spec_kernel_choice(kernel);
    seq![
        "base"@,
            k,
            k + "-headers"@,
        "linux-firmware"@,
        "sof-firmware"@,
        "man-db"@,
        "man-pages"@,
        "nano"@,
        "sudo"@,
        "curl"@,
        "wget"@,
        "archlinux-keyring"@,
        "grep"@,
        "about-axos"@,
        "axos-hooks"@,
        "axos-hooks-extra"@,
        "plymouth-theme-axos"@,
        "epsilon"@,
        "axos-wallpaper-collection"@,
        "grub-theme-axos"@,
        "axctl"@,
        "fastfetch"@,
        "axos/plymouth"@,
        "plymouth-theme-axos"@,
        "noto-fonts"@,
        "noto-fonts-cjk"@,
        "noto-fonts-extra"@,
        "ttf-nerd-fonts-symbols-common"@,
        "pipewire"@,
        "pipewire-pulse"@,
        "pipewire-alsa"@,
        "wireplumber"@,
        "power-profiles-daemon"@,
        "cups"@,
        "cups-pdf"@,
        "bluez"@,
        "bluez-cups"@,
        "zsh-completions"@,
        "ttf-liberation"@,
        "dnsmasq"@,
        "xdg-user-dirs"@,
        "firefox"@,
        "bash"@,
        "bash-completion"@,
        "inxi"@,
        "acpi"@,
        "htop"@,
        "fwupd"@,
        "ntp"@,
        "kf6"@,
        "packagekit-qt6"@,
        "gnome-packagekit"@,
        "packagekit"@,
        "unzip"@,
        "xf86-video-amdgpu"@,
        "xf86-video-intel"@,
        "xf86-video-nouveau"@,
        "xf86-video-vesa"@,
        "mesa"@,
        "vulkan-intel"@,
        "vulkan-radeon"@,
        "vulkan-icd-loader"@,
        "chaotic-keyring"@,
        "chaotic-mirrorlist"@,
        "sddm"@,
        "sddm-theme-axos"@,
    ]
}

/// The whole base installation plan: prepare the configuration directory,
/// install the base set (retried), copy the package-manager configuration,
/// and enable the bluetooth and printing services in the target.
pub open spec fn spec_install_base_plan(kernel: Seq<char>) -> Seq<StepView> {
    seq![
        StepView::CreateDir("/mnt/etc"@),
        StepView::Install(spec_base_packages(kernel), true),
        StepView::CopyFile("/etc/pacman.conf"@, "/mnt/etc/pacman.conf"@),
        StepView::Run(target_cmd("systemctl"@, seq!["enable"@, "bluetooth"@])),
        StepView::Run(target_cmd("systemctl"@, seq!["enable"@, "cups"@])),
    ]
}

/// Plan the base installation for the requested kernel.
#[verifier::rlimit(80)]
pub fn install_base_packages(kernel: &str) -> (steps: Vec<Step>)
    ensures
        steps.deep_view() == spec_install_base_plan(kernel@),
{
    let k = kernel_choice(kernel);
    let mut pkgs: Vec<String> = Vec::new();
    pkgs.push(String::from_str("base"));
    pkgs.push(String::from_str(k));
    pkgs.push(concat_str(k, "-headers"));
    pkgs.push(String::from_str("linux-firmware"));
    pkgs.push(String::from_str("sof-firmware"));
    pkgs.push(String::from_str("man-db"));
    pkgs.push(String::from_str("man-pages"));
    pkgs.push(String::from_str("nano"));
    pkgs.push(String::from_str("sudo"));
    pkgs.push(String::from_str("curl"));
    pkgs.push(String::from_str("wget"));
    pkgs.push(String::from_str("archlinux-keyring"));
    pkgs.push(String::from_str("grep"));
    pkgs.push(String::from_str("about-axos"));
    pkgs.push(String::from_str("axos-hooks"));
    pkgs.push(String::from_str("axos-hooks-extra"));
    pkgs.push(String::from_str("plymouth-theme-axos"));
    pkgs.push(String::from_str("epsilon"));
    pkgs.push(String::from_str("axos-wallpaper-collection"));
    pkgs.push(String::from_str("grub-theme-axos"));
    pkgs.push(String::from_str("axctl"));
    pkgs.push(String::from_str("fastfetch"));
    pkgs.push(String::from_str("axos/plymouth"));
    pkgs.push(String::from_str("plymouth-theme-axos"));
    pkgs.push(String::from_str("noto-fonts"));
    pkgs.push(String::from_str("noto-fonts-cjk"));
    pkgs.push(String::from_str("noto-fonts-extra"));
    pkgs.push(String::from_str("ttf-nerd-fonts-symbols-common"));
    pkgs.push(String::from_str("pipewire"));
    pkgs.push(String::from_str("pipewire-pulse"));
    pkgs.push(String::from_str("pipewire-alsa"));
    pkgs.push(String::from_str("wireplumber"));
    pkgs.push(String::from_str("power-profiles-daemon"));
    pkgs.push(String::from_str("cups"));
    pkgs.push(String::from_str("cups-pdf"));
    pkgs.push(String::from_str("bluez"));
    pkgs.push(String::from_str("bluez-cups"));
    pkgs.push(String::from_str("zsh-completions"));
    pkgs.push(String::from_str("ttf-liberation"));
    pkgs.push(String::from_str("dnsmasq"));
    pkgs.push(String::from_str("xdg-user-dirs"));
    pkgs.push(String::from_str("firefox"));
    pkgs.push(String::from_str("bash"));
    pkgs.push(String::from_str("bash-completion"));
    pkgs.push(String::from_str("inxi"));
    pkgs.push(String::from_str("acpi"));
    pkgs.push(String::from_str("htop"));
    pkgs.push(String::from_str("fwupd"));
    pkgs.push(String::from_str("ntp"));
    pkgs.push(String::from_str("kf6"));
    pkgs.push(String::from_str("packagekit-qt6"));
    pkgs.push(String::from_str("gnome-packagekit"));
    pkgs.push(String::from_str("packagekit"));
    pkgs.push(String::from_str("unzip"));
    pkgs.push(String::from_str("xf86-video-amdgpu"));
    pkgs.push(String::from_str("xf86-video-intel"));
    pkgs.push(String::from_str("xf86-video-nouveau"));
    pkgs.push(String::from_str("xf86-video-vesa"));
    pkgs.push(String::from_str("mesa"));
    pkgs.push(String::from_str("vulkan-intel"));
    pkgs.push(String::from_str("vulkan-radeon"));
    pkgs.push(String::from_str("vulkan-icd-loader"));
    pkgs.push(String::from_str("chaotic-keyring"));
    pkgs.push(String::from_str("chaotic-mirrorlist"));
    pkgs.push(String::from_str("sddm"));
    pkgs.push(String::from_str("sddm-theme-axos"));
    proof {
        assert(pkgs.deep_view() =~~= spec_base_packages(kernel@));
    }
    let mut steps: Vec<Step> = Vec::new();
    steps.push(Step::CreateDir(String::from_str("/mnt/etc")));
    steps.push(Step::Install(pkgs, true));
    steps.push(Step::CopyFile(
        String::from_str("/etc/pacman.conf"),
        String::from_str("/mnt/etc/pacman.conf"),
    ));
    steps.push(Step::Run(cmd_new(true, "systemctl", args2("enable", "bluetooth"))));
    steps.push(Step::Run(cmd_new(true, "systemctl", args2("enable", "cups"))));
    proof {
        assert(steps.deep_view() =~~= spec_install_base_plan(kernel@));
    }
    steps
}

/// The keyring preparation inside the target: create the package manager's
/// keyring and load the distribution keys.
pub open spec fn spec_keyring_plan() -> Seq<StepView> {
    seq![
        StepView::Run(target_cmd("pacman-key"@, seq!["--init"@])),
        StepView::Run(target_cmd("pacman-key"@, seq!["--populate"@, "archlinux"@])),
    ]
}

pub fn setup_archlinux_keyring() -> (steps: Vec<Step>)
    ensures
        steps.deep_view() == spec_keyring_plan(),
{
    let mut steps: Vec<Step> = Vec::new();
    steps.push(Step::Run(cmd_new(true, "pacman-key", args1("--init"))));
    steps.push(Step::Run(cmd_new(true, "pacman-key", args2("--populate", "archlinux"))));
    proof {
        assert(steps.deep_view() =~~= spec_keyring_plan());
    }
    steps
}

/// Install the flatpak tooling (best-effort) and register its remote.
pub open spec fn spec_flatpak_plan() -> Seq<StepView> {
    seq![
        StepView::Install(seq!["flatpak"@], false),
        StepView::Run(
            target_cmd(
                "flatpak"@,
                seq![
                    "remote-add"@,
                    "--if-not-exists"@,
                    "flathub"@,
                    "https://dl.flathub.org/repo/flathub.flatpakrepo"@,
                ],
            ),
        ),
    ]
}

pub fn install_flatpak() -> (steps: Vec<Step>)
    ensures
        steps.deep_view() == spec_flatpak_plan(),
{
    let mut steps: Vec<Step> = Vec::new();
    let mut pkgs: Vec<String> = Vec::new();
    pkgs.push(String::from_str("flatpak"));
    steps.push(Step::Install(pkgs, false));
    steps.push(
        Step::Run(
            cmd_new(
                true,
                "flatpak",
                args4(
                    "remote-add",
                    "--if-not-exists",
                    "flathub",
                    "https://dl.flathub.org/repo/flathub.flatpakrepo",
                ),
            ),
        ),
    );
    proof {
        assert(steps.deep_view() =~~= spec_flatpak_plan());
    }
    steps
}

/// Generate the mount table of the staging root.
pub open spec fn spec_genfstab_plan() -> Seq<StepView> {
    seq![
        StepView::Run(host_cmd("bash"@, seq!["-c"@, "genfstab -U /mnt >> /mnt/etc/fstab"@])),
    ]
}

pub fn genfstab() -> (steps: Vec<Step>)
    ensures
        steps.deep_view() == spec_genfstab_plan(),
{
    let mut steps: Vec<Step> = Vec::new();
    steps.push(Step::Run(cmd_new(false, "bash", args2("-c", "genfstab -U /mnt >> /mnt/etc/fstab"))));
    proof {
        assert(steps.deep_view() =~~= spec_genfstab_plan());
    }
    steps
}

/// Where the staging root expects the EFI directory: an absolute path is
/// taken as is, a relative one is placed under the staging root.
pub open spec fn spec_mnt_join(efidir: Seq<char>) -> Seq<char> {
    if efidir.len() > 0 && efidir[0] == '/' {
        efidir
    } else {
        "/mnt/"@ + efidir
    }
}

/// Join a requested EFI directory onto the staging root convention.
pub fn mnt_join(efidir: &str) -> (r: String)
    ensures
        r@ == spec_mnt_join(efidir@),
{
    let hit = starts_with(efidir, "/");
    if hit {
        proof {
            reveal_strlit("/");
            assert("/"@.len() == 1);
            assert("/"@[0] == '/');
            assert(efidir@.subrange(0, 1)[0] == efidir@[0]);
            assert(efidir@[0] == '/');
        }
        String::from_str(efidir)
    } else {
        proof {
            reveal_strlit("/");
            assert("/"@.len() == 1);
            assert("/"@[0] == '/');
            if efidir@.len() > 0 && efidir@[0] == '/' {
                assert(efidir@.subrange(0, 1) =~= "/"@);
                assert(is_prefix("/"@, efidir@));
            }
        }
        concat_str("/mnt/", efidir)
    }
}

/// The packages the EFI bootloader installation needs.
pub open spec fn spec_grub_efi_pkgs() -> Seq<Seq<char>> {
    seq!["axos/grub"@, "efibootmgr"@, "os-prober"@]
}

/// The EFI bootloader plan: install the bootloader packages (retried), run
/// the EFI installation twice (once removable, once not), and generate the
/// bootloader configuration — all inside the target.
pub open spec fn spec_bootloader_efi_plan(efidir: Seq<char>) -> Seq<StepView> {
    let e = "--efi-directory="@ + spec_mnt_join(efidir);
    seq![
        StepView::Install(spec_grub_efi_pkgs(), true),
        StepView::Run(
            target_cmd(
                "grub-install"@,
                seq!["--target=x86_64-efi"@, e, "--bootloader-id=axos"@, "--removable"@],
            ),
        ),
        StepView::Run(
            target_cmd("grub-install"@, seq!["--target=x86_64-efi"@, e, "--bootloader-id=axos"@]),
        ),
        StepView::Run(target_cmd("grub-mkconfig"@, seq!["-o"@, "/boot/grub/grub.cfg"@])),
    ]
}

/// Plan the EFI bootloader installation. `efidir_exists` reports whether the
/// joined EFI directory is present under the staging root; without it the
/// request is a configuration error and nothing is planned.
pub fn install_bootloader_efi(efidir: &str, efidir_exists: bool) -> (r: Result<
    Vec<Step>,
    ConfigError,
>)
    ensures
        efidir_exists ==> (r matches Ok(steps) && steps.deep_view() == spec_bootloader_efi_plan(
            efidir@,
        )),
        !efidir_exists ==> (r matches Err(ConfigError::MissingEfiDir { efidir: e }) && e@
            == spec_mnt_join(efidir@)),
{
    let joined = mnt_join(efidir);
    if !efidir_exists {
        return Err(ConfigError::MissingEfiDir { efidir: joined });
    }
    let efi_arg = concat_str("--efi-directory=", joined.as_str());
    let mut pkgs: Vec<String> = Vec::new();
    pkgs.push(String::from_str("axos/grub"));
    pkgs.push(String::from_str("efibootmgr"));
    pkgs.push(String::from_str("os-prober"));
    let mut steps: Vec<Step> = Vec::new();
    steps.push(Step::Install(pkgs, true));
    steps.push(
        Step::Run(
            cmd_new(
                true,
                "grub-install",
                args4("--target=x86_64-efi", efi_arg.as_str(), "--bootloader-id=axos", "--removable"),
            ),
        ),
    );
    steps.push(
        Step::Run(
            cmd_new(
                true,
                "grub-install",
                args3("--target=x86_64-efi", efi_arg.as_str(), "--bootloader-id=axos"),
            ),
        ),
    );
    steps.push(Step::Run(cmd_new(true, "grub-mkconfig", args2("-o", "/boot/grub/grub.cfg"))));
    proof {
        assert(steps.deep_view() =~~= spec_bootloader_efi_plan(efidir@));
    }
    Ok(steps)
}

/// The legacy (BIOS) bootloader plan for a target device.
pub open spec fn spec_bootloader_legacy_plan(device: Seq<char>) -> Seq<StepView> {
    seq![
        StepView::Install(seq!["axos/grub"@, "os-prober"@], true),
        StepView::Run(target_cmd("grub-install"@, seq!["--target=i386-pc"@, device])),
        StepView::Run(target_cmd("grub-mkconfig"@, seq!["-o"@, "/boot/grub/grub.cfg"@])),
    ]
}

/// Plan the legacy bootloader installation onto `device`, which must exist.
pub fn install_bootloader_legacy(device: &str, device_exists: bool) -> (r: Result<
    Vec<Step>,
    ConfigError,
>)
    ensures
        device_exists ==> (r matches Ok(steps) && steps.deep_view() == spec_bootloader_legacy_plan(
            device@,
        )),
        !device_exists ==> (r matches Err(ConfigError::MissingDevice { device: d }) && d@
            == device@),
{
    if !device_exists {
        return Err(ConfigError::MissingDevice { device: String::from_str(device) });
    }
    let mut pkgs: Vec<String> = Vec::new();
    pkgs.push(String::from_str("axos/grub"));
    pkgs.push(String::from_str("os-prober"));
    let mut steps: Vec<Step> = Vec::new();
    steps.push(Step::Install(pkgs, true));
    steps.push(Step::Run(cmd_new(true, "grub-install", args2("--target=i386-pc", device))));
    steps.push(Step::Run(cmd_new(true, "grub-mkconfig", args2("-o", "/boot/grub/grub.cfg"))));
    proof {
        assert(steps.deep_view() =~~= spec_bootloader_legacy_plan(device@));
    }
    Ok(steps)
}

/// Carry the live system's configuration into the staging root.
pub open spec fn spec_copy_live_plan() -> Seq<StepView> {
    seq![
        StepView::CopyFile("/etc/pacman.conf"@, "/mnt/etc/pacman.conf"@),
        StepView::CopyFile("/etc/axos-version"@, "/mnt/etc/axos-version"@),
        StepView::CreateDir("/mnt/etc/sddm.conf.d"@),
        StepView::CopyFile("/etc/sddm.conf.d/settings.conf"@, "/mnt/etc/sddm.conf.d/settings.conf"@),
        StepView::CopyFile("/etc/sddm.conf"@, "/mnt/etc/sddm.conf"@),
    ]
}

pub fn copy_live_config() -> (steps: Vec<Step>)
    ensures
        steps.deep_view() == spec_copy_live_plan(),
{
    let mut steps: Vec<Step> = Vec::new();
    steps.push(Step::CopyFile(
        String::from_str("/etc/pacman.conf"),
        String::from_str("/mnt/etc/pacman.conf"),
    ));
    steps.push(Step::CopyFile(
        String::from_str("/etc/axos-version"),
        String::from_str("/mnt/etc/axos-version"),
    ));
    steps.push(Step::CreateDir(String::from_str("/mnt/etc/sddm.conf.d")));
    steps.push(Step::CopyFile(
        String::from_str("/etc/sddm.conf.d/settings.conf"),
        String::from_str("/mnt/etc/sddm.conf.d/settings.conf"),
    ));
    steps.push(Step::CopyFile(
        String::from_str("/etc/sddm.conf"),
        String::from_str("/mnt/etc/sddm.conf"),
    ));
    proof {
        assert(steps.deep_view() =~~= spec_copy_live_plan());
    }
    steps
}

/// The NVIDIA driver packages (installed with retries).
pub open spec fn spec_nvidia_plan() -> Seq<StepView> {
    seq![
        StepView::Install(
            seq!["dkms"@, "nvidia"@, "nvidia-dkms"@, "nvidia-utils"@, "egl-wayland"@],
            true,
        ),
    ]
}

pub fn install_nvidia_packages() -> (steps: Vec<Step>)
    ensures
        steps.deep_view() == spec_nvidia_plan(),
{
    let mut pkgs: Vec<String> = Vec::new();
    pkgs.push(String::from_str("dkms"));
    pkgs.push(String::from_str("nvidia"));
    pkgs.push(String::from_str("nvidia-dkms"));
    pkgs.push(String::from_str("nvidia-utils"));
    pkgs.push(String::from_str("egl-wayland"));
    let mut steps: Vec<Step> = Vec::new();
    steps.push(Step::Install(pkgs, true));
    proof {
        assert(steps.deep_view() =~~= spec_nvidia_plan());
    }
    steps
}

/// One line of the bootloader defaults file after enabling the NVIDIA
/// modesetting option: a quoted default command line that does not already
/// carry the option has it inserted right after the opening quote; every
/// other line is kept.
pub open spec fn spec_grub_nvidia_line(line: Seq<char>) -> Seq<char> {
    if is_prefix("GRUB_CMDLINE_LINUX_DEFAULT=\""@, line) && !contains_seq(
        line,
        "nvidia-drm.modeset=1"@,
    ) {
        "GRUB_CMDLINE_LINUX_DEFAULT=\"nvidia-drm.modeset=1 "@ + line.skip(
            "GRUB_CMDLINE_LINUX_DEFAULT=\""@.len() as int,
        )
    } else {
        line
    }
}

fn nvidia_grub_line(line: &str) -> (r: String)
    ensures
        r@ == spec_grub_nvidia_line(line@),
{
    let quote = "GRUB_CMDLINE_LINUX_DEFAULT=\"";
    if starts_with(line, quote) && !contains_str(line, "nvidia-drm.modeset=1") {
        let ql = quote.unicode_len();
        let rest = line.substring_char(ql, line.unicode_len());
        let r = concat_str("GRUB_CMDLINE_LINUX_DEFAULT=\"nvidia-drm.modeset=1 ", rest);
        proof {
            assert(line@.subrange(quote@.len() as int, line@.len() as int) =~= line@.skip(
                quote@.len() as int,
            ));
        }
        r
    } else {
        String::from_str(line)
    }
}

/// The bootloader defaults after enabling NVIDIA modesetting: every line is
/// rewritten by `spec_grub_nvidia_line`; when no line sets the default
/// command line at all, one that does is added at the end.
pub open spec fn spec_nvidia_grub(lines: Seq<Seq<char>>) -> Seq<Seq<char>> {
    let mapped = lines.map_values(|l: Seq<char>| spec_grub_nvidia_line(l));
    if exists|i: int|
        0 <= i < lines.len() && is_prefix("GRUB_CMDLINE_LINUX_DEFAULT="@, #[trigger] lines[i]) {
        mapped
    } else {
        mapped.push("GRUB_CMDLINE_LINUX_DEFAULT=\"nvidia-drm.modeset=1\""@)
    }
}

/// Rewrite the bootloader defaults file (given as lines) to enable NVIDIA
/// modesetting.
#[verifier::loop_isolation(false)]
pub fn nvidia_apply_grub(lines: &Vec<String>) -> (r: Vec<String>)
    ensures
        r.deep_view() == spec_nvidia_grub(lines.deep_view()),
{
    let ghost all = lines.deep_view();
    let ghost f = |l: Seq<char>| spec_grub_nvidia_line(l);
    let mut out: Vec<String> = Vec::new();
    let mut found = false;
    let mut i: usize = 0;
    proof {
        assert(out.deep_view() =~= all.take(0).map_values(f));
    }
    while i < lines.len()
        invariant
            i <= all.len(),
            out.deep_view() == all.take(i as int).map_values(f),
            found == exists|k: int|
                0 <= k < i && is_prefix("GRUB_CMDLINE_LINUX_DEFAULT="@, #[trigger] all[k]),
        decreases all.len() - i,
    {
        let line = &lines[i];
        if starts_with(line.as_str(), "GRUB_CMDLINE_LINUX_DEFAULT=") {
            found = true;
        }
        let ghost pre = out.deep_view();
        out.push(nvidia_grub_line(line.as_str()));
        proof {
            assert(out.deep_view() =~~= pre.push(f(all[i as int])));
            assert(out.deep_view() =~~= all.take(i + 1int).map_values(f));
        }
        i += 1;
    }
    proof {
        assert(all.take(all.len() as int) =~= all);
    }
    if !found {
        let ghost pre = out.deep_view();
        out.push(String::from_str("GRUB_CMDLINE_LINUX_DEFAULT=\"nvidia-drm.modeset=1\""));
        proof {
            assert(out.deep_view() =~~= pre.push(
                "GRUB_CMDLINE_LINUX_DEFAULT=\"nvidia-drm.modeset=1\""@,
            ));
        }
    }
    out
}

/// A line without its leading spaces and tabs.
pub open spec fn spec_trim_start(s: Seq<char>) -> Seq<char>
    decreases s.len(),
{
    if s.len() > 0 && (s[0] == ' ' || s[0] == '\t') {
        spec_trim_start(s.drop_first())
    } else {
        s
    }
}

fn trim_start_ws<'a>(s: &'a str) -> (r: &'a str)
    ensures
        r@ == spec_trim_start(s@),
{
    let n = s.unicode_len();
    let mut k: usize = 0;
    proof {
        assert(s@.skip(0) =~= s@);
    }
    while k < n
        invariant
            k <= n,
            n == s@.len(),
            spec_trim_start(s@) == spec_trim_start(s@.skip(k as int)),
        ensures
            k <= n,
            n == s@.len(),
            spec_trim_start(s@) == spec_trim_start(s@.skip(k as int)),
            k == n || !(s@[k as int] == ' ' || s@[k as int] == '\t'),
        decreases n - k,
    {
        let c = s.get_char(k);
        if !(c == ' ' || c == '\t') {
            break;
        }
        proof {
            assert(s@.skip(k as int)[0] == s@[k as int]);
            assert(s@.skip(k as int).drop_first() =~= s@.skip(k + 1int));
        }
        k += 1;
    }
    let r = s.substring_char(k, n);
    proof {
        assert(s@.subrange(k as int, n as int) =~= s@.skip(k as int));
        if k < n {
            assert(spec_trim_start(s@.skip(k as int)) == s@.skip(k as int));
        } else {
            assert(s@.skip(k as int) =~= Seq::<char>::empty());
        }
    }
    r
}

/// One line of the initramfs configuration after pinning the NVIDIA
/// modules: an uncommented MODULES line (leading whitespace allowed) is
/// replaced whole; every other line is kept.
pub open spec fn spec_mkinitcpio_nvidia_line(line: Seq<char>) -> Seq<char> {
    if is_prefix("MODULES="@, spec_trim_start(line)) {
        "MODULES=(nvidia nvidia_modeset nvidia_uvm nvidia_drm)"@
    } else {
        line
    }
}

fn mkinitcpio_nvidia_line(line: &str) -> (r: String)
    ensures
        r@ == spec_mkinitcpio_nvidia_line(line@),
{
    let trimmed = trim_start_ws(line);
    if starts_with(trimmed, "MODULES=") {
        String::from_str("MODULES=(nvidia nvidia_modeset nvidia_uvm nvidia_drm)")
    } else {
        String::from_str(line)
    }
}

/// The initramfs configuration after pinning the NVIDIA modules: every line
/// is rewritten by `spec_mkinitcpio_nvidia_line`; when no MODULES line was
/// there at all, one is added at the end.
pub open spec fn spec_nvidia_mkinitcpio(lines: Seq<Seq<char>>) -> Seq<Seq<char>> {
    let mapped = lines.map_values(|l: Seq<char>| spec_mkinitcpio_nvidia_line(l));
    if exists|i: int|
        0 <= i < lines.len() && is_prefix("MODULES="@, spec_trim_start(#[trigger] lines[i])) {
        mapped
    } else {
        mapped.push("MODULES=(nvidia nvidia_modeset nvidia_uvm nvidia_drm)"@)
    }
}

/// Rewrite the initramfs configuration (given as lines) to pin the NVIDIA
/// modules.
#[verifier::loop_isolation(false)]
pub fn nvidia_apply_mkinitcpio(lines: &Vec<String>) -> (r: Vec<String>)
    ensures
        r.deep_view() == spec_nvidia_mkinitcpio(lines.deep_view()),
{
    let ghost all = lines.deep_view();
    let ghost f = |l: Seq<char>| spec_mkinitcpio_nvidia_line(l);
    let mut out: Vec<String> = Vec::new();
    let mut found = false;
    let mut i: usize = 0;
    proof {
        assert(out.deep_view() =~= all.take(0).map_values(f));
    }
    while i < lines.len()
        invariant
            i <= all.len(),
            out.deep_view() == all.take(i as int).map_values(f),
            found == exists|k: int|
                0 <= k < i && is_prefix("MODULES="@, spec_trim_start(#[trigger] all[k])),
        decreases all.len() - i,
    {
        let line = &lines[i];
        let trimmed = trim_start_ws(line.as_str());
        if starts_with(trimmed, "MODULES=") {
            found = true;
        }
        let ghost pre = out.deep_view();
        out.push(mkinitcpio_nvidia_line(line.as_str()));
        proof {
            assert(out.deep_view() =~~= pre.push(f(all[i as int])));
            assert(out.deep_view() =~~= all.take(i + 1int).map_values(f));
        }
        i += 1;
    }
    proof {
        assert(all.take(all.len() as int) =~= all);
    }
    if !found {
        let ghost pre = out.deep_view();
        out.push(String::from_str("MODULES=(nvidia nvidia_modeset nvidia_uvm nvidia_drm)"));
        proof {
            assert(out.deep_view() =~~= pre.push(
                "MODULES=(nvidia nvidia_modeset nvidia_uvm nvidia_drm)"@,
            ));
        }
    }
    out
}

/// The swap plan: allocate a swapfile of `size` megabytes, restrict its
/// permissions, format it, and record it in the mount table.
pub open spec fn spec_swap_plan(size: u64) -> Seq<StepView> {
    seq![
        StepView::Run(
            host_cmd("fallocate"@, seq!["-l"@, spec_dec(size as nat) + "M"@, "/mnt/swapfile"@]),
        ),
        StepView::Run(host_cmd("chmod"@, seq!["600"@, "/mnt/swapfile"@])),
        StepView::Run(host_cmd("mkswap"@, seq!["/mnt/swapfile"@])),
        StepView::WriteFile("/mnt/etc/fstab"@, "\n/swapfile none swap defaults 0 0\n"@),
    ]
}

pub fn enable_swap(size: u64) -> (steps: Vec<Step>)
    ensures
        steps.deep_view() == spec_swap_plan(size),
{
    let mut size_arg = u64_to_dec(size);
    size_arg.append("M");
    let mut steps: Vec<Step> = Vec::new();
    steps.push(Step::Run(cmd_new(false, "fallocate", args3("-l", size_arg.as_str(), "/mnt/swapfile"))));
    steps.push(Step::Run(cmd_new(false, "chmod", args2("600", "/mnt/swapfile"))));
    steps.push(Step::Run(cmd_new(false, "mkswap", args1("/mnt/swapfile"))));
    steps.push(Step::WriteFile(
        String::from_str("/mnt/etc/fstab"),
        String::from_str("\n/swapfile none swap defaults 0 0\n"),
    ));
    proof {
        assert(steps.deep_view() =~~= spec_swap_plan(size));
    }
    steps
}

} // verus!

