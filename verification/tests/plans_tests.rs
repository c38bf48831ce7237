use axinstall::args::{DesktopSetup, UserKit};
use axinstall::base::{
    copy_live_config, enable_swap, genfstab, install_base_packages, install_bootloader_efi,
    install_bootloader_legacy, install_flatpak, install_nvidia_packages, nvidia_apply_grub,
    nvidia_apply_mkinitcpio, setup_archlinux_keyring,
};
use axinstall::command::Step;
use axinstall::desktops::{desktop_from_name, install_desktop_setup, set_sddm_theom_default};
use axinstall::eval::ConfigError;
use axinstall::locale::{set_keyboard, set_locale, set_timezone};
use axinstall::userkit::install_userkit;

fn as_run(step: &Step) -> (String, Vec<String>, bool) {
    match step {
        Step::Run(c) => (c.program.clone(), c.args.clone(), c.in_target),
        _ => panic!("expected a fatal command step"),
    }
}

fn as_install(step: &Step) -> (Vec<String>, bool) {
    match step {
        Step::Install(pkgs, retry) => (pkgs.clone(), *retry),
        _ => panic!("expected a package installation step"),
    }
}

#[test]
fn base_plan_selects_the_requested_kernel() {
    let steps = install_base_packages("linux-zen");
    assert!(matches!(&steps[0], Step::CreateDir(p) if p == "/mnt/etc"));
    let (pkgs, retry) = as_install(&steps[1]);
    assert!(retry);
    assert_eq!(pkgs[0], "base");
    assert_eq!(pkgs[1], "linux-zen");
    assert_eq!(pkgs[2], "linux-zen-headers");
    assert!(pkgs.iter().any(|p| p == "sddm"));
}

#[test]
fn base_plan_falls_back_to_the_default_kernel() {
    let steps = install_base_packages("");
    let (pkgs, _) = as_install(&steps[1]);
    assert_eq!(pkgs[1], "linux");
    assert_eq!(pkgs[2], "linux-headers");
    let steps = install_base_packages("mystery");
    let (pkgs, _) = as_install(&steps[1]);
    assert_eq!(pkgs[1], "linux");
}

#[test]
fn base_plan_enables_services_in_the_target() {
    let steps = install_base_packages("linux");
    assert!(matches!(&steps[2], Step::CopyFile(a, b)
        if a == "/etc/pacman.conf" && b == "/mnt/etc/pacman.conf"));
    let (prog, args, t) = as_run(&steps[3]);
    assert!(t);
    assert_eq!(prog, "systemctl");
    assert_eq!(args, vec!["enable", "bluetooth"]);
    let (prog, args, t) = as_run(&steps[4]);
    assert!(t);
    assert_eq!(prog, "systemctl");
    assert_eq!(args, vec!["enable", "cups"]);
}

#[test]
fn keyring_plan_runs_in_the_target() {
    let steps = setup_archlinux_keyring();
    let (prog, args, t) = as_run(&steps[0]);
    assert!(t);
    assert_eq!(prog, "pacman-key");
    assert_eq!(args, vec!["--init"]);
    let (prog, args, t) = as_run(&steps[1]);
    assert!(t);
    assert_eq!(prog, "pacman-key");
    assert_eq!(args, vec!["--populate", "archlinux"]);
}

#[test]
fn flatpak_plan_is_soft_install_then_remote() {
    let steps = install_flatpak();
    let (pkgs, retry) = as_install(&steps[0]);
    assert_eq!(pkgs, vec!["flatpak"]);
    assert!(!retry);
    let (prog, args, t) = as_run(&steps[1]);
    assert!(t);
    assert_eq!(prog, "flatpak");
    assert_eq!(
        args,
        vec![
            "remote-add",
            "--if-not-exists",
            "flathub",
            "https://dl.flathub.org/repo/flathub.flatpakrepo"
        ]
    );
}

#[test]
fn genfstab_plan_appends_to_the_mount_table() {
    let steps = genfstab();
    let (prog, args, t) = as_run(&steps[0]);
    assert!(!t);
    assert_eq!(prog, "bash");
    assert_eq!(args, vec!["-c", "genfstab -U /mnt >> /mnt/etc/fstab"]);
}

#[test]
fn efi_bootloader_plan_uses_the_joined_directory() {
    let steps = install_bootloader_efi("/boot/efi", true).unwrap();
    let (pkgs, retry) = as_install(&steps[0]);
    assert_eq!(pkgs, vec!["axos/grub", "efibootmgr", "os-prober"]);
    assert!(retry);
    let (prog, args, t) = as_run(&steps[1]);
    assert!(t);
    assert_eq!(prog, "grub-install");
    assert_eq!(
        args,
        vec![
            "--target=x86_64-efi",
            "--efi-directory=/boot/efi",
            "--bootloader-id=axos",
            "--removable"
        ]
    );
    let (_, args, _) = as_run(&steps[2]);
    assert_eq!(args, vec!["--target=x86_64-efi", "--efi-directory=/boot/efi", "--bootloader-id=axos"]);
    let (prog, args, _) = as_run(&steps[3]);
    assert_eq!(prog, "grub-mkconfig");
    assert_eq!(args, vec!["-o", "/boot/grub/grub.cfg"]);
}

#[test]
fn efi_bootloader_joins_relative_directories_under_the_staging_root() {
    match install_bootloader_efi("boot/efi", false) {
        Err(ConfigError::MissingEfiDir { efidir }) => assert_eq!(efidir, "/mnt/boot/efi"),
        _ => panic!("a missing EFI directory must be rejected"),
    }
}

#[test]
fn legacy_bootloader_plan_targets_the_device() {
    let steps = install_bootloader_legacy("/dev/sda", true).unwrap();
    let (pkgs, _) = as_install(&steps[0]);
    assert_eq!(pkgs, vec!["axos/grub", "os-prober"]);
    let (prog, args, t) = as_run(&steps[1]);
    assert!(t);
    assert_eq!(prog, "grub-install");
    assert_eq!(args, vec!["--target=i386-pc", "/dev/sda"]);
    match install_bootloader_legacy("/dev/sdq", false) {
        Err(ConfigError::MissingDevice { device }) => assert_eq!(device, "/dev/sdq"),
        _ => panic!("a missing device must be rejected"),
    }
}

#[test]
fn live_config_copy_plan_is_exact() {
    let steps = copy_live_config();
    assert_eq!(steps.len(), 5);
    assert!(matches!(&steps[2], Step::CreateDir(p) if p == "/mnt/etc/sddm.conf.d"));
    assert!(matches!(&steps[4], Step::CopyFile(a, b)
        if a == "/etc/sddm.conf" && b == "/mnt/etc/sddm.conf"));
}

#[test]
fn nvidia_grub_rewrite_inserts_the_modeset_option() {
    let lines = vec![
        "GRUB_TIMEOUT=5".to_string(),
        "GRUB_CMDLINE_LINUX_DEFAULT=\"quiet splash\"".to_string(),
    ];
    let out = nvidia_apply_grub(&lines);
    assert_eq!(out[0], "GRUB_TIMEOUT=5");
    assert_eq!(out[1], "GRUB_CMDLINE_LINUX_DEFAULT=\"nvidia-drm.modeset=1 quiet splash\"");
    assert_eq!(out.len(), 2);
}

#[test]
fn nvidia_grub_rewrite_keeps_an_existing_option_and_adds_a_missing_line() {
    let lines = vec!["GRUB_CMDLINE_LINUX_DEFAULT=\"nvidia-drm.modeset=1 quiet\"".to_string()];
    let out = nvidia_apply_grub(&lines);
    assert_eq!(out, lines);
    let out = nvidia_apply_grub(&vec!["GRUB_TIMEOUT=5".to_string()]);
    assert_eq!(out.len(), 2);
    assert_eq!(out[1], "GRUB_CMDLINE_LINUX_DEFAULT=\"nvidia-drm.modeset=1\"");
}

#[test]
fn nvidia_mkinitcpio_rewrite_replaces_the_modules_line() {
    let lines = vec![
        "# comment".to_string(),
        "  MODULES=()".to_string(),
        "HOOKS=(base udev)".to_string(),
    ];
    let out = nvidia_apply_mkinitcpio(&lines);
    assert_eq!(out[0], "# comment");
    assert_eq!(out[1], "MODULES=(nvidia nvidia_modeset nvidia_uvm nvidia_drm)");
    assert_eq!(out[2], "HOOKS=(base udev)");
    assert_eq!(out.len(), 3);
    let out = nvidia_apply_mkinitcpio(&vec!["HOOKS=()".to_string()]);
    assert_eq!(out.len(), 2);
    assert_eq!(out[1], "MODULES=(nvidia nvidia_modeset nvidia_uvm nvidia_drm)");
}

#[test]
fn nvidia_package_plan_retries() {
    let steps = install_nvidia_packages();
    let (pkgs, retry) = as_install(&steps[0]);
    assert_eq!(pkgs, vec!["dkms", "nvidia", "nvidia-dkms", "nvidia-utils", "egl-wayland"]);
    assert!(retry);
}

#[test]
fn swap_plan_renders_the_size_in_megabytes() {
    let steps = enable_swap(2048);
    let (prog, args, _) = as_run(&steps[0]);
    assert_eq!(prog, "fallocate");
    assert_eq!(args, vec!["-l", "2048M", "/mnt/swapfile"]);
    let (prog, args, _) = as_run(&steps[1]);
    assert_eq!(prog, "chmod");
    assert_eq!(args, vec!["600", "/mnt/swapfile"]);
    let (prog, args, _) = as_run(&steps[2]);
    assert_eq!(prog, "mkswap");
    assert_eq!(args, vec!["/mnt/swapfile"]);
    assert!(matches!(&steps[3], Step::WriteFile(p, c)
        if p == "/mnt/etc/fstab" && c == "\n/swapfile none swap defaults 0 0\n"));
}

#[test]
fn timezone_plan_links_the_zone() {
    let steps = set_timezone("Europe/Paris");
    let (prog, args, t) = as_run(&steps[0]);
    assert!(t);
    assert_eq!(prog, "ln");
    assert_eq!(args, vec!["-sf", "/usr/share/zoneinfo/Europe/Paris", "/etc/localtime"]);
    let (prog, args, t) = as_run(&steps[1]);
    assert!(t);
    assert_eq!(prog, "hwclock");
    assert_eq!(args, vec!["--systohc"]);
}

#[test]
fn locale_plan_appends_pairs_and_substitutes_non_defaults() {
    let steps = set_locale("de_DE.UTF-8 UTF-8");
    assert!(matches!(&steps[0], Step::AppendFile(p, l)
        if p == "/mnt/etc/locale.gen" && l == "en_US.UTF-8 UTF-8"));
    assert!(matches!(&steps[1], Step::CreateFile(p) if p == "/mnt/etc/locale.conf"));
    assert!(matches!(&steps[2], Step::AppendFile(p, l)
        if p == "/mnt/etc/locale.conf" && l == "LANG=en_US.UTF-8"));
    assert!(matches!(&steps[3], Step::AppendFile(p, l)
        if p == "/mnt/etc/locale.gen" && l == "de_DE.UTF-8 UTF-8\n"));
    assert!(matches!(&steps[4], Step::SedFile(p, from, to)
        if p == "/mnt/etc/locale.conf" && from == "en_US.UTF-8" && to == "de_DE.UTF-8"));
    let (prog, _, t) = as_run(&steps[5]);
    assert!(t);
    assert_eq!(prog, "locale-gen");
    assert_eq!(steps.len(), 6);
}

#[test]
fn locale_plan_default_locale_needs_no_substitution() {
    let steps = set_locale("en_US.UTF-8 UTF-8");
    assert_eq!(steps.len(), 5);
    assert!(matches!(&steps[3], Step::AppendFile(p, l)
        if p == "/mnt/etc/locale.gen" && l == "en_US.UTF-8 UTF-8\n"));
}

#[test]
fn keyboard_plan_writes_both_configurations() {
    let steps = set_keyboard("fr");
    assert!(matches!(&steps[0], Step::CreateFile(p) if p == "/mnt/etc/vconsole.conf"));
    assert!(matches!(&steps[1], Step::AppendFile(p, l)
        if p == "/mnt/etc/vconsole.conf" && l == "KEYMAP=fr"));
    assert!(matches!(&steps[2], Step::WriteFile(p, c)
        if p == "/mnt/etc/X11/xorg.conf.d/00-keyboard.conf"
        && c == "Section \"InputClass\"\nIdentifier \"system-keyboard\"\nMatchIsKeyboard \"on\"\nOption \"XkbLayout\" \"fr\"\nEndSection\n"));
}

#[test]
fn desktop_plan_always_ends_with_the_network_manager() {
    let steps = install_desktop_setup(DesktopSetup::NoDesktop);
    assert_eq!(steps.len(), 2);
    let (pkgs, retry) = as_install(&steps[0]);
    assert_eq!(pkgs, vec!["networkmanager"]);
    assert!(retry);
    let (prog, args, t) = as_run(&steps[1]);
    assert!(t);
    assert_eq!(prog, "systemctl");
    assert_eq!(args, vec!["enable", "NetworkManager"]);
}

#[test]
fn kde_plan_installs_and_enables_the_display_manager() {
    let steps = install_desktop_setup(DesktopSetup::Kde);
    let (pkgs, retry) = as_install(&steps[0]);
    assert!(retry);
    assert_eq!(pkgs[0], "plasma-meta");
    assert!(pkgs.iter().any(|p| p == "papirus-icon-theme"));
    let (prog, args, t) = as_run(&steps[1]);
    assert!(t);
    assert_eq!(prog, "systemctl");
    assert_eq!(args, vec!["enable", "sddm"]);
}

#[test]
fn theom_plan_hides_sessions_best_effort() {
    let steps = set_sddm_theom_default();
    assert_eq!(steps.len(), 2);
    match &steps[0] {
        Step::RunSoft(c) => {
            assert!(c.in_target);
            assert_eq!(c.program, "mv");
            assert_eq!(
                c.args,
                vec!["/usr/share/xsessions/i3.desktop", "/usr/share/xsessions/i3.desktop.hidden"]
            );
        }
        _ => panic!("hiding sessions must be best-effort"),
    }
}

#[test]
fn sleex_plan_hides_sessions_fatally() {
    let steps = install_desktop_setup(DesktopSetup::Sleex);
    // install, enable, two renames, then the network manager steps
    assert_eq!(steps.len(), 6);
    let (prog, args, t) = as_run(&steps[2]);
    assert!(t);
    assert_eq!(prog, "mv");
    assert_eq!(
        args,
        vec![
            "/usr/share/wayland-sessions/hyprland.desktop",
            "/usr/share/wayland-sessions/hyprland.desktop.hidden"
        ]
    );
}

#[test]
fn desktop_names_are_matched_without_case() {
    assert_eq!(desktop_from_name("KDE"), Some(DesktopSetup::Kde));
    assert_eq!(desktop_from_name("Plasma"), Some(DesktopSetup::Kde));
    assert_eq!(desktop_from_name("calla"), Some(DesktopSetup::Calla));
    assert_eq!(desktop_from_name("SLEEX"), Some(DesktopSetup::Sleex));
    assert_eq!(desktop_from_name("theom"), Some(DesktopSetup::Theom));
    assert_eq!(desktop_from_name("None/DIY"), Some(DesktopSetup::NoDesktop));
    assert_eq!(desktop_from_name("xfce"), None);
}

#[test]
fn userkit_plans_are_single_soft_installs() {
    let cases = vec![
        (UserKit::Developer, "axos-developer-kit"),
        (UserKit::Hacker, "axos-hacker-kit"),
        (UserKit::Artist, "axos-artist-kit"),
        (UserKit::Office, "axos-office-kit"),
        (UserKit::Entertainment, "axos-entertainment-kit"),
    ];
    for (kit, pkg) in cases {
        let steps = install_userkit(kit);
        assert_eq!(steps.len(), 1);
        let (pkgs, retry) = as_install(&steps[0]);
        assert_eq!(pkgs, vec![pkg.to_string()]);
        assert!(!retry);
    }
}
