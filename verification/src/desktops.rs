//! Desktop planning: which packages each graphical desktop brings, the
//! display-manager activation, and the default-session adjustments.

use vstd::prelude::*;
use vstd::string::*;
use crate::args::DesktopSetup;
use crate::command::{Step, StepView, target_cmd, cmd_new, args2};
use crate::strutil::{eq_ignore_ascii_case, spec_ascii_lower};

verus! {

/// The step enabling a display manager in the target.
pub open spec fn spec_enable_dm_step(dm: Seq<char>) -> StepView {
    StepView::Run(target_cmd("systemctl"@, seq!["enable"@, dm]))
}

/// Enable a display manager in the target.
pub fn enable_dm(dm: &str) -> (s: Step)
    ensures
        s@ == spec_enable_dm_step(dm@),
{
    Step::Run(cmd_new(true, "systemctl", args2("enable", dm)))
}

/// The network manager is installed (with retries) and enabled for every
/// desktop choice, the bare one too.
pub open spec fn spec_networkmanager_plan() -> Seq<StepView> {
    seq![
        StepView::Install(seq!["networkmanager"@], true),
        StepView::Run(target_cmd("systemctl"@, seq!["enable"@, "NetworkManager"@])),
    ]
}

pub fn install_networkmanager() -> (steps: Vec<Step>)
    ensures
        steps.deep_view() == spec_networkmanager_plan(),
{
    let mut pkgs: Vec<String> = Vec::new();
    pkgs.push(String::from_str("networkmanager"));
    let mut steps: Vec<Step> = Vec::new();
    steps.push(Step::Install(pkgs, true));
    steps.push(Step::Run(cmd_new(true, "systemctl", args2("enable", "NetworkManager"))));
    proof {
        assert(steps.deep_view() =~~= spec_networkmanager_plan());
    }
    steps
}

/// Hide the stock session entries so the sleex session is the default.
pub open spec fn spec_sddm_sleex_plan() -> Seq<StepView> {
    seq![
        StepView::Run(
            target_cmd(
                "mv"@,
                seq![
                    "/usr/share/wayland-sessions/hyprland.desktop"@,
                    "/usr/share/wayland-sessions/hyprland.desktop.hidden"@,
                ],
            ),
        ),
        StepView::Run(
            target_cmd(
                "mv"@,
                seq![
                    "/usr/share/wayland-sessions/hyprland-uwsm.desktop"@,
                    "/usr/share/wayland-sessions/hyprland-uwsm.desktop.hidden"@,
                ],
            ),
        ),
    ]
}

pub fn set_sddm_sleex_default() -> (steps: Vec<Step>)
    ensures
        steps.deep_view() == spec_sddm_sleex_plan(),
{
    let mut steps: Vec<Step> = Vec::new();
    steps.push(
        Step::Run(
            cmd_new(
                true,
                "mv",
                args2(
                    "/usr/share/wayland-sessions/hyprland.desktop",
                    "/usr/share/wayland-sessions/hyprland.desktop.hidden",
                ),
            ),
        ),
    );
    steps.push(
        Step::Run(
            cmd_new(
                true,
                "mv",
                args2(
                    "/usr/share/wayland-sessions/hyprland-uwsm.desktop",
                    "/usr/share/wayland-sessions/hyprland-uwsm.desktop.hidden",
                ),
            ),
        ),
    );
    proof {
        assert(steps.deep_view() =~~= spec_sddm_sleex_plan());
    }
    steps
}

/// Hide the stock session entries so the theom session is the default;
/// best-effort, since the entries may not be there.
pub open spec fn spec_sddm_theom_plan() -> Seq<StepView> {
    seq![
        StepView::RunSoft(
            target_cmd(
                "mv"@,
                seq![
                    "/usr/share/xsessions/i3.desktop"@,
                    "/usr/share/xsessions/i3.desktop.hidden"@,
                ],
            ),
        ),
        StepView::RunSoft(
            target_cmd(
                "mv"@,
                seq![
                    "/usr/share/xsessions/i3-with-shmlog.desktop"@,
                    "/usr/share/xsessions/i3-with-shmlog.desktop.hidden"@,
                ],
            ),
        ),
    ]
}

pub fn set_sddm_theom_default() -> (steps: Vec<Step>)
    ensures
        steps.deep_view() == spec_sddm_theom_plan(),
{
    let mut steps: Vec<Step> = Vec::new();
    steps.push(
        Step::RunSoft(
            cmd_new(
                true,
                "mv",
                args2("/usr/share/xsessions/i3.desktop", "/usr/share/xsessions/i3.desktop.hidden"),
            ),
        ),
    );
    steps.push(
        Step::RunSoft(
            cmd_new(
                true,
                "mv",
                args2(
                    "/usr/share/xsessions/i3-with-shmlog.desktop",
                    "/usr/share/xsessions/i3-with-shmlog.desktop.hidden",
                ),
            ),
        ),
    );
    proof {
        assert(steps.deep_view() =~~= spec_sddm_theom_plan());
    }
    steps
}

/// The calla desktop: its package set, then the display manager.
pub open spec fn spec_calla_plan() -> Seq<StepView> {
    seq![
        StepView::Install(seq![
            "calla"@,
            "alacritty"@,
            "nautilus"@,
            "polkit-gnome"@,
            "cbatticon"@,
            "blueman"@,
            "ttf-roboto"@,
            "noto-fonts-emoji"@,
            "ttf-material-icons-git"@,
            "ttf-material-design-icons-extended"@,
            "playerctl"@,
            "redshift"@,
            "xsettingsd"@,
            "galculator"@,
            "baobab"@,
            "gnome-characters"@,
            "mousepad"@,
            "gparted"@,
            "wmctrl"@,
            "libinput-gestures"@,
            "lollypop"@,
        ], true),
        spec_enable_dm_step("sddm"@),
    ]
}

pub fn install_calla() -> (steps: Vec<Step>)
    ensures
        steps.deep_view() == spec_calla_plan(),
{
    let mut pkgs: Vec<String> = Vec::new();
    pkgs.push(String::from_str("calla"));
    pkgs.push(String::from_str("alacritty"));
    pkgs.push(String::from_str("nautilus"));
    pkgs.push(String::from_str("polkit-gnome"));
    pkgs.push(String::from_str("cbatticon"));
    pkgs.push(String::from_str("blueman"));
    pkgs.push(String::from_str("ttf-roboto"));
    pkgs.push(String::from_str("noto-fonts-emoji"));
    pkgs.push(String::from_str("ttf-material-icons-git"));
    pkgs.push(String::from_str("ttf-material-design-icons-extended"));
    pkgs.push(String::from_str("playerctl"));
    pkgs.push(String::from_str("redshift"));
    pkgs.push(String::from_str("xsettingsd"));
    pkgs.push(String::from_str("galculator"));
    pkgs.push(String::from_str("baobab"));
    pkgs.push(String::from_str("gnome-characters"));
    pkgs.push(String::from_str("mousepad"));
    pkgs.push(String::from_str("gparted"));
    pkgs.push(String::from_str("wmctrl"));
    pkgs.push(String::from_str("libinput-gestures"));
    pkgs.push(String::from_str("lollypop"));
    let mut steps: Vec<Step> = Vec::new();
    steps.push(Step::Install(pkgs, true));
    steps.push(enable_dm("sddm"));
    proof {
        assert(steps.deep_view() =~~= spec_calla_plan());
    }
    steps
}

/// The KDE desktop: its package set, then the display manager.
pub open spec fn spec_kde_plan() -> Seq<StepView> {
    seq![
        StepView::Install(seq![
            "plasma-meta"@,
            "konsole"@,
            "kate"@,
            "dolphin"@,
            "ark"@,
            "plasma-workspace"@,
            "axskel"@,
            "papirus-icon-theme"@,
        ], true),
        spec_enable_dm_step("sddm"@),
    ]
}

pub fn install_kde() -> (steps: Vec<Step>)
    ensures
        steps.deep_view() == spec_kde_plan(),
{
    let mut pkgs: Vec<String> = Vec::new();
    pkgs.push(String::from_str("plasma-meta"));
    pkgs.push(String::from_str("konsole"));
    pkgs.push(String::from_str("kate"));
    pkgs.push(String::from_str("dolphin"));
    pkgs.push(String::from_str("ark"));
    pkgs.push(String::from_str("plasma-workspace"));
    pkgs.push(String::from_str("axskel"));
    pkgs.push(String::from_str("papirus-icon-theme"));
    let mut steps: Vec<Step> = Vec::new();
    steps.push(Step::Install(pkgs, true));
    steps.push(enable_dm("sddm"));
    proof {
        assert(steps.deep_view() =~~= spec_kde_plan());
    }
    steps
}

/// The sleex desktop: its package set, the display manager, and the default
/// session adjustment.
pub open spec fn spec_sleex_plan() -> Seq<StepView> {
    seq![
        StepView::Install(seq![
            "hyprland"@,
            "hyprlang"@,
            "hyprcursor"@,
            "hyprutils"@,
            "hyprlock"@,
            "hyprpicker"@,
            "hyprwayland-scanner"@,
            "sleex"@,
            "sleex-optional"@,
            "fastfetch"@,
            "firefox"@,
            "pipewire-pulse"@,
            "papirus-icon-theme"@,
            "inxi"@,
            "power-profiles-daemon"@,
            "fwupd"@,
            "gnome-autoar"@,
            "gnome-system-monitor"@,
            "baobab"@,
            "gparted"@,
            "gnome-calculator"@,
            "loupe"@,
            "nwg-displays"@,
        ], true),
        spec_enable_dm_step("sddm"@),
    ] + spec_sddm_sleex_plan()
}

pub fn install_sleex() -> (steps: Vec<Step>)
    ensures
        steps.deep_view() == spec_sleex_plan(),
{
    let mut pkgs: Vec<String> = Vec::new();
    pkgs.push(String::from_str("hyprland"));
    pkgs.push(String::from_str("hyprlang"));
    pkgs.push(String::from_str("hyprcursor"));
    pkgs.push(String::from_str("hyprutils"));
    pkgs.push(String::from_str("hyprlock"));
    pkgs.push(String::from_str("hyprpicker"));
    pkgs.push(String::from_str("hyprwayland-scanner"));
    pkgs.push(String::from_str("sleex"));
    pkgs.push(String::from_str("sleex-optional"));
    pkgs.push(String::from_str("fastfetch"));
    pkgs.push(String::from_str("firefox"));
    pkgs.push(String::from_str("pipewire-pulse"));
    pkgs.push(String::from_str("papirus-icon-theme"));
    pkgs.push(String::from_str("inxi"));
    pkgs.push(String::from_str("power-profiles-daemon"));
    pkgs.push(String::from_str("fwupd"));
    pkgs.push(String::from_str("gnome-autoar"));
    pkgs.push(String::from_str("gnome-system-monitor"));
    pkgs.push(String::from_str("baobab"));
    pkgs.push(String::from_str("gparted"));
    pkgs.push(String::from_str("gnome-calculator"));
    pkgs.push(String::from_str("loupe"));
    pkgs.push(String::from_str("nwg-displays"));
    let mut steps: Vec<Step> = Vec::new();
    steps.push(Step::Install(pkgs, true));
    steps.push(enable_dm("sddm"));
    let mut rest = set_sddm_sleex_default();
    let ghost pre = steps.deep_view();
    let ghost extra = rest.deep_view();
    steps.append(&mut rest);
    proof {
        assert(steps.deep_view() =~~= pre + extra);
        assert(steps.deep_view() =~~= spec_sleex_plan());
    }
    steps
}

/// The theom desktop: its package set, the display manager, and the default
/// session adjustment.
pub open spec fn spec_theom_plan() -> Seq<StepView> {
    seq![
        StepView::Install(seq![
            "theom"@,
            "gammastep"@,
            "mousepad"@,
        ], true),
        spec_enable_dm_step("sddm"@),
    ] + spec_sddm_theom_plan()
}

pub fn install_theom() -> (steps: Vec<Step>)
    ensures
        steps.deep_view() == spec_theom_plan(),
{
    let mut pkgs: Vec<String> = Vec::new();
    pkgs.push(String::from_str("theom"));
    pkgs.push(String::from_str("gammastep"));
    pkgs.push(String::from_str("mousepad"));
    let mut steps: Vec<Step> = Vec::new();
    steps.push(Step::Install(pkgs, true));
    steps.push(enable_dm("sddm"));
    let mut rest = set_sddm_theom_default();
    let ghost pre = steps.deep_view();
    let ghost extra = rest.deep_view();
    steps.append(&mut rest);
    proof {
        assert(steps.deep_view() =~~= pre + extra);
        assert(steps.deep_view() =~~= spec_theom_plan());
    }
    steps
}

/// The plan for one desktop choice: the desktop's own steps (none for the
/// bare choice), and in every case the network manager.
pub open spec fn spec_desktop_plan(desktop: DesktopSetup) -> Seq<StepView> {
    (match desktop {
        DesktopSetup::Kde => spec_kde_plan(),
        DesktopSetup::Calla => spec_calla_plan(),
        DesktopSetup::Sleex => spec_sleex_plan(),
        DesktopSetup::Theom => spec_theom_plan(),
        DesktopSetup::NoDesktop => Seq::<StepView>::empty(),
    }) + spec_networkmanager_plan()
}

/// Plan the installation of the chosen desktop.
pub fn install_desktop_setup(desktop: DesktopSetup) -> (steps: Vec<Step>)
    ensures
        steps.deep_view() == spec_desktop_plan(desktop),
{
    let mut steps: Vec<Step> = match desktop {
        DesktopSetup::Kde => install_kde(),
        DesktopSetup::Calla => install_calla(),
        DesktopSetup::Sleex => install_sleex(),
        DesktopSetup::Theom => install_theom(),
        DesktopSetup::NoDesktop => Vec::new(),
    };
    let mut rest = install_networkmanager();
    let ghost pre = steps.deep_view();
    let ghost extra = rest.deep_view();
    steps.append(&mut rest);
    proof {
        if desktop is NoDesktop {
            assert(pre =~= Seq::<StepView>::empty());
        }
        assert(steps.deep_view() =~~= pre + extra);
        assert(steps.deep_view() =~~= spec_desktop_plan(desktop));
    }
    steps
}

/// The desktop a configuration names, compared without regard to ASCII
/// case; an unknown name selects nothing at all.
pub open spec fn spec_desktop_from_name(name: Seq<char>) -> Option<DesktopSetup> {
    let n = spec_ascii_lower(name);
    if n == "kde"@ || n == "plasma"@ {
        Some(DesktopSetup::Kde)
    } else if n == "calla"@ {
        Some(DesktopSetup::Calla)
    } else if n == "sleex"@ {
        Some(DesktopSetup::Sleex)
    } else if n == "theom"@ {
        Some(DesktopSetup::Theom)
    } else if n == "none/diy"@ {
        Some(DesktopSetup::NoDesktop)
    } else {
        None
    }
}

/// Map a configured desktop name to the desktop it selects.
pub fn desktop_from_name(name: &str) -> (r: Option<DesktopSetup>)
    ensures
        r == spec_desktop_from_name(name@),
{
    proof {
        reveal_strlit("kde");
        reveal_strlit("plasma");
        reveal_strlit("calla");
        reveal_strlit("sleex");
        reveal_strlit("theom");
        reveal_strlit("none/diy");
        lemma_lower_fixed();
    }
    if eq_ignore_ascii_case(name, "kde") || eq_ignore_ascii_case(name, "plasma") {
        Some(DesktopSetup::Kde)
    } else if eq_ignore_ascii_case(name, "calla") {
        Some(DesktopSetup::Calla)
    } else if eq_ignore_ascii_case(name, "sleex") {
        Some(DesktopSetup::Sleex)
    } else if eq_ignore_ascii_case(name, "theom") {
        Some(DesktopSetup::Theom)
    } else if eq_ignore_ascii_case(name, "none/diy") {
        Some(DesktopSetup::NoDesktop)
    } else {
        None
    }
}

/// The known desktop names are already lower case.
proof fn lemma_lower_fixed()
    ensures
        spec_ascii_lower("kde"@) == "kde"@,
        spec_ascii_lower("plasma"@) == "plasma"@,
        spec_ascii_lower("calla"@) == "calla"@,
        spec_ascii_lower("sleex"@) == "sleex"@,
        spec_ascii_lower("theom"@) == "theom"@,
        spec_ascii_lower("none/diy"@) == "none/diy"@,
{
    reveal_strlit("kde");
    reveal_strlit("plasma");
    reveal_strlit("calla");
    reveal_strlit("sleex");
    reveal_strlit("theom");
    reveal_strlit("none/diy");
    assert(spec_ascii_lower("kde"@) =~= "kde"@);
    assert(spec_ascii_lower("plasma"@) =~= "plasma"@);
    assert(spec_ascii_lower("calla"@) =~= "calla"@);
    assert(spec_ascii_lower("sleex"@) =~= "sleex"@);
    assert(spec_ascii_lower("theom"@) =~= "theom"@);
    assert(spec_ascii_lower("none/diy"@) =~= "none/diy"@);
}

} // verus!
