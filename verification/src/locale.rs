//! Locale planning: timezone, generated locales, and keyboard layout. These
//! are configuration-file writes and a few commands in the target.

use vstd::prelude::*;
use vstd::string::*;
use crate::command::{Step, StepView, target_cmd, cmd_new, args1, args3};
use crate::strutil::{str_eq, concat_str, split_char, spec_split};

verus! {

/// The timezone plan: link the zone information into place, sync the
/// hardware clock.
pub open spec fn spec_timezone_plan(timezone: Seq<char>) -> Seq<StepView> {
    seq![
        StepView::Run(
            target_cmd(
                "ln"@,
                seq!["-sf"@, "/usr/share/zoneinfo/"@ + timezone, "/etc/localtime"@],
            ),
        ),
        StepView::Run(target_cmd("hwclock"@, seq!["--systohc"@])),
    ]
}

/// Plan setting the timezone.
pub fn set_timezone(timezone: &str) -> (steps: Vec<Step>)
    ensures
        steps.deep_view() == spec_timezone_plan(timezone@),
{
    let zone = concat_str("/usr/share/zoneinfo/", timezone);
    let mut steps: Vec<Step> = Vec::new();
    steps.push(Step::Run(cmd_new(true, "ln", args3("-sf", zone.as_str(), "/etc/localtime"))));
    steps.push(Step::Run(cmd_new(true, "hwclock", args1("--systohc"))));
    proof {
        assert(steps.deep_view() =~~= spec_timezone_plan(timezone@));
    }
    steps
}

/// The steps for one locale pair (name and charmap): record it for
/// generation, and make a locale other than the default the configured one.
pub open spec fn spec_locale_pair_steps(a: Seq<char>, b: Seq<char>) -> Seq<StepView> {
    seq![StepView::AppendFile("/mnt/etc/locale.gen"@, a + " "@ + b + "\n"@)] + (if a
        == "en_US.UTF-8"@ {
        Seq::<StepView>::empty()
    } else {
        seq![StepView::SedFile("/mnt/etc/locale.conf"@, "en_US.UTF-8"@, a)]
    })
}

/// The steps of the first `k` locale pairs.
pub open spec fn spec_locale_pairs(words: Seq<Seq<char>>, k: int) -> Seq<StepView>
    decreases k,
{
    if k <= 0 {
        Seq::<StepView>::empty()
    } else {
        spec_locale_pairs(words, k - 1) + spec_locale_pair_steps(
            words[2 * (k - 1)],
            words[2 * (k - 1) + 1],
        )
    }
}

/// The locale plan head: the default locale is always recorded and
/// configured first.
pub open spec fn spec_locale_head() -> Seq<StepView> {
    seq![
        StepView::AppendFile("/mnt/etc/locale.gen"@, "en_US.UTF-8 UTF-8"@),
        StepView::CreateFile("/mnt/etc/locale.conf"@),
        StepView::AppendFile("/mnt/etc/locale.conf"@, "LANG=en_US.UTF-8"@),
    ]
}

/// The whole locale plan: the head, the steps of every pair of the
/// space-separated locale list, and the generation run in the target.
pub open spec fn spec_locale_plan(locale: Seq<char>) -> Seq<StepView> {
    let words = spec_split(locale, ' ');
    spec_locale_head() + spec_locale_pairs(words, words.len() as int / 2) + seq![
        StepView::Run(target_cmd("locale-gen"@, Seq::<Seq<char>>::empty())),
    ]
}

/// Plan setting the locales. The list is space-separated pairs of locale
/// name and charmap, so it must hold an even number of words.
#[verifier::loop_isolation(false)]
pub fn set_locale(locale: &str) -> (steps: Vec<Step>)
    requires
        spec_split(locale@, ' ').len() % 2 == 0,
    ensures
        steps.deep_view() == spec_locale_plan(locale@),
{
    let words = split_char(locale, ' ');
    let ghost wd = words.deep_view();
    let mut steps: Vec<Step> = Vec::new();
    steps.push(Step::AppendFile(
        String::from_str("/mnt/etc/locale.gen"),
        String::from_str("en_US.UTF-8 UTF-8"),
    ));
    steps.push(Step::CreateFile(String::from_str("/mnt/etc/locale.conf")));
    steps.push(Step::AppendFile(
        String::from_str("/mnt/etc/locale.conf"),
        String::from_str("LANG=en_US.UTF-8"),
    ));
    proof {
        assert(steps.deep_view() =~~= spec_locale_head() + spec_locale_pairs(wd, 0));
    }
    let mut i: usize = 0;
    while i < words.len() - 1
        invariant
            i % 2 == 0,
            i <= wd.len(),
            steps.deep_view() == spec_locale_head() + spec_locale_pairs(wd, i as int / 2),
        decreases wd.len() - i,
    {
        let mut line = concat_str(words[i].as_str(), " ");
        line.append(words[i + 1].as_str());
        line.append("\n");
        let ghost pre = steps.deep_view();
        steps.push(Step::AppendFile(String::from_str("/mnt/etc/locale.gen"), line));
        if !str_eq(words[i].as_str(), "en_US.UTF-8") {
            steps.push(Step::SedFile(
                String::from_str("/mnt/etc/locale.conf"),
                String::from_str("en_US.UTF-8"),
                words[i].clone(),
            ));
        }
        proof {
            let k = i as int / 2 + 1;
            assert(2 * (k - 1) == i as int);
            assert(steps.deep_view() =~~= pre + spec_locale_pair_steps(wd[i as int], wd[i + 1int]));
            assert(steps.deep_view() =~~= spec_locale_head() + spec_locale_pairs(wd, k));
        }
        i += 2;
    }
    proof {
        assert(i == wd.len());
    }
    let empty_args: Vec<String> = Vec::new();
    proof {
        assert(empty_args.deep_view() =~= Seq::<Seq<char>>::empty());
    }
    steps.push(Step::Run(cmd_new(true, "locale-gen", empty_args)));
    proof {
        assert(steps.deep_view() =~~= spec_locale_plan(locale@));
    }
    steps
}

/// The keyboard plan: the console keymap, and the X11 input class.
pub open spec fn spec_keyboard_plan(keyboard: Seq<char>) -> Seq<StepView> {
    seq![
        StepView::CreateFile("/mnt/etc/vconsole.conf"@),
        StepView::AppendFile("/mnt/etc/vconsole.conf"@, "KEYMAP="@ + keyboard),
        StepView::WriteFile(
            "/mnt/etc/X11/xorg.conf.d/00-keyboard.conf"@,
            "Section \"InputClass\"\nIdentifier \"system-keyboard\"\nMatchIsKeyboard \"on\"\nOption \"XkbLayout\" \""@
                + keyboard + "\"\nEndSection\n"@,
        ),
    ]
}

/// Plan setting the keyboard layout.
pub fn set_keyboard(keyboard: &str) -> (steps: Vec<Step>)
    ensures
        steps.deep_view() == spec_keyboard_plan(keyboard@),
{
    let keymap = concat_str("KEYMAP=", keyboard);
    let mut x11 = concat_str(
        "Section \"InputClass\"\nIdentifier \"system-keyboard\"\nMatchIsKeyboard \"on\"\nOption \"XkbLayout\" \"",
        keyboard,
    );
    x11.append("\"\nEndSection\n");
    let mut steps: Vec<Step> = Vec::new();
    steps.push(Step::CreateFile(String::from_str("/mnt/etc/vconsole.conf")));
    steps.push(Step::AppendFile(String::from_str("/mnt/etc/vconsole.conf"), keymap));
    steps.push(Step::WriteFile(
        String::from_str("/mnt/etc/X11/xorg.conf.d/00-keyboard.conf"),
        x11,
    ));
    proof {
        assert(steps.deep_view() =~~= spec_keyboard_plan(keyboard@));
    }
    steps
}

} // verus!
