//! User-kit planning: the per-profile package sets, installed best-effort.

use vstd::prelude::*;
use vstd::string::*;
use crate::args::UserKit;
use crate::command::{Step, StepView};

verus! {

/// The package installed for one profile's kit.
pub open spec fn spec_userkit_package(kit: UserKit) -> Seq<char> {
    match kit {
        UserKit::Developer => "axos-developer-kit"@,
        UserKit::Hacker => "axos-hacker-kit"@,
        UserKit::Artist => "axos-artist-kit"@,
        UserKit::Office => "axos-office-kit"@,
        UserKit::Entertainment => "axos-entertainment-kit"@,
    }
}

/// A kit installation is one best-effort package install.
pub open spec fn spec_userkit_plan(kit: UserKit) -> Seq<StepView> {
    seq![StepView::Install(seq![spec_userkit_package(kit)], false)]
}

fn kit_plan(pkg: &str) -> (steps: Vec<Step>)
    ensures
        steps.deep_view() == seq![StepView::Install(seq![pkg@], false)],
{
    let mut pkgs: Vec<String> = Vec::new();
    pkgs.push(String::from_str(pkg));
    let mut steps: Vec<Step> = Vec::new();
    steps.push(Step::Install(pkgs, false));
    proof {
        assert(steps.deep_view() =~~= seq![StepView::Install(seq![pkg@], false)]);
    }
    steps
}

pub fn install_dev() -> (steps: Vec<Step>)
    ensures
        steps.deep_view() == spec_userkit_plan(UserKit::Developer),
{
    kit_plan("axos-developer-kit")
}

pub fn install_hacks() -> (steps: Vec<Step>)
    ensures
        steps.deep_view() == spec_userkit_plan(UserKit::Hacker),
{
    kit_plan("axos-hacker-kit")
}

pub fn install_artist() -> (steps: Vec<Step>)
    ensures
        steps.deep_view() == spec_userkit_plan(UserKit::Artist),
{
    kit_plan("axos-artist-kit")
}

pub fn install_office() -> (steps: Vec<Step>)
    ensures
        steps.deep_view() == spec_userkit_plan(UserKit::Office),
{
    kit_plan("axos-office-kit")
}

pub fn install_entertainment() -> (steps: Vec<Step>)
    ensures
        steps.deep_view() == spec_userkit_plan(UserKit::Entertainment),
{
    kit_plan("axos-entertainment-kit")
}

/// Plan the kit of one profile.
pub fn install_userkit(kit: UserKit) -> (steps: Vec<Step>)
    ensures
        steps.deep_view() == spec_userkit_plan(kit),
{
    match kit {
        UserKit::Developer => install_dev(),
        UserKit::Hacker => install_hacks(),
        UserKit::Artist => install_artist(),
        UserKit::Office => install_office(),
        UserKit::Entertainment => install_entertainment(),
    }
}

} // verus!
