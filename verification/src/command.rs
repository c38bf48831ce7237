//! Descriptions of the external actions the installer performs. The verified
//! core never runs anything itself: it produces `Cmd` and `Step` values, and
//! the surrounding shell executes them in order, feeding every outcome back
//! through the evaluators.

use vstd::prelude::*;
use vstd::string::*;

verus! {

/// One external command: a program, its arguments, and whether it runs on
/// the host or inside the staging root through the chroot helper.
pub struct Cmd {
    pub program: String,
    pub args: Vec<String>,
    pub in_target: bool,
}

/// Mathematical image of a `Cmd`.
#[verifier::ext_equal]
pub ghost struct CmdView {
    pub program: Seq<char>,
    pub args: Seq<Seq<char>>,
    pub in_target: bool,
}

impl View for Cmd {
    type V = CmdView;

    open spec fn view(&self) -> CmdView {
        CmdView { program: self.program@, args: self.args.deep_view(), in_target: self.in_target }
    }
}

impl DeepView for Cmd {
    type V = CmdView;

    open spec fn deep_view(&self) -> CmdView {
        self.view()
    }
}

/// A command run on the host.
pub open spec fn host_cmd(program: Seq<char>, args: Seq<Seq<char>>) -> CmdView {
    CmdView { program, args, in_target: false }
}

/// A command run inside the staging root.
pub open spec fn target_cmd(program: Seq<char>, args: Seq<Seq<char>>) -> CmdView {
    CmdView { program, args, in_target: true }
}

/// One planned action of the installation pipeline.
pub enum Step {
    /// Run a command; a failure is fatal.
    Run(Cmd),
    /// Run a command; a failure is logged and tolerated.
    RunSoft(Cmd),
    /// Install the named packages into the staging root; the flag asks for
    /// the bounded retry loop, otherwise one soft attempt.
    Install(Vec<String>, bool),
    /// Create a directory (with its parents); a failure is fatal.
    CreateDir(String),
    /// Create an empty file; a failure is fatal.
    CreateFile(String),
    /// Copy a file from the first path to the second; a failure is fatal.
    CopyFile(String, String),
    /// Append a line to a file; a failure is fatal.
    AppendFile(String, String),
    /// Write a file whole; a failure is fatal.
    WriteFile(String, String),
    /// Substitute the first string by the second everywhere in the file;
    /// a failure is fatal.
    SedFile(String, String, String),
}

/// Mathematical image of a `Step`.
#[verifier::ext_equal]
pub ghost enum StepView {
    Run(CmdView),
    RunSoft(CmdView),
    Install(Seq<Seq<char>>, bool),
    CreateDir(Seq<char>),
    CreateFile(Seq<char>),
    CopyFile(Seq<char>, Seq<char>),
    AppendFile(Seq<char>, Seq<char>),
    WriteFile(Seq<char>, Seq<char>),
    SedFile(Seq<char>, Seq<char>, Seq<char>),
}

impl View for Step {
    type V = StepView;

    open spec fn view(&self) -> StepView {
        match self {
            Step::Run(c) => StepView::Run(c@),
            Step::RunSoft(c) => StepView::RunSoft(c@),
            Step::Install(pkgs, retry) => StepView::Install(pkgs.deep_view(), *retry),
            Step::CreateDir(p) => StepView::CreateDir(p@),
            Step::CreateFile(p) => StepView::CreateFile(p@),
            Step::CopyFile(from, to) => StepView::CopyFile(from@, to@),
            Step::AppendFile(p, line) => StepView::AppendFile(p@, line@),
            Step::WriteFile(p, content) => StepView::WriteFile(p@, content@),
            Step::SedFile(p, find, replace) => StepView::SedFile(p@, find@, replace@),
        }
    }
}

impl DeepView for Step {
    type V = StepView;

    open spec fn deep_view(&self) -> StepView {
        self.view()
    }
}

/// Build a command from string slices.
pub fn cmd_new(in_target: bool, program: &str, args: Vec<String>) -> (c: Cmd)
    ensures
        c@ == (CmdView { program: program@, args: args.deep_view(), in_target }),
{
    Cmd { program: String::from_str(program), args, in_target }
}

pub fn args1(a0: &str) -> (v: Vec<String>)
    ensures
        v.deep_view() == seq![a0@],
{
    let mut v: Vec<String> = Vec::new();
    v.push(String::from_str(a0));
    proof {
        assert(v.deep_view() =~= seq![a0@]);
    }
    v
}

pub fn args2(a0: &str, a1: &str) -> (v: Vec<String>)
    ensures
        v.deep_view() == seq![a0@, a1@],
{
    let mut v: Vec<String> = Vec::new();
    v.push(String::from_str(a0));
    v.push(String::from_str(a1));
    proof {
        assert(v.deep_view() =~= seq![a0@, a1@]);
    }
    v
}

pub fn args3(a0: &str, a1: &str, a2: &str) -> (v: Vec<String>)
    ensures
        v.deep_view() == seq![a0@, a1@, a2@],
{
    let mut v: Vec<String> = Vec::new();
    v.push(String::from_str(a0));
    v.push(String::from_str(a1));
    v.push(String::from_str(a2));
    proof {
        assert(v.deep_view() =~= seq![a0@, a1@, a2@]);
    }
    v
}

pub fn args4(a0: &str, a1: &str, a2: &str, a3: &str) -> (v: Vec<String>)
    ensures
        v.deep_view() == seq![a0@, a1@, a2@, a3@],
{
    let mut v: Vec<String> = Vec::new();
    v.push(String::from_str(a0));
    v.push(String::from_str(a1));
    v.push(String::from_str(a2));
    v.push(String::from_str(a3));
    proof {
        assert(v.deep_view() =~= seq![a0@, a1@, a2@, a3@]);
    }
    v
}

pub fn args6(a0: &str, a1: &str, a2: &str, a3: &str, a4: &str, a5: &str) -> (v: Vec<String>)
    ensures
        v.deep_view() == seq![a0@, a1@, a2@, a3@, a4@, a5@],
{
    let mut v: Vec<String> = Vec::new();
    v.push(String::from_str(a0));
    v.push(String::from_str(a1));
    v.push(String::from_str(a2));
    v.push(String::from_str(a3));
    v.push(String::from_str(a4));
    v.push(String::from_str(a5));
    proof {
        assert(v.deep_view() =~= seq![a0@, a1@, a2@, a3@, a4@, a5@]);
    }
    v
}

pub fn args7(a0: &str, a1: &str, a2: &str, a3: &str, a4: &str, a5: &str, a6: &str) -> (v: Vec<
    String,
>)
    ensures
        v.deep_view() == seq![a0@, a1@, a2@, a3@, a4@, a5@, a6@],
{
    let mut v: Vec<String> = Vec::new();
    v.push(String::from_str(a0));
    v.push(String::from_str(a1));
    v.push(String::from_str(a2));
    v.push(String::from_str(a3));
    v.push(String::from_str(a4));
    v.push(String::from_str(a5));
    v.push(String::from_str(a6));
    proof {
        assert(v.deep_view() =~= seq![a0@, a1@, a2@, a3@, a4@, a5@, a6@]);
    }
    v
}

} // verus!
