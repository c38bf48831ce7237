//! Live progress of the bulk package installation, derived line by line from
//! the installer's output streams. Two concurrent stream readers feed the
//! same shared state under a lock; each line may announce the package count
//! ("Packages (<N>)" — the first announcement wins), record a download, or
//! record an installation. Progress is only an indicator: it never decides
//! the installation's success.

use vstd::prelude::*;
use vstd::string::*;
use crate::strutil::{
    contains_seq, contains_at, spec_first_at, lemma_first_at, find_str, contains_str,
    is_digit, spec_digit_run, spec_digits_value, lemma_digits_value_nonneg,
};

verus! {

/// Transient progress state of one bulk installation: the announced package
/// count once it is known, and how many packages were seen downloaded and
/// installed.
#[derive(Debug, Clone, Copy)]
pub struct InstallProgress {
    pub total: Option<u64>,
    pub downloaded: u64,
    pub installed: u64,
}

/// The package count announced by a line: the digits after the first
/// "Packages (", when there is at least one and a closing parenthesis
/// follows them.
pub open spec fn spec_total_announcement(line: Seq<char>) -> Option<int> {
    let i = spec_first_at(line, "Packages ("@);
    if i < 0 {
        None
    } else {
        let j = i + "Packages ("@.len();
        let k = spec_digit_run(line, j) as int;
        if k >= 1 && j + k < line.len() && line[j + k] == ')' {
            Some(spec_digits_value(line.subrange(j, j + k)))
        } else {
            None
        }
    }
}

/// Whether a line records a package download.
pub open spec fn spec_is_download(line: Seq<char>) -> bool {
    contains_seq(line, "downloading"@)
}

/// Whether a line records a package installation.
pub open spec fn spec_is_install(line: Seq<char>) -> bool {
    contains_seq(line, "installing"@)
}

/// A counter bump that stops at the end of the range (far beyond any real
/// package count).
pub open spec fn spec_bump(c: u64) -> u64 {
    if c < u64::MAX {
        (c + 1) as u64
    } else {
        c
    }
}

/// The state after reading one line: the total is set by the first usable
/// announcement and never replaced, and the two counters only grow.
pub open spec fn spec_observe(p: InstallProgress, line: Seq<char>) -> InstallProgress {
    InstallProgress {
        total: if p.total is Some {
            p.total
        } else {
            match spec_total_announcement(line) {
                Some(n) => if 0 <= n <= u64::MAX {
                    Some(n as u64)
                } else {
                    None
                },
                None => None,
            }
        },
        downloaded: if spec_is_download(line) {
            spec_bump(p.downloaded)
        } else {
            p.downloaded
        },
        installed: if spec_is_install(line) {
            spec_bump(p.installed)
        } else {
            p.installed
        },
    }
}

/// The state after reading a whole sequence of lines, in order.
pub open spec fn spec_observe_all(p: InstallProgress, lines: Seq<Seq<char>>) -> InstallProgress
    decreases lines.len(),
{
    if lines.len() == 0 {
        p
    } else {
        spec_observe(spec_observe_all(p, lines.drop_last()), lines.last())
    }
}

impl InstallProgress {
    /// The state before any output was read: unknown total, nothing counted.
    pub fn new() -> (p: Self)
        ensures
            p.total is None,
            p.downloaded == 0,
            p.installed == 0,
    {
        Self { total: None, downloaded: 0, installed: 0 }
    }

    /// Record one output line.
    pub fn observe_line(&mut self, line: &str)
        ensures
            *final(self) == spec_observe(*old(self), line@),
    {
        if self.total.is_none() {
            match parse_total(line) {
                Some(n) => {
                    self.total = Some(n);
                },
                None => {},
            }
        }
        if contains_str(line, "downloading") {
            if self.downloaded < u64::MAX {
                self.downloaded = self.downloaded + 1;
            }
        }
        if contains_str(line, "installing") {
            if self.installed < u64::MAX {
                self.installed = self.installed + 1;
            }
        }
    }

    /// Record a whole output stream, line by line — what one reader does to
    /// the shared state while draining its stream.
    #[verifier::loop_isolation(false)]
    pub fn observe_stream(&mut self, lines: &Vec<String>)
        ensures
            *final(self) == spec_observe_all(*old(self), lines.deep_view()),
    {
        let ghost all = lines.deep_view();
        let mut i: usize = 0;
        proof {
            assert(all.take(0) =~= Seq::<Seq<char>>::empty());
        }
        while i < lines.len()
            invariant
                i <= lines@.len(),
                *self == spec_observe_all(*old(self), all.take(i as int)),
            decreases lines@.len() - i,
        {
            self.observe_line(lines[i].as_str());
            proof {
                assert(all.take(i + 1int).drop_last() =~= all.take(i as int));
                assert(all.take(i + 1int).last() == all[i as int]);
            }
            i += 1;
        }
        proof {
            assert(all.take(all.len() as int) =~= all);
        }
    }
}

/// The digit run starting at `j` runs exactly to `k`.
proof fn lemma_digit_run_extent(s: Seq<char>, j: int, k: int)
    requires
        0 <= j <= k <= s.len(),
        forall|m: int| j <= m < k ==> is_digit(#[trigger] s[m]),
        k == s.len() || !is_digit(s[k]),
    ensures
        spec_digit_run(s, j) == k - j,
    decreases k - j,
{
    if j < k {
        lemma_digit_run_extent(s, j + 1, k);
    }
}

/// Parse the package-count announcement of a line, when it has one whose
/// value is representable.
pub fn parse_total(line: &str) -> (r: Option<u64>)
    ensures
        match r {
            Some(n) => spec_total_announcement(line@) == Some(n as int),
            None => match spec_total_announcement(line@) {
                Some(v) => v > u64::MAX,
                None => true,
            },
        },
{
    proof {
        lemma_first_at(line@, "Packages ("@);
        reveal_strlit("Packages (");
    }
    let i = match find_str(line, "Packages (") {
        Some(i) => i,
        None => {
            return None;
        },
    };
    proof {
        // find_str returns the first occurrence, which pins spec_first_at
        let f = spec_first_at(line@, "Packages ("@);
        assert(f >= 0);
        assert(!(f < i) && !(i < f)) by {
            assert(contains_at(line@, f, "Packages ("@));
            assert(contains_at(line@, i as int, "Packages ("@));
        }
        assert(f == i as int);
    }
    let n = line.unicode_len();
    let j = i + 10;
    let ghost jj = j as int;
    let mut k: usize = j;
    let mut val: u64 = 0;
    let mut overflow = false;
    while k < n
        invariant
            jj == i + 10,
            i + 10 <= line@.len(),
            n == line@.len(),
            jj <= k <= n,
            forall|m: int| jj <= m < k ==> is_digit(#[trigger] line@[m]),
            !overflow ==> val == spec_digits_value(line@.subrange(jj, k as int)),
            overflow ==> spec_digits_value(line@.subrange(jj, k as int)) > u64::MAX,
        ensures
            jj <= k <= n,
            forall|m: int| jj <= m < k ==> is_digit(#[trigger] line@[m]),
            !overflow ==> val == spec_digits_value(line@.subrange(jj, k as int)),
            overflow ==> spec_digits_value(line@.subrange(jj, k as int)) > u64::MAX,
            k == n || !is_digit(line@[k as int]),
        decreases n - k,
    {
        let c = line.get_char(k);
        if !('0' <= c && c <= '9') {
            break;
        }
        let d: u64 = (c as u32 as u64) - 48;
        proof {
            let pre = line@.subrange(jj, k as int);
            let cur = line@.subrange(jj, k + 1int);
            assert(cur.drop_last() =~= pre);
            assert(cur.last() == line@[k as int]);
            assert(forall|m: int| 0 <= m < cur.len() ==> is_digit(#[trigger] cur[m]));
            lemma_digits_value_nonneg(pre);
        }
        if overflow {
            proof {
                let pre = line@.subrange(jj, k as int);
                let cur = line@.subrange(jj, k + 1int);
                lemma_digits_value_nonneg(cur);
                assert(spec_digits_value(cur) == spec_digits_value(pre) * 10 + (cur.last() as int
                    - 48));
            }
        } else if val > u64::MAX / 10 || (val == u64::MAX / 10 && d > u64::MAX % 10) {
            overflow = true;
            proof {
                let pre = line@.subrange(jj, k as int);
                let cur = line@.subrange(jj, k + 1int);
                assert(spec_digits_value(cur) == spec_digits_value(pre) * 10 + (cur.last() as int
                    - 48));
            }
        } else {
            val = val * 10 + d;
        }
        k += 1;
    }
    proof {
        lemma_digit_run_extent(line@, jj, k as int);
    }
    if k == j {
        // no digits after the opening parenthesis
        return None;
    }
    if k < n && line.get_char(k) == ')' {
        if overflow {
            return None;
        }
        Some(val)
    } else {
        None
    }
}

/// Law: over any stream of lines, the progress counters only grow, and a
/// total once discovered is never replaced — a later announcement is
/// ignored.
pub proof fn lemma_progress_monotone(p: InstallProgress, lines: Seq<Seq<char>>)
    ensures
        spec_observe_all(p, lines).downloaded >= p.downloaded,
        spec_observe_all(p, lines).installed >= p.installed,
        p.total is Some ==> spec_observe_all(p, lines).total == p.total,
    decreases lines.len(),
{
    if lines.len() > 0 {
        lemma_progress_monotone(p, lines.drop_last());
    }
}

} // verus!
