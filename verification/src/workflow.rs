//! The update orchestrator: the alias table mapping identifiers to families,
//! each family's fixed command steps, and a run that hands the steps out in
//! order, short-circuiting at the first failure.

use vstd::prelude::*;
use vstd::string::StrSliceExecFns;

verus! {

/// The five supported package-manager families.
#[derive(Clone, Copy, PartialEq, Eq, Structural, Debug)]
pub enum Family {
    Apt,
    Dnf,
    Pacman,
    Zypper,
    Apk,
}

/// One external command of a workflow: a program name and its arguments.
pub struct Step {
    pub program: String,
    pub args: Vec<String>,
}

impl DeepView for Step {
    type V = (Seq<char>, Seq<Seq<char>>);

    open spec fn deep_view(&self) -> (Seq<char>, Seq<Seq<char>>) {
        (self.program@, self.args.deep_view())
    }
}

/// The alias table: the family serving a given identifier, matched
/// case-sensitively; none for an identifier outside every family.
pub open spec fn spec_family_of(id: Seq<char>) -> Option<Family> {
    if id == "ubuntu"@ || id == "debian"@ || id == "linuxmint"@ || id == "pop"@ {
        Some(Family::Apt)
    } else if id == "fedora"@ || id == "rhel"@ || id == "centos"@ || id == "rocky"@
        || id == "almalinux"@ {
        Some(Family::Dnf)
    } else if id == "arch"@ || id == "manjaro"@ || id == "endeavouros"@ || id == "artix"@ {
        Some(Family::Pacman)
    } else if id == "opensuse"@ || id == "opensuse-tumbleweed"@ || id == "opensuse-leap"@ {
        Some(Family::Zypper)
    } else if id == "alpine"@ {
        Some(Family::Apk)
    } else {
        None
    }
}

/// The ordered command steps of each family's workflow, each a program name
/// with its arguments.
pub open spec fn spec_steps(f: Family) -> Seq<(Seq<char>, Seq<Seq<char>>)> {
    match f {
        Family::Apt => seq![("apt"@, seq!["update"@]), ("apt"@, seq!["upgrade"@, "-y"@])],
        Family::Dnf => seq![("dnf"@, seq!["upgrade"@, "-y"@])],
        Family::Pacman => seq![("pacman"@, seq!["-Syu"@, "--noconfirm"@])],
        Family::Zypper => seq![("zypper"@, seq!["update"@, "-y"@])],
        Family::Apk => seq![("apk"@, seq!["update"@]), ("apk"@, seq!["upgrade"@])],
    }
}

/// Character-by-character string equality.
fn str_eq(a: &str, b: &str) -> (r: bool)
    ensures
        r == (a@ == b@),
{
    let na = a.unicode_len();
    let nb = b.unicode_len();
    if na != nb {
        return false;
    }
    let mut i: usize = 0;
    while i < na
        invariant
            i <= na,
            na == a@.len(),
            na == b@.len(),
            forall|k: int| 0 <= k < i ==> a@[k] == b@[k],
        decreases na - i,
    {
        if a.get_char(i) != b.get_char(i) {
            return false;
        }
        i += 1;
    }
    proof {
        assert(a@ =~= b@);
    }
    true
}

/// The family serving `id`, or none when `id` is outside every family's alias
/// table.
pub fn family_of(id: &str) -> (r: Option<Family>)
    ensures
        r == spec_family_of(id@),
{
    if str_eq(id, "ubuntu") || str_eq(id, "debian") || str_eq(id, "linuxmint")
        || str_eq(id, "pop") {
        Some(Family::Apt)
    } else if str_eq(id, "fedora") || str_eq(id, "rhel") || str_eq(id, "centos")
        || str_eq(id, "rocky") || str_eq(id, "almalinux") {
        Some(Family::Dnf)
    } else if str_eq(id, "arch") || str_eq(id, "manjaro") || str_eq(id, "endeavouros")
        || str_eq(id, "artix") {
        Some(Family::Pacman)
    } else if str_eq(id, "opensuse") || str_eq(id, "opensuse-tumbleweed")
        || str_eq(id, "opensuse-leap") {
        Some(Family::Zypper)
    } else if str_eq(id, "alpine") {
        Some(Family::Apk)
    } else {
        None
    }
}

/// A step with one argument.
fn step1(program: &str, arg0: &str) -> (st: Step)
    ensures
        st.deep_view() == (program@, seq![arg0@]),
{
    let mut args: Vec<String> = Vec::new();
    args.push(arg0.to_owned());
    let st = Step { program: program.to_owned(), args };
    proof {
        assert(st.deep_view().1 =~= seq![arg0@]);
    }
    st
}

/// A step with two arguments.
fn step2(program: &str, arg0: &str, arg1: &str) -> (st: Step)
    ensures
        st.deep_view() == (program@, seq![arg0@, arg1@]),
{
    let mut args: Vec<String> = Vec::new();
    args.push(arg0.to_owned());
    args.push(arg1.to_owned());
    let st = Step { program: program.to_owned(), args };
    proof {
        assert(st.deep_view().1 =~= seq![arg0@, arg1@]);
    }
    st
}

/// The ordered command steps of `f`'s workflow.
pub fn steps_for(f: Family) -> (v: Vec<Step>)
    ensures
        v.deep_view() == spec_steps(f),
{
    let mut v: Vec<Step> = Vec::new();
    match f {
        Family::Apt => {
            v.push(step1("apt", "update"));
            v.push(step2("apt", "upgrade", "-y"));
        },
        Family::Dnf => {
            v.push(step2("dnf", "upgrade", "-y"));
        },
        Family::Pacman => {
            v.push(step2("pacman", "-Syu", "--noconfirm"));
        },
        Family::Zypper => {
            v.push(step2("zypper", "update", "-y"));
        },
        Family::Apk => {
            v.push(step1("apk", "update"));
            v.push(step1("apk", "upgrade"));
        },
    }
    proof {
        assert(v.deep_view() =~= spec_steps(f));
    }
    v
}

/// One run of a family's workflow. It hands out the family's commands in
/// order; each outcome is recorded, and the first failure short-circuits the
/// rest: no further command is handed out and the verdict is failure. The
/// verdict is success only once every step has been recorded as succeeded.
pub struct WorkflowRun {
    family: Family,
    steps_done: usize,
    failed: bool,
}

impl WorkflowRun {
    /// The family whose workflow this run executes.
    pub closed spec fn spec_family(self) -> Family {
        self.family
    }

    /// How many step outcomes have been recorded.
    pub closed spec fn spec_steps_done(self) -> nat {
        self.steps_done as nat
    }

    /// Whether a recorded step has failed.
    pub closed spec fn spec_failed(self) -> bool {
        self.failed
    }

    /// A run never records more steps than its workflow has.
    pub open spec fn wf(self) -> bool {
        self.spec_steps_done() <= spec_steps(self.spec_family()).len()
    }

    /// The command the run asks for next: the step at the current position, or
    /// nothing once a step has failed or every step is done.
    pub open spec fn spec_next_command(self) -> Option<(Seq<char>, Seq<Seq<char>>)> {
        if !self.spec_failed() && self.spec_steps_done() < spec_steps(self.spec_family()).len() {
            Some(spec_steps(self.spec_family())[self.spec_steps_done() as int])
        } else {
            None
        }
    }

    /// The run's verdict — failure as soon as a step has failed, success once
    /// every step succeeded, nothing while steps remain to run.
    pub open spec fn spec_verdict(self) -> Option<bool> {
        if self.spec_failed() {
            Some(false)
        } else if self.spec_steps_done() == spec_steps(self.spec_family()).len() {
            Some(true)
        } else {
            None
        }
    }

    /// A fresh run of `family`'s workflow: nothing recorded, nothing failed.
    pub fn new(family: Family) -> (r: WorkflowRun)
        ensures
            r.wf(),
            r.spec_family() == family,
            r.spec_steps_done() == 0,
            !r.spec_failed(),
    {
        WorkflowRun { family, steps_done: 0, failed: false }
    }

    /// The family whose workflow this run executes.
    pub fn family(&self) -> (f: Family)
        ensures
            f == self.spec_family(),
    {
        self.family
    }

    /// The command to execute next, or none when the run is finished — all
    /// steps done or one failed.
    pub fn next_command(&self) -> (r: Option<Step>)
        requires
            self.wf(),
        ensures
            r.deep_view() == self.spec_next_command(),
    {
        if self.failed {
            return None;
        }
        let mut steps = steps_for(self.family);
        if self.steps_done < steps.len() {
            let st = steps.remove(self.steps_done);
            proof {
                assert(st.deep_view() == spec_steps(self.family)[self.steps_done as int]);
            }
            Some(st)
        } else {
            None
        }
    }

    /// Records the outcome of the command last handed out. A failure makes the
    /// run's verdict failure and stops it from asking for further commands.
    pub fn record_outcome(&mut self, success: bool)
        requires
            old(self).wf(),
            old(self).spec_next_command() is Some,
        ensures
            final(self).wf(),
            final(self).spec_family() == old(self).spec_family(),
            final(self).spec_steps_done() == old(self).spec_steps_done() + 1,
            final(self).spec_failed() == !success,
    {
        self.steps_done = self.steps_done + 1;
        if !success {
            self.failed = true;
        }
    }

    /// The run's verdict, or none while commands remain to execute.
    pub fn verdict(&self) -> (r: Option<bool>)
        requires
            self.wf(),
        ensures
            r == self.spec_verdict(),
    {
        if self.failed {
            Some(false)
        } else {
            let steps = steps_for(self.family);
            if self.steps_done == steps.len() {
                Some(true)
            } else {
                None
            }
        }
    }
}

/// Plans the update for a detected identifier: a fresh workflow run for a
/// supported distribution, or nothing — so that no command is attempted — for
/// an identifier outside every family's alias table.
pub fn plan_update(id: &str) -> (r: Option<WorkflowRun>)
    ensures
        match r {
            Some(run) => spec_family_of(id@) == Some(run.spec_family()) && run.wf()
                && run.spec_steps_done() == 0 && !run.spec_failed(),
            None => spec_family_of(id@) is None,
        },
{
    match family_of(id) {
        Some(f) => Some(WorkflowRun::new(f)),
        None => None,
    }
}

/// Short-circuit: once a run has recorded a failing step, it asks for no
/// further command and its verdict is failure, whatever the family and however
/// many steps remain.
pub proof fn lemma_short_circuit(run: WorkflowRun)
    requires
        run.spec_failed(),
    ensures
        run.spec_next_command() is None,
        run.spec_verdict() == Some(false),
{
}

/// A verdict of success is reached only by recording every step of the
/// workflow, none of them failed.
pub proof fn lemma_success_needs_all_steps(run: WorkflowRun)
    requires
        run.spec_verdict() == Some(true),
    ensures
        !run.spec_failed(),
        run.spec_steps_done() == spec_steps(run.spec_family()).len(),
{
}

/// Every apt-family alias selects the apt workflow, whose two ordered steps
/// are `apt update` then `apt upgrade -y`; and a run of it that has recorded
/// its first step as failed asks for no second command and reports failure.
pub proof fn lemma_apt_family_short_circuit(id: Seq<char>, run: WorkflowRun)
    requires
        id == "ubuntu"@ || id == "debian"@ || id == "linuxmint"@ || id == "pop"@,
        run.spec_family() == Family::Apt,
        run.spec_steps_done() == 1,
        run.spec_failed(),
    ensures
        spec_family_of(id) == Some(Family::Apt),
        spec_steps(Family::Apt).len() == 2,
        spec_steps(Family::Apt)[0] == ("apt"@, seq!["update"@]),
        spec_steps(Family::Apt)[1] == ("apt"@, seq!["upgrade"@, "-y"@]),
        run.spec_next_command() is None,
        run.spec_verdict() == Some(false),
{
}

} // verus!
