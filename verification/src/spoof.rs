//! The sequence of privileged commands that gives a network interface a new
//! hardware address. The library decides what to run next and what the run
//! amounts to; running the commands is left to the caller.

use vstd::prelude::*;
use vstd::string::*;
use crate::error::{CursorManagerError, ErrorKind, ErrorView};
use crate::mac::{is_mac_text, lemma_mac_text_shape, mac_text, MacAddress};
use crate::process::{
    failure_suffix,
    outcome_views,
    Command,
    CommandView,
    StepOutcome,
    StepOutcomeView,
};

verus! {

/// The number of steps in the sequence.
pub const STEP_COUNT: usize = 5;

/// One step of the sequence, in the order in which they run.
#[derive(Clone, Copy, Debug, PartialEq, Eq, Structural)]
pub enum SpoofStep {
    /// Check that elevated commands run without a prompt.
    PrivilegeProbe,
    /// Switch the interface off.
    DisableInterface,
    /// Give the interface its new address.
    AssignAddress,
    /// Switch the interface on again.
    EnableInterface,
    /// Read the interface's state back.
    ReadBack,
}

/// What the failure of a step means for the whole sequence.
#[derive(Clone, Copy, Debug, PartialEq, Eq, Structural)]
pub enum Severity {
    /// The sequence fails.
    Fatal,
    /// The failure is noted and the sequence goes on.
    Warning,
    /// The failure is noted and has no other effect.
    Informational,
}

/// The step at a position in the sequence.
pub open spec fn step_at(position: int) -> SpoofStep {
    if position <= 0 {
        SpoofStep::PrivilegeProbe
    } else if position == 1 {
        SpoofStep::DisableInterface
    } else if position == 2 {
        SpoofStep::AssignAddress
    } else if position == 3 {
        SpoofStep::EnableInterface
    } else {
        SpoofStep::ReadBack
    }
}

/// How much the failure of a step weighs.
pub open spec fn severity_of(step: SpoofStep) -> Severity {
    match step {
        SpoofStep::PrivilegeProbe => Severity::Fatal,
        SpoofStep::DisableInterface => Severity::Warning,
        SpoofStep::AssignAddress => Severity::Fatal,
        SpoofStep::EnableInterface => Severity::Warning,
        SpoofStep::ReadBack => Severity::Informational,
    }
}

/// The seconds that a step may take.
pub open spec fn timeout_of(step: SpoofStep) -> u64 {
    match step {
        SpoofStep::ReadBack => 5,
        _ => 10,
    }
}

/// The milliseconds to wait after a step, for the system to settle.
pub open spec fn settle_of(step: SpoofStep) -> u64 {
    match step {
        SpoofStep::PrivilegeProbe => 0,
        SpoofStep::DisableInterface => 1000,
        SpoofStep::AssignAddress => 1000,
        SpoofStep::EnableInterface => 2000,
        SpoofStep::ReadBack => 0,
    }
}

/// The name of a step in reports.
pub open spec fn label_of(step: SpoofStep) -> Seq<char> {
    match step {
        SpoofStep::PrivilegeProbe => "Privilege check"@,
        SpoofStep::DisableInterface => "Wi-Fi off command"@,
        SpoofStep::AssignAddress => "MAC address change command"@,
        SpoofStep::EnableInterface => "Wi-Fi on command"@,
        SpoofStep::ReadBack => "MAC address verification"@,
    }
}

/// The command of a step for an interface and its new address.
pub open spec fn command_of(step: SpoofStep, interface: Seq<char>, address: Seq<char>) -> CommandView {
    match step {
        SpoofStep::PrivilegeProbe => CommandView {
            program: "sudo"@,
            args: seq!["-n"@, "echo"@, "test"@],
        },
        SpoofStep::DisableInterface => CommandView {
            program: "sudo"@,
            args: seq!["-n"@, "networksetup"@, "-setairportpower"@, interface, "off"@],
        },
        SpoofStep::AssignAddress => CommandView {
            program: "sudo"@,
            args: seq!["-n"@, "/sbin/ifconfig"@, interface, "ether"@, address],
        },
        SpoofStep::EnableInterface => CommandView {
            program: "sudo"@,
            args: seq!["-n"@, "networksetup"@, "-setairportpower"@, interface, "on"@],
        },
        SpoofStep::ReadBack => CommandView { program: "ifconfig"@, args: seq![interface] },
    }
}

/// A step as it is handed to the caller: what to run, for how long at most,
/// and how long to wait afterwards.
#[derive(Debug, PartialEq, Eq)]
pub struct PlannedStep {
    pub step: SpoofStep,
    pub severity: Severity,
    pub command: Command,
    pub timeout_secs: u64,
    pub settle_millis: u64,
}

/// A planned step as a plain value.
pub struct PlannedStepView {
    pub step: SpoofStep,
    pub severity: Severity,
    pub command: CommandView,
    pub timeout_secs: u64,
    pub settle_millis: u64,
}

impl View for PlannedStep {
    type V = PlannedStepView;

    open spec fn view(&self) -> PlannedStepView {
        PlannedStepView {
            step: self.step,
            severity: self.severity,
            command: self.command@,
            timeout_secs: self.timeout_secs,
            settle_millis: self.settle_millis,
        }
    }
}

/// A step with everything that belongs to it.
pub open spec fn planned(step: SpoofStep, interface: Seq<char>, address: Seq<char>) -> PlannedStepView {
    PlannedStepView {
        step,
        severity: severity_of(step),
        command: command_of(step, interface, address),
        timeout_secs: timeout_of(step),
        settle_millis: settle_of(step),
    }
}

/// Whether a run reported success.
pub open spec fn succeeded(outcome: StepOutcomeView) -> bool {
    outcome is Succeeded
}

/// Whether nothing is left to run after the given outcomes: all five steps
/// have run, or one of the two steps whose failure is fatal did not succeed.
/// The run stops at that step: after a privilege check that did not succeed
/// nothing else is run, and after an assignment that did not succeed the
/// interface is neither switched on again nor read back.
pub open spec fn is_finished(outcomes: Seq<StepOutcomeView>) -> bool {
    ||| outcomes.len() >= 5
    ||| (outcomes.len() >= 1 && !succeeded(outcomes[0]))
    ||| (outcomes.len() >= 3 && !succeeded(outcomes[2]))
}

/// What is said of a step that did not succeed.
pub open spec fn failure_text(step: SpoofStep, outcome: StepOutcomeView) -> Seq<char> {
    label_of(step) + failure_suffix(outcome)
}

/// The line that a step without weight adds to the report: nothing where it
/// succeeded, a warning where it did not.
pub open spec fn warning_line(step: SpoofStep, outcome: StepOutcomeView) -> Seq<char> {
    if succeeded(outcome) {
        Seq::<char>::empty()
    } else {
        "\nWarning: "@ + failure_text(step, outcome)
    }
}

/// The first line of the report of a sequence that succeeded.
pub open spec fn success_line(interface: Seq<char>, address: Seq<char>) -> Seq<char> {
    "MAC address for "@ + interface + " changed to "@ + address
}

/// What a finished sequence amounts to. It fails where the privilege check
/// or the assignment of the address did not succeed, and only there; it
/// stopped at that step, and the error tells of it. The failures of the other
/// steps are lines of the report.
pub open spec fn spoof_result(
    interface: Seq<char>,
    address: Seq<char>,
    outcomes: Seq<StepOutcomeView>,
) -> Result<Seq<char>, ErrorView> {
    if !succeeded(outcomes[0]) {
        Err(
            ErrorView {
                kind: ErrorKind::PermissionDenied,
                detail: failure_text(SpoofStep::PrivilegeProbe, outcomes[0]),
            },
        )
    } else if !succeeded(outcomes[2]) {
        Err(
            ErrorView {
                kind: ErrorKind::CommandFailed,
                detail: failure_text(SpoofStep::AssignAddress, outcomes[2]),
            },
        )
    } else {
        Ok(
            success_line(interface, address) + warning_line(SpoofStep::DisableInterface, outcomes[1])
                + warning_line(SpoofStep::EnableInterface, outcomes[3]) + warning_line(
                SpoofStep::ReadBack,
                outcomes[4],
            ),
        )
    }
}

/// The text of a result, on both sides.
pub open spec fn result_view(r: Result<String, CursorManagerError>) -> Result<Seq<char>, ErrorView> {
    match r {
        Ok(text) => Ok(text@),
        Err(e) => Err(e@),
    }
}

impl SpoofStep {
    /// The step at a position of the sequence; the last one for every
    /// position from the fifth on.
    pub fn at(position: usize) -> (step: SpoofStep)
        ensures
            step == step_at(position as int),
    {
        if position == 0 {
            SpoofStep::PrivilegeProbe
        } else if position == 1 {
            SpoofStep::DisableInterface
        } else if position == 2 {
            SpoofStep::AssignAddress
        } else if position == 3 {
            SpoofStep::EnableInterface
        } else {
            SpoofStep::ReadBack
        }
    }

    /// How much the failure of this step weighs.
    pub fn severity(&self) -> (s: Severity)
        ensures
            s == severity_of(*self),
    {
        match self {
            SpoofStep::PrivilegeProbe => Severity::Fatal,
            SpoofStep::DisableInterface => Severity::Warning,
            SpoofStep::AssignAddress => Severity::Fatal,
            SpoofStep::EnableInterface => Severity::Warning,
            SpoofStep::ReadBack => Severity::Informational,
        }
    }

    /// The seconds that this step may take.
    pub fn timeout_secs(&self) -> (t: u64)
        ensures
            t == timeout_of(*self),
    {
        match self {
            SpoofStep::ReadBack => 5,
            _ => 10,
        }
    }

    /// The milliseconds to wait after this step.
    pub fn settle_millis(&self) -> (t: u64)
        ensures
            t == settle_of(*self),
    {
        match self {
            SpoofStep::PrivilegeProbe => 0,
            SpoofStep::DisableInterface => 1000,
            SpoofStep::AssignAddress => 1000,
            SpoofStep::EnableInterface => 2000,
            SpoofStep::ReadBack => 0,
        }
    }

    /// The name of this step in reports.
    pub fn label(&self) -> (l: &'static str)
        ensures
            l@ == label_of(*self),
    {
        match self {
            SpoofStep::PrivilegeProbe => "Privilege check",
            SpoofStep::DisableInterface => "Wi-Fi off command",
            SpoofStep::AssignAddress => "MAC address change command",
            SpoofStep::EnableInterface => "Wi-Fi on command",
            SpoofStep::ReadBack => "MAC address verification",
        }
    }

    /// The command of this step for an interface and its new address.
    pub fn command(&self, interface: &str, address: &str) -> (c: Command)
        ensures
            c@ == command_of(*self, interface@, address@),
    {
        let mut args: Vec<String> = Vec::new();
        match self {
            SpoofStep::PrivilegeProbe => {
                args.push("-n".to_owned());
                args.push("echo".to_owned());
                args.push("test".to_owned());
                let c = Command { program: "sudo".to_owned(), args };
                assert(c@.args =~= seq!["-n"@, "echo"@, "test"@]);
                c
            },
            SpoofStep::DisableInterface => {
                args.push("-n".to_owned());
                args.push("networksetup".to_owned());
                args.push("-setairportpower".to_owned());
                args.push(interface.to_owned());
                args.push("off".to_owned());
                let c = Command { program: "sudo".to_owned(), args };
                assert(c@.args =~= seq![
                    "-n"@,
                    "networksetup"@,
                    "-setairportpower"@,
                    interface@,
                    "off"@,
                ]);
                c
            },
            SpoofStep::AssignAddress => {
                args.push("-n".to_owned());
                args.push("/sbin/ifconfig".to_owned());
                args.push(interface.to_owned());
                args.push("ether".to_owned());
                args.push(address.to_owned());
                let c = Command { program: "sudo".to_owned(), args };
                assert(c@.args =~= seq!["-n"@, "/sbin/ifconfig"@, interface@, "ether"@, address@]);
                c
            },
            SpoofStep::EnableInterface => {
                args.push("-n".to_owned());
                args.push("networksetup".to_owned());
                args.push("-setairportpower".to_owned());
                args.push(interface.to_owned());
                args.push("on".to_owned());
                let c = Command { program: "sudo".to_owned(), args };
                assert(c@.args =~= seq![
                    "-n"@,
                    "networksetup"@,
                    "-setairportpower"@,
                    interface@,
                    "on"@,
                ]);
                c
            },
            SpoofStep::ReadBack => {
                args.push(interface.to_owned());
                let c = Command { program: "ifconfig".to_owned(), args };
                assert(c@.args =~= seq![interface@]);
                c
            },
        }
    }

    /// This step with everything that belongs to it.
    pub fn plan(&self, interface: &str, address: &str) -> (p: PlannedStep)
        ensures
            p@ == planned(*self, interface@, address@),
    {
        PlannedStep {
            step: *self,
            severity: self.severity(),
            command: self.command(interface, address),
            timeout_secs: self.timeout_secs(),
            settle_millis: self.settle_millis(),
        }
    }
}

/// One run of the sequence: the interface, its new address, and how the
/// steps that have run so far ended.
#[derive(Debug)]
pub struct SpoofRun {
    interface: String,
    address: String,
    outcomes: Vec<StepOutcome>,
}

/// A run as a plain value.
pub struct SpoofRunView {
    pub interface: Seq<char>,
    pub address: Seq<char>,
    pub outcomes: Seq<StepOutcomeView>,
}

impl View for SpoofRun {
    type V = SpoofRunView;

    closed spec fn view(&self) -> SpoofRunView {
        SpoofRunView {
            interface: self.interface@,
            address: self.address@,
            outcomes: outcome_views(self.outcomes@),
        }
    }
}

impl SpoofRunView {
    /// Nothing is recorded beyond the end of the sequence.
    pub open spec fn wf(self) -> bool {
        forall|n: int|
            0 <= n < self.outcomes.len() ==> !is_finished(#[trigger] self.outcomes.subrange(0, n))
    }
}

impl SpoofRun {
    /// A run that has not started.
    pub fn new(interface: &str, address: &str) -> (run: SpoofRun)
        ensures
            run@.interface == interface@,
            run@.address == address@,
            run@.outcomes == Seq::<StepOutcomeView>::empty(),
            run@.wf(),
    {
        let run = SpoofRun {
            interface: interface.to_owned(),
            address: address.to_owned(),
            outcomes: Vec::new(),
        };
        assert(run@.outcomes =~= Seq::<StepOutcomeView>::empty());
        run
    }

    /// The interface whose address this run changes.
    pub fn interface(&self) -> (name: &str)
        ensures
            name@ == self@.interface,
    {
        self.interface.as_str()
    }

    /// The address that this run assigns.
    pub fn address(&self) -> (text: &str)
        ensures
            text@ == self@.address,
    {
        self.address.as_str()
    }

    /// The number of steps whose outcome is recorded.
    pub fn steps_done(&self) -> (n: usize)
        ensures
            n == self@.outcomes.len(),
    {
        self.outcomes.len()
    }

    /// Whether nothing is left to run.
    pub fn is_finished(&self) -> (done: bool)
        ensures
            done == is_finished(self@.outcomes),
    {
        let done = self.outcomes.len();
        done >= STEP_COUNT || (done >= 1 && !self.outcomes[0].succeeded()) || (done >= 3
            && !self.outcomes[2].succeeded())
    }

    /// The step to run now, or `None` where the run is finished.
    pub fn pending(&self) -> (next: Option<PlannedStep>)
        ensures
            is_finished(self@.outcomes) <==> next is None,
            next matches Some(p) ==> p@ == planned(
                step_at(self@.outcomes.len() as int),
                self@.interface,
                self@.address,
            ),
    {
        if self.is_finished() {
            None
        } else {
            let step = SpoofStep::at(self.outcomes.len());
            Some(step.plan(self.interface.as_str(), self.address.as_str()))
        }
    }

    /// Records how the pending step ended. A finished run takes no further
    /// outcome: it stays as it is, and the answer is `false`.
    pub fn record(&mut self, outcome: StepOutcome) -> (taken: bool)
        ensures
            taken == !is_finished(old(self)@.outcomes),
            final(self)@.interface == old(self)@.interface,
            final(self)@.address == old(self)@.address,
            final(self)@.outcomes == if taken {
                old(self)@.outcomes.push(outcome@)
            } else {
                old(self)@.outcomes
            },
            old(self)@.wf() ==> final(self)@.wf(),
    {
        if self.is_finished() {
            false
        } else {
            let ghost before = self@.outcomes;
            self.outcomes.push(outcome);
            proof {
                let after = self@.outcomes;
                assert(after =~= before.push(outcome@));
                if old(self)@.wf() {
                    assert forall|n: int| 0 <= n < after.len() implies !is_finished(
                        #[trigger] after.subrange(0, n),
                    ) by {
                        if n < before.len() {
                            assert(after.subrange(0, n) =~= before.subrange(0, n));
                        } else {
                            assert(after.subrange(0, n) =~= before);
                        }
                    }
                }
            }
            true
        }
    }

    /// What the run amounts to once it is finished; `None` before that.
    pub fn result(&self) -> (r: Option<Result<String, CursorManagerError>>)
        ensures
            is_finished(self@.outcomes) <==> r is Some,
            r matches Some(res) ==> result_view(res) == spoof_result(
                self@.interface,
                self@.address,
                self@.outcomes,
            ),
    {
        if !self.is_finished() {
            return None;
        }
        if !self.outcomes[0].succeeded() {
            let mut detail = SpoofStep::PrivilegeProbe.label().to_owned();
            self.outcomes[0].append_failure(&mut detail);
            return Some(Err(CursorManagerError::PermissionDenied { operation: detail }));
        }
        if !self.outcomes[2].succeeded() {
            let mut detail = SpoofStep::AssignAddress.label().to_owned();
            self.outcomes[2].append_failure(&mut detail);
            return Some(Err(CursorManagerError::CommandFailed { command: detail }));
        }
        let mut text = "MAC address for ".to_owned();
        text.append(self.interface.as_str());
        text.append(" changed to ");
        text.append(self.address.as_str());
        append_warning(&mut text, SpoofStep::DisableInterface, &self.outcomes[1]);
        append_warning(&mut text, SpoofStep::EnableInterface, &self.outcomes[3]);
        append_warning(&mut text, SpoofStep::ReadBack, &self.outcomes[4]);
        Some(Ok(text))
    }
}

/// Appends to `text` the line that a step without weight adds to the report.
pub fn append_warning(text: &mut String, step: SpoofStep, outcome: &StepOutcome)
    ensures
        final(text)@ == old(text)@ + warning_line(step, outcome@),
{
    if outcome.succeeded() {
        assert(text@ + Seq::<char>::empty() =~= text@);
    } else {
        text.append("\nWarning: ");
        text.append(step.label());
        outcome.append_failure(text);
        assert(text@ =~= old(text)@ + warning_line(step, outcome@));
    }
}

/// A run never holds more outcomes than the sequence has steps. It holds
/// more than one only where the privilege check succeeded, and more than
/// three only where the assignment of the address succeeded.
pub proof fn lemma_run_bounds(run: SpoofRunView)
    requires
        run.wf(),
    ensures
        run.outcomes.len() <= 5,
        run.outcomes.len() >= 2 ==> succeeded(run.outcomes[0]),
        run.outcomes.len() >= 4 ==> succeeded(run.outcomes[2]),
{
    if run.outcomes.len() > 5 {
        assert(is_finished(run.outcomes.subrange(0, 5)));
    }
    if run.outcomes.len() >= 2 {
        assert(run.outcomes.subrange(0, 1)[0] == run.outcomes[0]);
        assert(!is_finished(run.outcomes.subrange(0, 1)));
    }
    if run.outcomes.len() >= 4 {
        assert(run.outcomes.subrange(0, 3)[2] == run.outcomes[2]);
        assert(!is_finished(run.outcomes.subrange(0, 3)));
    }
}

/// An assignment of the address that fails or runs out of time stops the
/// run at that step: nothing is left to run, so the interface is neither
/// switched on again nor read back, and the run fails with the failed
/// command.
pub proof fn lemma_failed_assignment_stops_the_run(run: SpoofRunView)
    requires
        run.wf(),
        run.outcomes.len() >= 3,
        !succeeded(run.outcomes[2]),
    ensures
        run.outcomes.len() == 3,
        is_finished(run.outcomes),
        spoof_result(run.interface, run.address, run.outcomes) == Err::<Seq<char>, ErrorView>(
            ErrorView {
                kind: ErrorKind::CommandFailed,
                detail: failure_text(SpoofStep::AssignAddress, run.outcomes[2]),
            },
        ),
{
    lemma_run_bounds(run);
}

/// A finished run fails exactly where it stopped before its last step, and
/// that is exactly where the privilege check or the assignment of the address
/// did not succeed. Past the privilege check, the assignment alone decides.
pub proof fn lemma_spoof_fails_on_fatal_steps_only(run: SpoofRunView)
    requires
        run.wf(),
        is_finished(run.outcomes),
    ensures
        spoof_result(run.interface, run.address, run.outcomes) is Err <==> run.outcomes.len() < 5,
        spoof_result(run.interface, run.address, run.outcomes) is Err <==> (!succeeded(
            run.outcomes[0],
        ) || (run.outcomes.len() >= 3 && !succeeded(run.outcomes[2]))),
        run.outcomes.len() >= 2 ==> (spoof_result(run.interface, run.address, run.outcomes) is Err
            <==> !succeeded(run.outcomes[2])),
{
    lemma_run_bounds(run);
}

/// How the interface was switched off and on again, and how the reading
/// back went, never makes a run fail: a run of which all five steps were
/// recorded succeeds, whatever these three steps came to.
pub proof fn lemma_spoof_other_steps_never_fail(run: SpoofRunView)
    requires
        run.wf(),
        run.outcomes.len() == 5,
    ensures
        succeeded(run.outcomes[0]),
        succeeded(run.outcomes[2]),
        spoof_result(run.interface, run.address, run.outcomes) is Ok,
{
    lemma_run_bounds(run);
}

/// The report of a sequence that succeeded begins with the line that names
/// the interface and the new address; for a locally administered address that
/// address has the shape `xx:xx:xx:xx:xx:xx`.
pub proof fn lemma_spoof_success_names_address(
    interface: Seq<char>,
    address: MacAddress,
    outcomes: Seq<StepOutcomeView>,
)
    requires
        outcomes.len() == 5,
        succeeded(outcomes[0]),
        succeeded(outcomes[2]),
    ensures
        spoof_result(interface, mac_text(address.octets@), outcomes) matches Ok(text) && ({
            let line = success_line(interface, mac_text(address.octets@));
            &&& line.len() <= text.len()
            &&& text.subrange(0, line.len() as int) == line
            &&& line.subrange(line.len() - 17, line.len() as int) == mac_text(address.octets@)
        }),
        is_mac_text(mac_text(address.octets@)),
{
    lemma_mac_text_shape(address.octets@);
    let addr = mac_text(address.octets@);
    let line = success_line(interface, addr);
    let text = spoof_result(interface, addr, outcomes)->Ok_0;
    assert(text.subrange(0, line.len() as int) =~= line);
    assert(line.subrange(line.len() - 17, line.len() as int) =~= addr);
}

} // verus!
