//! Starting the external application of a session: what to run, and the
//! report that is made of the spoofing before it and of the start itself.

use vstd::prelude::*;
use vstd::string::*;
use crate::error::{error_message, CursorManagerError, ErrorKind, ErrorView};
use crate::process::{Command, CommandView};
use crate::text::{decimal, decimal_text};

verus! {

/// What the manager has decided about the start of a session: the command,
/// and which of the two things that may precede the start were asked for.
#[derive(Debug, PartialEq, Eq)]
pub struct LaunchPlan {
    /// The name of the session.
    pub session: String,
    /// The command that starts the application.
    pub command: Command,
    /// Whether the hardware address is to be changed before the start.
    pub spoof_first: bool,
    /// Whether the user is to be told to connect to a VPN.
    pub vpn_prompt: bool,
}

/// A plan as a plain value.
pub struct LaunchPlanView {
    pub session: Seq<char>,
    pub command: CommandView,
    pub spoof_first: bool,
    pub vpn_prompt: bool,
}

impl View for LaunchPlan {
    type V = LaunchPlanView;

    open spec fn view(&self) -> LaunchPlanView {
        LaunchPlanView {
            session: self.session@,
            command: self.command@,
            spoof_first: self.spoof_first,
            vpn_prompt: self.vpn_prompt,
        }
    }
}

/// The text of what the spoofing before a start came to, on both sides;
/// `None` where there was no spoofing.
pub open spec fn spoof_view(spoof: Option<Result<String, CursorManagerError>>) -> Option<
    Result<Seq<char>, ErrorView>,
> {
    match spoof {
        None => None,
        Some(Ok(text)) => Some(Ok(text@)),
        Some(Err(e)) => Some(Err(e@)),
    }
}

/// The text of what the start came to, on both sides.
pub open spec fn spawn_view(spawn: Result<u32, String>) -> Result<u32, Seq<char>> {
    match spawn {
        Ok(pid) => Ok(pid),
        Err(reason) => Err(reason@),
    }
}

/// The lines of the report that speak of the spoofing: its own report where
/// it succeeded, one line of warning where it failed, nothing where there
/// was none or none was asked for.
pub open spec fn spoof_lines(requested: bool, spoof: Option<Result<Seq<char>, ErrorView>>) -> Seq<
    char,
> {
    if !requested {
        Seq::<char>::empty()
    } else {
        match spoof {
            None => Seq::<char>::empty(),
            Some(Ok(text)) => text + "\n"@,
            Some(Err(e)) => "Warning: MAC spoofing failed: "@ + error_message(e) + "\n"@,
        }
    }
}

/// The line of the report that tells the user to connect to a VPN.
pub open spec fn vpn_line(requested: bool) -> Seq<char> {
    if requested {
        "Connect to your VPN now for a new IP before continuing.\n"@
    } else {
        Seq::<char>::empty()
    }
}

/// The two lines of the report that speak of the start itself.
pub open spec fn started_lines(session: Seq<char>, pid: u32) -> Seq<char> {
    "Launched Electron app with session '"@ + session + "'\nPID: "@ + decimal(pid as nat)
}

/// The report of a start that succeeded.
pub open spec fn launch_report(
    plan: LaunchPlanView,
    spoof: Option<Result<Seq<char>, ErrorView>>,
    pid: u32,
) -> Seq<char> {
    spoof_lines(plan.spoof_first, spoof) + vpn_line(plan.vpn_prompt) + started_lines(
        plan.session,
        pid,
    )
}

/// What a launch amounts to: the report where the application started, a
/// failed command where it did not. The spoofing has no part in the choice.
pub open spec fn launch_result(
    plan: LaunchPlanView,
    spoof: Option<Result<Seq<char>, ErrorView>>,
    spawn: Result<u32, Seq<char>>,
) -> Result<Seq<char>, ErrorView> {
    match spawn {
        Ok(pid) => Ok(launch_report(plan, spoof, pid)),
        Err(reason) => Err(
            ErrorView {
                kind: ErrorKind::CommandFailed,
                detail: "Failed to launch Electron app: "@ + reason,
            },
        ),
    }
}

impl LaunchPlan {
    /// What the launch amounts to, given what the spoofing came to (`None`
    /// where there was none) and what the start came to: the identifier of
    /// the new process, or the reason why there is none.
    pub fn report(
        &self,
        spoof: Option<Result<String, CursorManagerError>>,
        spawn: Result<u32, String>,
    ) -> (r: Result<String, CursorManagerError>)
        ensures
            match r {
                Ok(text) => launch_result(self@, spoof_view(spoof), spawn_view(spawn)) == Ok::<
                    Seq<char>,
                    ErrorView,
                >(text@),
                Err(e) => launch_result(self@, spoof_view(spoof), spawn_view(spawn)) == Err::<
                    Seq<char>,
                    ErrorView,
                >(e@),
            },
    {
        let pid: u32 = match spawn {
            Ok(pid) => pid,
            Err(reason) => {
                let mut detail = "Failed to launch Electron app: ".to_owned();
                detail.append(reason.as_str());
                return Err(CursorManagerError::CommandFailed { command: detail });
            },
        };
        let mut text = String::new();
        if self.spoof_first {
            match &spoof {
                None => {},
                Some(Ok(line)) => {
                    text.append(line.as_str());
                    text.append("\n");
                },
                Some(Err(e)) => {
                    text.append("Warning: MAC spoofing failed: ");
                    let reason = e.message();
                    text.append(reason.as_str());
                    text.append("\n");
                },
            }
        }
        assert(text@ =~= spoof_lines(self@.spoof_first, spoof_view(spoof)));
        if self.vpn_prompt {
            text.append("Connect to your VPN now for a new IP before continuing.\n");
        }
        assert(text@ =~= spoof_lines(self@.spoof_first, spoof_view(spoof)) + vpn_line(
            self@.vpn_prompt,
        ));
        text.append("Launched Electron app with session '");
        text.append(self.session.as_str());
        text.append("'\nPID: ");
        let number = decimal_text(pid);
        text.append(number.as_str());
        assert(text@ =~= launch_report(self@, spoof_view(spoof), pid));
        Ok(text)
    }
}

/// A launch whose spoofing failed still succeeds where the application
/// started: the report begins with one line of warning that holds the
/// failure, and ends with the identifier of the new process.
pub proof fn lemma_failed_spoof_does_not_stop_launch(plan: LaunchPlanView, e: ErrorView, pid: u32)
    requires
        plan.spoof_first,
    ensures
        launch_result(plan, Some(Err(e)), Ok(pid)) matches Ok(text) && ({
            let warning = "Warning: MAC spoofing failed: "@ + error_message(e) + "\n"@;
            let tail = "PID: "@ + decimal(pid as nat);
            &&& text == warning + vpn_line(plan.vpn_prompt) + started_lines(plan.session, pid)
            &&& warning.len() <= text.len()
            &&& text.subrange(0, warning.len() as int) == warning
            &&& tail.len() <= text.len()
            &&& text.subrange(text.len() - tail.len(), text.len() as int) == tail
        }),
{
    let warning = "Warning: MAC spoofing failed: "@ + error_message(e) + "\n"@;
    let tail = "PID: "@ + decimal(pid as nat);
    let text = launch_report(plan, Some(Err(e)), pid);
    let head = "Launched Electron app with session '"@ + plan.session + "'\n"@;
    reveal_strlit("'\nPID: ");
    reveal_strlit("'\n");
    reveal_strlit("PID: ");
    assert("'\nPID: "@ =~= "'\n"@ + "PID: "@);
    assert(started_lines(plan.session, pid) =~= head + tail);
    assert(text =~= (warning + vpn_line(plan.vpn_prompt) + head) + tail);
    assert(text.subrange(0, warning.len() as int) =~= warning);
    assert(text.subrange(text.len() - tail.len(), text.len() as int) =~= tail);
}

/// Whether the application starts decides alone whether a launch succeeds.
pub proof fn lemma_launch_fails_only_on_spawn(
    plan: LaunchPlanView,
    spoof: Option<Result<Seq<char>, ErrorView>>,
    spawn: Result<u32, Seq<char>>,
)
    ensures
        launch_result(plan, spoof, spawn) is Ok <==> spawn is Ok,
{
}

} // verus!
