//! The dispatcher and the execution state machine. A submitted line becomes
//! a dispatch plan: the `cd` built-in or an external program for each parsed
//! command, in order, run unconditionally whatever the earlier exit codes.
//! The poll loop around a running child is driven through `ExecSession`,
//! one observation at a time; the caller spawns, kills, sleeps and reaps.

use vstd::prelude::*;

use crate::command::{Command, CommandModel};
use crate::parser::{commands_model, parse, parsed};

verus! {

/// What one parsed command asks the process layer to do.
pub enum Dispatch {
    /// Run the `cd` built-in on these arguments.
    RunCd(Vec<String>),
    /// Spawn this program with these arguments.
    Spawn(String, Vec<String>),
}

/// The mathematical value of one dispatch.
#[verifier::ext_equal]
pub enum DispatchModel {
    RunCd(Seq<Seq<char>>),
    Spawn(Seq<char>, Seq<Seq<char>>),
}

/// The value of one dispatch.
pub open spec fn dispatch_model(d: Dispatch) -> DispatchModel {
    match d {
        Dispatch::RunCd(args) => DispatchModel::RunCd(args.deep_view()),
        Dispatch::Spawn(p, args) => DispatchModel::Spawn(p@, args.deep_view()),
    }
}

/// The values of a dispatch sequence.
pub open spec fn dispatches_model(v: Seq<Dispatch>) -> Seq<DispatchModel> {
    v.map_values(|d: Dispatch| dispatch_model(d))
}

/// The dispatch one parsed command yields: `cd` as the program name runs
/// the built-in, anything else spawns.
pub open spec fn command_dispatch(c: CommandModel) -> DispatchModel {
    if c.text == "cd"@ {
        DispatchModel::RunCd(c.args)
    } else {
        DispatchModel::Spawn(c.text, c.args)
    }
}

/// The dispatch plan of one submitted line: its parsed commands, in order,
/// each mapped to its dispatch.
pub open spec fn line_plan(s: Seq<char>) -> Seq<DispatchModel> {
    parsed(s).map_values(|c: CommandModel| command_dispatch(c))
}

impl Command {
    /// Turns one submitted line into its dispatch plan. Every entry of the
    /// plan runs, in order, whatever exit codes the earlier ones report.
    pub fn handle_commands(command_str: &str) -> (plan: Vec<Dispatch>)
        ensures
            dispatches_model(plan@) == line_plan(command_str@),
    {
        proof {
            reveal_strlit("cd");
        }
        let mut commands = parse(command_str);
        let mut plan: Vec<Dispatch> = Vec::new();
        proof {
            assert(dispatches_model(plan@) + commands_model(commands@).map_values(
                |c: CommandModel| command_dispatch(c),
            ) =~= line_plan(command_str@));
        }
        while commands.len() > 0
            invariant
                dispatches_model(plan@) + commands_model(commands@).map_values(
                    |c: CommandModel| command_dispatch(c),
                ) == line_plan(command_str@),
            decreases commands.len(),
        {
            let ghost before_cmds = commands@;
            let ghost before_plan = plan@;
            let c = commands.remove(0);
            let (name, args) = c.into_parts();
            let is_cd = name == String::from_str("cd");
            let d = if is_cd {
                Dispatch::RunCd(args)
            } else {
                Dispatch::Spawn(name, args)
            };
            proof {
                assert(dispatch_model(d) == command_dispatch(c.model()));
            }
            plan.push(d);
            proof {
                let f = |cm: CommandModel| command_dispatch(cm);
                assert(commands_model(before_cmds)[0] == c.model());
                assert(commands_model(commands@) =~= commands_model(
                    before_cmds,
                ).skip(1));
                assert(dispatches_model(plan@) =~= dispatches_model(
                    before_plan,
                ).push(dispatch_model(d)));
                assert(dispatches_model(before_plan).push(command_dispatch(c.model()))
                    + commands_model(before_cmds).skip(1).map_values(f)
                    =~= dispatches_model(before_plan) + commands_model(
                    before_cmds,
                ).map_values(f));
            }
        }
        proof {
            assert(commands_model(commands@).map_values(
                |c: CommandModel| command_dispatch(c),
            ) =~= Seq::<DispatchModel>::empty());
            assert(dispatches_model(plan@) =~= line_plan(command_str@));
        }
        plan
    }
}

/// The exit code a finished sequence reports: that of the last command, or
/// 1 when nothing ran.
pub fn last_code(codes: &Vec<i32>) -> (r: i32)
    ensures
        codes@.len() == 0 ==> r == 1,
        codes@.len() > 0 ==> r == codes@.last(),
{
    if codes.len() == 0 {
        1
    } else {
        codes[codes.len() - 1]
    }
}

/// One observation of a running child: it exited with a code, it still
/// runs, or asking failed.
#[derive(Clone, Copy, PartialEq, Eq, Structural, Debug)]
pub enum PollStatus {
    Exited(i32),
    Running,
    WaitFailed,
}

/// What the caller must do after one observation.
#[derive(Clone, Copy, PartialEq, Eq, Structural, Debug)]
pub enum PollAction {
    /// The session is over; read its exit code.
    Done,
    /// Wait out the poll interval, then observe again.
    Sleep,
    /// Kill the child, reap it, and re-arm the interrupt flag; the session
    /// is over with exit code 1.
    KillAndReap,
    /// Report the wait error, then wait out the interval and observe again.
    ReportAndSleep,
}

/// One external command's run, from spawn to reaped child.
pub struct ExecSession {
    /// Whether the command is finished.
    pub done: bool,
    /// The exit code so far; final once `done` holds.
    pub code: i32,
}

impl ExecSession {
    /// A session for a child just spawned: not finished, provisional code 1.
    pub fn start() -> (s: ExecSession)
        ensures
            !s.done,
            s.code == 1,
    {
        ExecSession { done: false, code: 1 }
    }

    /// A program that could not be spawned is not a dispatch failure: the
    /// session ends at once with exit code 0.
    pub fn on_spawn_failure(&mut self) -> (u: ())
        ensures
            final(self).done,
            final(self).code == 0,
    {
        self.done = true;
        self.code = 0;
    }

    /// Advances the session by one observation. An exited child ends the
    /// session with its code. A child still running while the interrupt
    /// flag was cleared is killed, reaped and charged exit code 1; one
    /// still running otherwise waits out the interval. A failed wait is
    /// reported, leaves code 1 for now, and the polling goes on.
    pub fn on_poll(&mut self, status: PollStatus, interrupted: bool) -> (a: PollAction)
        requires
            !old(self).done,
        ensures
            status matches PollStatus::Exited(c) ==> a == PollAction::Done && final(self).done && final(self).code == c,
            status == PollStatus::Running && interrupted ==> a == PollAction::KillAndReap
                && final(self).done && final(self).code == 1,
            status == PollStatus::Running && !interrupted ==> a == PollAction::Sleep
                && !final(self).done && final(self).code == 1,
            status == PollStatus::WaitFailed ==> a == PollAction::ReportAndSleep
                && !final(self).done && final(self).code == 1,
    {
        match status {
            PollStatus::Exited(c) => {
                self.done = true;
                self.code = c;
                PollAction::Done
            },
            PollStatus::Running => {
                if interrupted {
                    self.done = true;
                    self.code = 1;
                    PollAction::KillAndReap
                } else {
                    self.code = 1;
                    PollAction::Sleep
                }
            },
            PollStatus::WaitFailed => {
                self.code = 1;
                PollAction::ReportAndSleep
            },
        }
    }
}

} // verus!
