//! A turn of the agent as a machine: from where the turn stands and what
//! just happened (the model replied, the user answered an approval prompt, a
//! tool finished) to what to do next and what to tell the interface. The
//! application performs the actions and hands back the events.

use vstd::prelude::*;
use crate::agent::{
    approval_outcome, format_tool_args, plan_tool, tool_args_display, tool_output, tool_plan,
    tool_report, turn_error_update, Agent, AgentUpdate, PlanView, ReplyPart, ToolCall,
    ToolCallView,
};
use crate::errors::{error_text, AppError};
use crate::llm::{Message, PartView};
use crate::mode::{approval_needed, needs_approval, AgentMode};
use crate::settings::{sanitized, stored_mode, token_present};
use crate::text::{owned, trim, trim_str};
use crate::tool_args::ToolArgs;

verus! {

broadcast use vstd::string::group_string_axioms;

/// Where a turn stands.
pub enum TurnPhase {
    /// Waiting for the model's reply.
    AwaitReply,
    /// Waiting for the user's answer about calling `name` with `args`.
    AwaitApproval { name: String, args: ToolArgs },
    /// Waiting for the tool `name` to finish.
    AwaitTool { name: String },
    /// The turn is over.
    Over,
}

/// A running turn: how long the conversation was when it began, the mode it
/// runs in, and where it stands. Made only by `Agent::start_turn`.
pub struct Turn {
    mark: usize,
    mode: AgentMode,
    phase: TurnPhase,
}

/// Where a turn stands, as plain values.
pub enum Stage {
    Reply,
    Approval(Seq<char>, ToolArgs),
    Tool(Seq<char>),
    Over,
}

impl Turn {
    /// The length of the conversation when the turn began.
    pub closed spec fn mark(&self) -> nat {
        self.mark as nat
    }

    /// The mode the turn runs in.
    pub closed spec fn mode(&self) -> AgentMode {
        self.mode
    }

    /// Where the turn stands.
    pub closed spec fn stage(&self) -> Stage {
        match self.phase {
            TurnPhase::AwaitReply => Stage::Reply,
            TurnPhase::AwaitApproval { name, args } => Stage::Approval(name@, args),
            TurnPhase::AwaitTool { name } => Stage::Tool(name@),
            TurnPhase::Over => Stage::Over,
        }
    }

    /// The mode the turn runs in.
    pub fn running_mode(&self) -> (m: AgentMode)
        ensures
            m == self.mode(),
    {
        self.mode
    }

    /// Whether the turn is over.
    pub fn is_over(&self) -> (r: bool)
        ensures
            r == (self.stage() is Over),
    {
        match self.phase {
            TurnPhase::Over => true,
            _ => false,
        }
    }

    /// Whether `ev` is what the turn waits for.
    pub fn expects(&self, ev: &TurnEvent) -> (r: bool)
        ensures
            r == expects(self.stage(), *ev),
    {
        match (&self.phase, ev) {
            (TurnPhase::AwaitReply, TurnEvent::Reply(_)) => true,
            (TurnPhase::AwaitReply, TurnEvent::ChatFailed(_)) => true,
            (TurnPhase::AwaitApproval { .. }, TurnEvent::Approval(_)) => true,
            (TurnPhase::AwaitTool { .. }, TurnEvent::ToolDone(_)) => true,
            _ => false,
        }
    }
}

/// What happened since the last step.
pub enum TurnEvent {
    /// The model replied; this is the first part of its first candidate.
    Reply(Option<ReplyPart>),
    /// The request to the model failed.
    ChatFailed(AppError),
    /// The user answered the approval prompt (`None`: it went unanswered).
    Approval(Option<bool>),
    /// The tool finished.
    ToolDone(Result<String, AppError>),
}

/// The event a stage waits for.
pub open spec fn expects(stage: Stage, ev: TurnEvent) -> bool {
    match stage {
        Stage::Reply => ev is Reply || ev is ChatFailed,
        Stage::Approval(_, _) => ev is Approval,
        Stage::Tool(_) => ev is ToolDone,
        Stage::Over => false,
    }
}

/// What the application does next.
pub enum TurnAction {
    /// Send the conversation to the model; then hand back `Reply` or
    /// `ChatFailed`.
    AskModel,
    /// Ask the user to approve, showing the summary; then hand back
    /// `Approval`.
    AskApproval(String),
    /// Run the call; then hand back `ToolDone`.
    Execute(ToolCall),
    /// Nothing: the turn is over.
    Finish,
}

/// An action as plain values.
pub enum ActionView {
    AskModel,
    AskApproval(Seq<char>),
    Execute(ToolCallView),
    Finish,
}

/// An update for the interface as plain values.
pub enum UpdateView {
    StartTool(Seq<char>, Seq<char>),
    CompleteTool(Seq<char>),
    FailTool(Seq<char>),
    Assistant(Seq<char>),
    Error(Seq<char>),
    ApprovalNeeded(Seq<char>),
    Done,
}

pub open spec fn action_view(a: TurnAction) -> ActionView {
    match a {
        TurnAction::AskModel => ActionView::AskModel,
        TurnAction::AskApproval(s) => ActionView::AskApproval(s@),
        TurnAction::Execute(c) => ActionView::Execute(c@),
        TurnAction::Finish => ActionView::Finish,
    }
}

pub open spec fn update_view(u: AgentUpdate) -> UpdateView {
    match u {
        AgentUpdate::StartTool { name, args } => UpdateView::StartTool(name@, args@),
        AgentUpdate::CompleteTool(s) => UpdateView::CompleteTool(s@),
        AgentUpdate::FailTool(s) => UpdateView::FailTool(s@),
        AgentUpdate::Assistant(s) => UpdateView::Assistant(s@),
        AgentUpdate::Error(s) => UpdateView::Error(s@),
        AgentUpdate::ApprovalNeeded { summary } => UpdateView::ApprovalNeeded(summary@),
        AgentUpdate::Done => UpdateView::Done,
    }
}

/// The views of a list of updates.
pub open spec fn updates_view(us: Seq<AgentUpdate>) -> Seq<UpdateView> {
    us.map_values(|u: AgentUpdate| update_view(u))
}

/// A conversation as plain values.
pub type Log = Seq<(Seq<char>, Seq<PartView>)>;

/// What the conversation becomes when a turn that began at `mark` fails.
pub open spec fn rewound(log: Log, mark: nat) -> Log {
    if mark <= log.len() {
        log.take(mark as int)
    } else {
        log
    }
}

/// The message recording a tool's result.
pub open spec fn result_message(name: Seq<char>, text: Seq<char>) -> (Seq<char>, Seq<PartView>) {
    ("user"@, seq![PartView::FunctionResponse(name, text)])
}

/// The update reporting a tool's outcome.
pub open spec fn outcome_update(result: Result<String, AppError>) -> UpdateView {
    match result {
        Ok(_) => UpdateView::CompleteTool(tool_output(result)),
        Err(e) => UpdateView::FailTool(error_text(e)),
    }
}

/// The next action, the updates, the stage and the conversation after a step.
pub type StepOutcome = (ActionView, Seq<UpdateView>, Stage, Log);

/// The turn fails with the message `msg`: the conversation goes back to the
/// mark and the interface is told the error and that the turn is done.
pub open spec fn failed(msg: Seq<char>, mark: nat, log: Log) -> StepOutcome {
    (
        ActionView::Finish,
        seq![UpdateView::Error(sanitized(msg)), UpdateView::Done],
        Stage::Over,
        rewound(log, mark),
    )
}

/// A tool's outcome is reported with `update` and recorded as `recorded`,
/// and the model is asked again.
pub open spec fn reported(
    name: Seq<char>,
    update: UpdateView,
    recorded: Seq<char>,
    pre: Seq<UpdateView>,
    log: Log,
) -> StepOutcome {
    (ActionView::AskModel, pre.push(update), Stage::Reply, log.push(result_message(name, recorded)))
}

/// The call of `name` with `args` is run, or reported as refused.
pub open spec fn planned(name: Seq<char>, args: ToolArgs, pre: Seq<UpdateView>, log: Log) -> StepOutcome {
    match tool_plan(name, args) {
        PlanView::Call(c) => (ActionView::Execute(c), pre, Stage::Tool(name), log),
        PlanView::Refused(m) => reported(name, UpdateView::FailTool(m), "Error: "@ + m, pre, log),
    }
}

/// One step of a turn that began at `mark` and runs in `mode`, standing at
/// `stage` with the conversation `log`, on the event `ev`.
pub open spec fn turn_step(stage: Stage, mode: AgentMode, mark: nat, log: Log, ev: TurnEvent) -> StepOutcome {
    match (stage, ev) {
        (Stage::Reply, TurnEvent::ChatFailed(e)) => failed(error_text(e), mark, log),
        (Stage::Reply, TurnEvent::Reply(None)) => failed("Empty response"@, mark, log),
        (Stage::Reply, TurnEvent::Reply(Some(p))) => match p.function_call {
            Some(fc) => {
                let shown = UpdateView::StartTool(fc.name@, tool_args_display(fc.name@, fc.args));
                let started = log.push(("model"@, seq![PartView::FunctionCall(fc.name@, fc.args.json@)]));
                match approval_needed(mode, fc.name@, fc.args) {
                    Some(s) => (
                        ActionView::AskApproval(s),
                        seq![shown, UpdateView::ApprovalNeeded(s)],
                        Stage::Approval(fc.name@, fc.args),
                        started,
                    ),
                    None => planned(fc.name@, fc.args, seq![shown], started),
                }
            },
            None => match p.text {
                Some(t) => if trim(t@).len() == 0 {
                    failed("Empty response"@, mark, log)
                } else {
                    (
                        ActionView::Finish,
                        seq![UpdateView::Assistant(t@), UpdateView::Done],
                        Stage::Over,
                        log.push(("model"@, seq![PartView::Text(t@)])),
                    )
                },
                None => failed("Unexpected response"@, mark, log),
            },
        },
        (Stage::Approval(name, args), TurnEvent::Approval(a)) => match a {
            Some(true) => planned(name, args, seq![], log),
            Some(false) => reported(
                name,
                UpdateView::FailTool("Denied by user"@),
                "Denied by user"@,
                seq![],
                log,
            ),
            None => reported(
                name,
                UpdateView::FailTool("Approval channel closed"@),
                "Error: "@ + "Approval channel closed"@,
                seq![],
                log,
            ),
        },
        (Stage::Tool(name), TurnEvent::ToolDone(res)) => reported(
            name,
            outcome_update(res),
            tool_output(res),
            seq![],
            log,
        ),
        _ => (ActionView::Finish, seq![], stage, log),
    }
}

/// How a turn starts: without a token it fails at once (the conversation
/// untouched); otherwise the model is asked.
pub open spec fn turn_start(token_set: bool) -> (ActionView, Seq<UpdateView>) {
    if token_set {
        (ActionView::AskModel, seq![])
    } else {
        (
            ActionView::Finish,
            seq![
                UpdateView::Error(sanitized("No API token set. Use /token <your-key>"@)),
                UpdateView::Done,
            ],
        )
    }
}

impl Agent {
    /// Starts a turn: notes the length of the conversation and the mode; the
    /// turn fails at once without a token.
    pub fn start_turn(&self) -> (r: (Turn, TurnAction, Vec<AgentUpdate>))
        ensures
            r.0.mark() == self.log().len(),
            (action_view(r.1), updates_view(r.2@)) == turn_start(token_present(self.conf().api_key@)),
            r.0.stage() == (if token_present(self.conf().api_key@) {
                Stage::Reply
            } else {
                Stage::Over
            }),
            token_present(self.conf().api_key@) ==> r.0.mode() == stored_mode(self.conf().mode@),
    {
        let mark = self.history_len();
        match self.begin_turn() {
            Ok(mode) => (Turn { mark, mode, phase: TurnPhase::AwaitReply }, TurnAction::AskModel, Vec::new()),
            Err(e) => {
                let us = vec![turn_error_update(&e), AgentUpdate::Done];
                assert(updates_view(us@) =~= turn_start(false).1);
                (Turn { mark, mode: AgentMode::Base, phase: TurnPhase::Over }, TurnAction::Finish, us)
            },
        }
    }

    /// Takes the turn one step on from `ev`: returns what to do next and the
    /// updates to send, in order.
    pub fn advance(&mut self, turn: &mut Turn, ev: TurnEvent) -> (r: (TurnAction, Vec<AgentUpdate>))
        requires
            expects(old(turn).stage(), ev),
        ensures
            ({
                let (a, us, st, log) = turn_step(
                    old(turn).stage(),
                    old(turn).mode(),
                    old(turn).mark(),
                    old(self).log(),
                    ev,
                );
                &&& action_view(r.0) == a
                &&& updates_view(r.1@) == us
                &&& final(turn).stage() == st
                &&& final(self).log() == log
            }),
            final(turn).mark() == old(turn).mark(),
            final(turn).mode() == old(turn).mode(),
            final(self).conf() == old(self).conf(),
            final(self).http() == old(self).http(),
    {
        let mut phase = TurnPhase::Over;
        std::mem::swap(&mut phase, &mut turn.phase);
        match phase {
            TurnPhase::AwaitReply => match ev {
                TurnEvent::ChatFailed(e) => self.fail(turn, &e),
                TurnEvent::Reply(None) => {
                    let e = AppError::Api(owned("Empty response"));
                    self.fail(turn, &e)
                },
                TurnEvent::Reply(Some(p)) => match p.function_call {
                    Some(fc) => {
                        let display = format_tool_args(fc.name.as_str(), &fc.args);
                        let approval = needs_approval(turn.mode, fc.name.as_str(), &fc.args);
                        let shown = AgentUpdate::StartTool { name: fc.name.clone(), args: display };
                        self.record(Message::model_function_call(fc.name.clone(), fc.args.json.clone()));
                        match approval {
                            Some(summary) => {
                                let asked = summary.clone();
                                turn.phase = TurnPhase::AwaitApproval { name: fc.name, args: fc.args };
                                let us = vec![shown, AgentUpdate::ApprovalNeeded { summary }];
                                assert(updates_view(us@) =~= seq![
                                    update_view(us@[0]),
                                    UpdateView::ApprovalNeeded(asked@),
                                ]);
                                (TurnAction::AskApproval(asked), us)
                            },
                            None => {
                                let pre = vec![shown];
                                assert(updates_view(pre@) =~= seq![update_view(pre@[0])]);
                                self.plan(turn, fc.name, fc.args, pre)
                            },
                        }
                    },
                    None => match p.text {
                        Some(t) => {
                            let tt = trim_str(t.as_str());
                            if tt.as_str().is_empty() {
                                let e = AppError::Api(owned("Empty response"));
                                self.fail(turn, &e)
                            } else {
                                self.record(Message::model_text(t.as_str()));
                                turn.phase = TurnPhase::Over;
                                let ghost tv = t@;
                                let us = vec![AgentUpdate::Assistant(t), AgentUpdate::Done];
                                assert(updates_view(us@) =~= seq![UpdateView::Assistant(tv), UpdateView::Done]);
                                (TurnAction::Finish, us)
                            }
                        },
                        None => {
                            let e = AppError::Api(owned("Unexpected response"));
                            self.fail(turn, &e)
                        },
                    },
                },
                _ => (TurnAction::Finish, Vec::new()),
            },
            TurnPhase::AwaitApproval { name, args } => match ev {
                TurnEvent::Approval(a) => match approval_outcome(a) {
                    Ok(()) => {
                        let pre: Vec<AgentUpdate> = Vec::new();
                        assert(updates_view(pre@) =~= Seq::<UpdateView>::empty());
                        self.plan(turn, name, args, pre)
                    },
                    Err(e) => {
                        let pre: Vec<AgentUpdate> = Vec::new();
                        assert(updates_view(pre@) =~= Seq::<UpdateView>::empty());
                        self.report(turn, name, &Err(e), pre)
                    },
                },
                _ => (TurnAction::Finish, Vec::new()),
            },
            TurnPhase::AwaitTool { name } => match ev {
                TurnEvent::ToolDone(res) => {
                    let pre: Vec<AgentUpdate> = Vec::new();
                    assert(updates_view(pre@) =~= Seq::<UpdateView>::empty());
                    self.report(turn, name, &res, pre)
                },
                _ => (TurnAction::Finish, Vec::new()),
            },
            TurnPhase::Over => (TurnAction::Finish, Vec::new()),
        }
    }

    /// The turn fails with `e`.
    fn fail(&mut self, turn: &mut Turn, e: &AppError) -> (r: (TurnAction, Vec<AgentUpdate>))
        ensures
            ({
                let (a, us, st, log) = failed(error_text(*e), old(turn).mark(), old(self).log());
                &&& action_view(r.0) == a
                &&& updates_view(r.1@) == us
                &&& final(turn).stage() == st
                &&& final(self).log() == log
            }),
            final(turn).mark() == old(turn).mark(),
            final(turn).mode() == old(turn).mode(),
            final(self).conf() == old(self).conf(),
            final(self).http() == old(self).http(),
    {
        self.rewind(turn.mark);
        turn.phase = TurnPhase::Over;
        let us = vec![turn_error_update(e), AgentUpdate::Done];
        assert(updates_view(us@) =~= seq![UpdateView::Error(sanitized(error_text(*e))), UpdateView::Done]);
        (TurnAction::Finish, us)
    }

    /// Reports `result` of the tool `name` after the updates `pre`, records
    /// it, and asks the model again.
    fn report(
        &mut self,
        turn: &mut Turn,
        name: String,
        result: &Result<String, AppError>,
        pre: Vec<AgentUpdate>,
    ) -> (r: (TurnAction, Vec<AgentUpdate>))
        ensures
            ({
                let (a, us, st, log) = reported(
                    name@,
                    outcome_update(*result),
                    tool_output(*result),
                    updates_view(pre@),
                    old(self).log(),
                );
                &&& action_view(r.0) == a
                &&& updates_view(r.1@) == us
                &&& final(turn).stage() == st
                &&& final(self).log() == log
            }),
            final(turn).mark() == old(turn).mark(),
            final(turn).mode() == old(turn).mode(),
            final(self).conf() == old(self).conf(),
            final(self).http() == old(self).http(),
    {
        let rep = tool_report(result);
        self.record(Message::tool_result(name.as_str(), rep.recorded.as_str()));
        turn.phase = TurnPhase::AwaitReply;
        let mut us = pre;
        let ghost before = us@;
        us.push(rep.update);
        assert(updates_view(us@) =~= updates_view(before).push(outcome_update(*result)));
        (TurnAction::AskModel, us)
    }

    /// Plans the call of `name` with `args` after the updates `pre`: runs it,
    /// or reports it as refused.
    fn plan(&mut self, turn: &mut Turn, name: String, args: ToolArgs, pre: Vec<AgentUpdate>) -> (r: (
        TurnAction,
        Vec<AgentUpdate>,
    ))
        ensures
            ({
                let (a, us, st, log) = planned(name@, args, updates_view(pre@), old(self).log());
                &&& action_view(r.0) == a
                &&& updates_view(r.1@) == us
                &&& final(turn).stage() == st
                &&& final(self).log() == log
            }),
            final(turn).mark() == old(turn).mark(),
            final(turn).mode() == old(turn).mode(),
            final(self).conf() == old(self).conf(),
            final(self).http() == old(self).http(),
    {
        match plan_tool(name.as_str(), &args) {
            Ok(call) => {
                turn.phase = TurnPhase::AwaitTool { name };
                (TurnAction::Execute(call), pre)
            },
            Err(e) => self.report(turn, name, &Err(e), pre),
        }
    }
}

} // verus!
