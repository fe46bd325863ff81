//! Control commands: what a reasoner or an operator asks a node to do, and the actions that this
//! comes to.
//!
//! Pausing, resuming and throttling a strategy, and asking for a human's approval, resolve to an
//! action. The other command types are part of the contract, so that producers can send them
//! already, and resolve to [`ControlAction::Unsupported`].

use crate::ids::{StrategyId, UnixNanos, UUID4};
use crate::overlay::vetoed;
use vstd::prelude::*;

verus! {

/// One command from a reasoner or the control-plane UI.
#[derive(Debug, Clone, PartialEq, Eq)]
pub struct ControlCommand {
    pub command_id: UUID4,
    pub command_type: ControlCommandType,
    /// The kind of thing `target_id` identifies, e.g. `"Strategy"`, `"Venue"`, `"Instrument"`.
    pub target_type: String,
    pub target_id: String,
    pub severity: ControlCommandSeverity,
    /// How long this command's effect should last before it ends by itself, independent of
    /// whether a compensating command ever arrives.
    pub ttl_ms: u64,
    pub requires_ack: bool,
    pub reasoner_id: String,
    pub policy_version: String,
    pub graph_snapshot_id: String,
    pub explanation: String,
    /// The vertices and hyperedges that justify this decision.
    pub evidence: Vec<String>,
}

/// What a command asks for.
#[derive(Debug, Clone, Copy, PartialEq, Eq, Structural)]
pub enum ControlCommandType {
    PauseStrategy,
    ResumeStrategy,
    ThrottleStrategy,
    RejectOrderIntent,
    RequireHumanApproval,
    ReduceExposure,
    CancelOrders,
    CancelInstrumentOrders,
    DisableVenue,
    ChangeRiskLimit,
    ChangeCapitalAllocation,
    SetTradingState,
    ForceHedge,
}

/// How grave a command is.
#[derive(Debug, Clone, Copy, PartialEq, Eq, Structural)]
pub enum ControlCommandSeverity {
    Advisory,
    Warning,
    Critical,
}

/// What a [`ControlCommand`] resolves to, expressed as data: whoever resolves a command carries
/// the action out.
#[derive(Debug, PartialEq, Eq)]
pub enum ControlAction {
    /// Stop the strategy.
    StopStrategy { strategy_id: StrategyId },
    /// Start the strategy *and* clear its veto, so that it does not stay vetoed after being
    /// resumed.
    ResumeStrategy { strategy_id: StrategyId },
    /// Veto the strategy until `expires_at`.
    VetoStrategy { strategy_id: StrategyId, expires_at: UnixNanos },
    /// Nothing a node can do yet.
    Unsupported { command_type: ControlCommandType },
}

/// What a [`ControlAction`] holds.
pub enum ControlActionView {
    StopStrategy { strategy_id: Seq<char> },
    ResumeStrategy { strategy_id: Seq<char> },
    VetoStrategy { strategy_id: Seq<char>, expires_at: u64 },
    Unsupported { command_type: ControlCommandType },
}

impl View for ControlAction {
    type V = ControlActionView;

    open spec fn view(&self) -> ControlActionView {
        match self {
            ControlAction::StopStrategy { strategy_id } => ControlActionView::StopStrategy {
                strategy_id: strategy_id@,
            },
            ControlAction::ResumeStrategy { strategy_id } => ControlActionView::ResumeStrategy {
                strategy_id: strategy_id@,
            },
            ControlAction::VetoStrategy { strategy_id, expires_at } =>
                ControlActionView::VetoStrategy {
                strategy_id: strategy_id@,
                expires_at: expires_at.nanos,
            },
            ControlAction::Unsupported { command_type } => ControlActionView::Unsupported {
                command_type: *command_type,
            },
        }
    }
}

impl Clone for ControlAction {
    fn clone(&self) -> (copy: Self)
        ensures
            copy@ == self@,
    {
        match self {
            ControlAction::StopStrategy { strategy_id } => ControlAction::StopStrategy {
                strategy_id: strategy_id.clone(),
            },
            ControlAction::ResumeStrategy { strategy_id } => ControlAction::ResumeStrategy {
                strategy_id: strategy_id.clone(),
            },
            ControlAction::VetoStrategy { strategy_id, expires_at } => {
                ControlAction::VetoStrategy {
                    strategy_id: strategy_id.clone(),
                    expires_at: *expires_at,
                }
            },
            ControlAction::Unsupported { command_type } => ControlAction::Unsupported {
                command_type: *command_type,
            },
        }
    }
}

/// The nanoseconds in a millisecond.
pub const NANOS_PER_MILLI: u64 = 1_000_000;

/// The time `ttl_ms` milliseconds after `now`, or the end of time where that is later.
pub open spec fn expiry(now: u64, ttl_ms: u64) -> u64 {
    if now + ttl_ms * NANOS_PER_MILLI <= u64::MAX {
        (now + ttl_ms * NANOS_PER_MILLI) as u64
    } else {
        u64::MAX
    }
}

/// The one action that a command comes to.
pub open spec fn resolution(
    command_type: ControlCommandType,
    target_id: Seq<char>,
    ttl_ms: u64,
    now: u64,
) -> ControlActionView {
    match command_type {
        ControlCommandType::PauseStrategy => ControlActionView::StopStrategy {
            strategy_id: target_id,
        },
        ControlCommandType::ResumeStrategy => ControlActionView::ResumeStrategy {
            strategy_id: target_id,
        },
        ControlCommandType::ThrottleStrategy => ControlActionView::VetoStrategy {
            strategy_id: target_id,
            expires_at: expiry(now, ttl_ms),
        },
        ControlCommandType::RequireHumanApproval => ControlActionView::VetoStrategy {
            strategy_id: target_id,
            expires_at: expiry(now, ttl_ms),
        },
        other => ControlActionView::Unsupported { command_type: other },
    }
}

fn expiry_after(now: u64, ttl_ms: u64) -> (expires_at: u64)
    ensures
        expires_at == expiry(now, ttl_ms),
{
    match ttl_ms.checked_mul(NANOS_PER_MILLI) {
        Some(ttl_nanos) => now.saturating_add(ttl_nanos),
        None => u64::MAX,
    }
}

impl ControlCommand {
    /// Resolves this command to the actions a caller should take; `now` is the time from which
    /// its time to live counts. Pure: no bus access, no I/O.
    #[must_use]
    pub fn resolve(&self, now: UnixNanos) -> (actions: Vec<ControlAction>)
        ensures
            actions@.len() == 1,
            actions@[0]@ == resolution(
                self.command_type,
                self.target_id@,
                self.ttl_ms,
                now.nanos,
            ),
    {
        match self.command_type {
            ControlCommandType::PauseStrategy => {
                let strategy_id = StrategyId::new(self.target_id.as_str());
                vec![ControlAction::StopStrategy { strategy_id }]
            },
            ControlCommandType::ResumeStrategy => {
                let strategy_id = StrategyId::new(self.target_id.as_str());
                vec![ControlAction::ResumeStrategy { strategy_id }]
            },
            ControlCommandType::ThrottleStrategy | ControlCommandType::RequireHumanApproval => {
                let strategy_id = StrategyId::new(self.target_id.as_str());
                let expires_at = UnixNanos { nanos: expiry_after(now.nanos, self.ttl_ms) };
                vec![ControlAction::VetoStrategy { strategy_id, expires_at }]
            },
            other => vec![ControlAction::Unsupported { command_type: other }],
        }
    }
}

/// What an action does to a table of vetoes: a veto is entered, resuming clears the strategy's
/// veto, and the other actions leave the table alone.
pub open spec fn applied(vetoes: Map<Seq<char>, u64>, action: ControlActionView) -> Map<
    Seq<char>,
    u64,
> {
    match action {
        ControlActionView::VetoStrategy { strategy_id, expires_at } => vetoes.insert(
            strategy_id,
            expires_at,
        ),
        ControlActionView::ResumeStrategy { strategy_id } => vetoes.remove(strategy_id),
        _ => vetoes,
    }
}

/// Throttling a strategy, or asking for a human's approval, vetoes it for the command's time to
/// live from `now` on, and no longer.
pub proof fn law_throttling_vetoes_for_the_time_to_live(
    command_type: ControlCommandType,
    target_id: Seq<char>,
    ttl_ms: u64,
    now: u64,
    vetoes: Map<Seq<char>, u64>,
    time: u64,
)
    requires
        command_type == ControlCommandType::ThrottleStrategy || command_type
            == ControlCommandType::RequireHumanApproval,
    ensures
        vetoed(
            applied(vetoes, resolution(command_type, target_id, ttl_ms, now)),
            target_id,
            time,
        ) <==> time < now + ttl_ms * NANOS_PER_MILLI && time < u64::MAX,
{
}

/// A resumed strategy is not vetoed, whatever vetoes came before.
pub proof fn law_resuming_lifts_the_veto(
    target_id: Seq<char>,
    ttl_ms: u64,
    now: u64,
    vetoes: Map<Seq<char>, u64>,
    time: u64,
)
    ensures
        !vetoed(
            applied(
                vetoes,
                resolution(ControlCommandType::ResumeStrategy, target_id, ttl_ms, now),
            ),
            target_id,
            time,
        ),
{
}

/// No command touches the vetoes of a strategy that it does not target.
pub proof fn law_commands_touch_their_target_only(
    command_type: ControlCommandType,
    target_id: Seq<char>,
    ttl_ms: u64,
    now: u64,
    vetoes: Map<Seq<char>, u64>,
    other: Seq<char>,
    time: u64,
)
    requires
        other != target_id,
    ensures
        vetoed(
            applied(vetoes, resolution(command_type, target_id, ttl_ms, now)),
            other,
            time,
        ) == vetoed(vetoes, other, time),
{
}

/// A command that no action stands for yet is answered as unsupported, under its own type,
/// whatever it targets; pausing, resuming, throttling and human approval are supported.
pub proof fn law_only_strategy_commands_are_supported(
    command_type: ControlCommandType,
    target_id: Seq<char>,
    ttl_ms: u64,
    now: u64,
)
    ensures
        (resolution(command_type, target_id, ttl_ms, now) == ControlActionView::Unsupported {
            command_type,
        }) <==> !(command_type == ControlCommandType::PauseStrategy || command_type
            == ControlCommandType::ResumeStrategy || command_type
            == ControlCommandType::ThrottleStrategy || command_type
            == ControlCommandType::RequireHumanApproval),
{
}

/// Pausing stops the strategy that the command targets, and resuming starts that same strategy,
/// whatever the time to live, the severity and everything else the command holds, and whenever it
/// is resolved.
pub proof fn law_pausing_stops_and_resuming_starts_the_target(
    command: ControlCommand,
    now: UnixNanos,
    actions: Vec<ControlAction>,
)
    requires
        call_ensures(ControlCommand::resolve, (&command, now), actions),
    ensures
        actions@.len() == 1,
        command.command_type == ControlCommandType::PauseStrategy <==> actions@[0] is StopStrategy,
        command.command_type == ControlCommandType::ResumeStrategy
            <==> actions@[0] is ResumeStrategy,
        actions@[0] matches ControlAction::StopStrategy { strategy_id } ==> strategy_id@
            == command.target_id@,
        actions@[0] matches ControlAction::ResumeStrategy { strategy_id } ==> strategy_id@
            == command.target_id@,
{
}

/// Throttling and asking for a human's approval, and nothing else, veto the strategy that the
/// command targets. The veto ends the time to live after `now`, a millisecond being a million
/// nanoseconds, or with the last time that can be told, whichever comes first.
pub proof fn law_vetoes_target_and_end_as_commanded(
    command: ControlCommand,
    now: UnixNanos,
    actions: Vec<ControlAction>,
)
    requires
        call_ensures(ControlCommand::resolve, (&command, now), actions),
    ensures
        actions@.len() == 1,
        actions@[0] is VetoStrategy <==> (command.command_type
            == ControlCommandType::ThrottleStrategy || command.command_type
            == ControlCommandType::RequireHumanApproval),
        actions@[0] matches ControlAction::VetoStrategy { strategy_id, expires_at } ==> {
            &&& strategy_id@ == command.target_id@
            &&& now.nanos + command.ttl_ms * 1_000_000 <= u64::MAX ==> expires_at.nanos
                == now.nanos + command.ttl_ms * 1_000_000
            &&& now.nanos + command.ttl_ms * 1_000_000 > u64::MAX ==> expires_at.nanos == u64::MAX
        },
{
}

/// Whatever is not about a strategy's trading is answered as unsupported, under the type that the
/// command has.
pub proof fn law_other_commands_are_answered_by_their_type(
    command: ControlCommand,
    now: UnixNanos,
    actions: Vec<ControlAction>,
)
    requires
        call_ensures(ControlCommand::resolve, (&command, now), actions),
    ensures
        actions@.len() == 1,
        actions@[0] is Unsupported <==> match command.command_type {
            ControlCommandType::PauseStrategy => false,
            ControlCommandType::ResumeStrategy => false,
            ControlCommandType::ThrottleStrategy => false,
            ControlCommandType::RequireHumanApproval => false,
            _ => true,
        },
        actions@[0] matches ControlAction::Unsupported { command_type } ==> command_type
            == command.command_type,
{
}

/// A copied action does the same to the same strategy.
pub proof fn law_copied_actions_do_the_same(action: ControlAction, copy: ControlAction)
    requires
        call_ensures(ControlAction::clone, (&action,), copy),
    ensures
        match action {
            ControlAction::StopStrategy { strategy_id } => copy matches ControlAction::StopStrategy {
                strategy_id: copied,
            } && copied@ == strategy_id@,
            ControlAction::ResumeStrategy { strategy_id } =>
                copy matches ControlAction::ResumeStrategy { strategy_id: copied } && copied@
                == strategy_id@,
            ControlAction::VetoStrategy { strategy_id, expires_at } =>
                copy matches ControlAction::VetoStrategy { strategy_id: copied, expires_at: end }
                && copied@ == strategy_id@ && end == expires_at,
            ControlAction::Unsupported { command_type } =>
                copy matches ControlAction::Unsupported { command_type: copied } && copied
                == command_type,
        },
{
}

} // verus!
