//! Laws of remote control by status messages.

use vstd::prelude::*;

use crate::commands::{
    action_named, command_key, command_outcome, first_command, host_action, host_reply, is_oldest,
    live_commands, permitted_action, with_room, CommandAction, HostAction, HostInfo, HostQuery,
    ServiceAction, DASHBOARD_ISSI, SDS_CMD_DEDUP_MAX, SDS_CMD_REPEAT_WINDOW_SECS,
};
use crate::config::{SdsCommand, SdsCommandControl};
use crate::delivery::d_status;
use crate::entity::{SdsBsView, SdsPendingAction};
use crate::pdu::PreCodedStatus;
use crate::routing::echo_messages;
use crate::time::{elapsed, NANOS_PER_SEC};

verus! {

/// Two commands that differ in radio or status are remembered under different keys.
pub proof fn law_keys_differ(source1: u32, status1: u16, source2: u32, status2: u16)
    ensures
        command_key(source1, status1) == command_key(source2, status2) ==> source1 == source2
            && status1 == status2,
{
}

/// A radio that is not authorised, and a status that is no command, run nothing and are not
/// remembered.
pub proof fn law_not_permitted_does_nothing(
    s: SdsBsView,
    now: u64,
    source: u32,
    status_code: u16,
    next: SdsBsView,
    asked: Option<HostAction>,
)
    requires
        command_outcome(s, now, source, status_code, next, asked),
        s.config.sds_command_control matches Some(control)
            ==> !control.authorized_issis@.contains(source) || first_command(
            control.commands@,
            status_code,
        ) is None,
    ensures
        next == s,
        asked is None,
{
}

/// Every status to the station is acknowledged by its echo, whoever sent it and however often, save
/// the two that would mean something to their sender: Emergency and a short report.
pub proof fn law_status_to_station_is_echoed(s: SdsBsView, source: u32, status: PreCodedStatus)
    ensures
        status is Other ==> echo_messages(s, source, status) == seq![
            d_status(&s.config.state, DASHBOARD_ISSI, source, status),
        ],
        status is Emergency || status is SdsTl ==> echo_messages(s, source, status).len() == 0,
{
}

/// A permitted command that was not seen within the window runs, and is remembered.
pub proof fn law_new_command_runs(
    s: SdsBsView,
    now: u64,
    source: u32,
    status_code: u16,
    action: CommandAction,
    next: SdsBsView,
    asked: Option<HostAction>,
)
    requires
        command_outcome(s, now, source, status_code, next, asked),
        permitted_action(s.config.sds_command_control, source, status_code) == Some(action),
        !live_commands(s.recent_commands, now).contains_key(command_key(source, status_code)),
    ensures
        asked == host_action(action, source),
        next.pending_actions == s.performed(action).pending_actions,
        next.recent_commands.contains_key(command_key(source, status_code)),
        next.recent_commands[command_key(source, status_code)] == now,
{
}

/// A command seen again within the window runs nothing, and the window starts anew. No other command
/// that was seen within the window is forgotten for it.
pub proof fn law_repetition_runs_nothing(
    s: SdsBsView,
    now: u64,
    source: u32,
    status_code: u16,
    next: SdsBsView,
    asked: Option<HostAction>,
)
    requires
        command_outcome(s, now, source, status_code, next, asked),
        permitted_action(s.config.sds_command_control, source, status_code) is Some,
        live_commands(s.recent_commands, now).contains_key(command_key(source, status_code)),
    ensures
        asked is None,
        next.pending_actions == s.pending_actions,
        next.recent_commands == live_commands(s.recent_commands, now).insert(
            command_key(source, status_code),
            now,
        ),
{
}

/// True when commands arrive one after the other: the `j`th at `times[j]`, from the radio and with
/// the status in `commands[j]`, in the state `before[j]`, with the outcome `after[j]` and `asked[j]`.
/// In between anything may happen that leaves the memory of commands alone.
pub open spec fn command_trace(
    before: Seq<SdsBsView>,
    after: Seq<SdsBsView>,
    times: Seq<u64>,
    commands: Seq<(u32, u16)>,
    asked: Seq<Option<HostAction>>,
) -> bool {
    &&& before.len() == times.len()
    &&& after.len() == times.len()
    &&& commands.len() == times.len()
    &&& asked.len() == times.len()
    &&& forall|j: int|
        0 <= j < times.len() ==> #[trigger] command_outcome(
            before[j],
            times[j],
            commands[j].0,
            commands[j].1,
            after[j],
            asked[j],
        )
    &&& forall|j: int|
        0 <= j < times.len() - 1 ==> before[j + 1].recent_commands == (
        #[trigger] after[j]).recent_commands
    &&& forall|i: int, j: int| 0 <= i <= j < times.len() ==> times[i] <= times[j]
}

/// True when a status of `source` pushes the command of `key` out of the memory, or may do so: it is
/// a command, it is new, the memory is full and the command of `key` is among the oldest in it.
pub open spec fn crowds_out(
    s: SdsBsView,
    now: u64,
    source: u32,
    status_code: u16,
    key: u64,
) -> bool {
    let live = live_commands(s.recent_commands, now);
    &&& permitted_action(s.config.sds_command_control, source, status_code) is Some
    &&& !live.contains_key(command_key(source, status_code))
    &&& live.len() >= SDS_CMD_DEDUP_MAX
    &&& is_oldest(live, key)
}

/// A copy of a command less than a window after an earlier copy runs nothing, whatever other
/// commands came in between, save a new one that pushed it out of a full memory. So a campaign of
/// repetitions runs once, however long it lasts.
pub proof fn law_campaign_runs_once(
    before: Seq<SdsBsView>,
    after: Seq<SdsBsView>,
    times: Seq<u64>,
    commands: Seq<(u32, u16)>,
    asked: Seq<Option<HostAction>>,
    first: int,
    copy: int,
)
    requires
        command_trace(before, after, times, commands, asked),
        0 <= first < copy < times.len(),
        commands[copy] == commands[first],
        permitted_action(
            before[first].config.sds_command_control,
            commands[first].0,
            commands[first].1,
        ) is Some,
        elapsed(times[copy], times[first]) < SDS_CMD_REPEAT_WINDOW_SECS * NANOS_PER_SEC,
        forall|j: int|
            first < j < copy ==> !crowds_out(
                #[trigger] before[j],
                times[j],
                commands[j].0,
                commands[j].1,
                command_key(commands[first].0, commands[first].1),
            ),
    ensures
        asked[copy] is None,
        after[copy].pending_actions == before[copy].pending_actions,
{
    lemma_stays_remembered(before, after, times, commands, asked, first, copy, copy);
    assert(command_outcome(
        before[copy],
        times[copy],
        commands[copy].0,
        commands[copy].1,
        after[copy],
        asked[copy],
    ));
}

proof fn lemma_stays_remembered(
    before: Seq<SdsBsView>,
    after: Seq<SdsBsView>,
    times: Seq<u64>,
    commands: Seq<(u32, u16)>,
    asked: Seq<Option<HostAction>>,
    first: int,
    copy: int,
    j: int,
)
    requires
        command_trace(before, after, times, commands, asked),
        0 <= first < j <= copy < times.len(),
        permitted_action(
            before[first].config.sds_command_control,
            commands[first].0,
            commands[first].1,
        ) is Some,
        elapsed(times[copy], times[first]) < SDS_CMD_REPEAT_WINDOW_SECS * NANOS_PER_SEC,
        forall|k: int|
            first < k < copy ==> !crowds_out(
                #[trigger] before[k],
                times[k],
                commands[k].0,
                commands[k].1,
                command_key(commands[first].0, commands[first].1),
            ),
    ensures
        ({
            let key = command_key(commands[first].0, commands[first].1);
            let recent = before[j].recent_commands;
            &&& recent.contains_key(key)
            &&& recent[key] >= times[first]
            &&& live_commands(recent, times[j]).contains_key(key)
        }),
    decreases j,
{
    let i = j - 1;
    if i > first {
        lemma_stays_remembered(before, after, times, commands, asked, first, copy, i);
        assert(!crowds_out(
            before[i],
            times[i],
            commands[i].0,
            commands[i].1,
            command_key(commands[first].0, commands[first].1),
        ));
    }
    assert(command_outcome(
        before[i],
        times[i],
        commands[i].0,
        commands[i].1,
        after[i],
        asked[i],
    ));
    assert(before[i + 1].recent_commands == after[i].recent_commands);
    assert(times[first] <= times[i] && times[i] <= times[j] && times[j] <= times[copy]);
}

/// The memory of commands never outgrows its bound.
pub proof fn law_memory_is_bounded(
    s: SdsBsView,
    now: u64,
    source: u32,
    status_code: u16,
    next: SdsBsView,
    asked: Option<HostAction>,
)
    requires
        command_outcome(s, now, source, status_code, next, asked),
        s.recent_commands.dom().finite(),
        s.recent_commands.len() <= SDS_CMD_DEDUP_MAX,
    ensures
        next.recent_commands.dom().finite(),
        next.recent_commands.len() <= SDS_CMD_DEDUP_MAX,
{
    if permitted_action(s.config.sds_command_control, source, status_code) is Some {
        let live = live_commands(s.recent_commands, now);
        assert(live.dom().subset_of(s.recent_commands.dom()));
        vstd::set_lib::lemma_len_subset(live.dom(), s.recent_commands.dom());
    }
}

/// What was last seen a window or more ago is forgotten.
pub proof fn law_old_commands_are_forgotten(
    s: SdsBsView,
    now: u64,
    source: u32,
    status_code: u16,
    next: SdsBsView,
    asked: Option<HostAction>,
    key: u64,
)
    requires
        command_outcome(s, now, source, status_code, next, asked),
        permitted_action(s.config.sds_command_control, source, status_code) is Some,
        key != command_key(source, status_code),
        s.recent_commands.contains_key(key),
        elapsed(now, s.recent_commands[key]) >= SDS_CMD_REPEAT_WINDOW_SECS * NANOS_PER_SEC,
    ensures
        !next.recent_commands.contains_key(key),
{
}

/// Each action has its name, and what has none of these names is no action.
pub proof fn law_actions_by_name(name: Seq<char>)
    ensures
        action_named("restart"@) == CommandAction::Restart,
        action_named("shutdown"@) == CommandAction::Shutdown,
        action_named("kick_all"@) == CommandAction::KickAll,
        action_named("ip"@) == CommandAction::Query(HostQuery::Ip),
        action_named("temp"@) == CommandAction::Query(HostQuery::Temp),
        action_named("info"@) == CommandAction::Query(HostQuery::Info),
        action_named(name) is Unknown <==> name != "restart"@ && name != "shutdown"@ && name
            != "kick_all"@ && name != "ip"@ && name != "temp"@ && name != "info"@,
{
    reveal_strlit("restart");
    reveal_strlit("shutdown");
    reveal_strlit("kick_all");
    reveal_strlit("ip");
    reveal_strlit("temp");
    reveal_strlit("info");
    assert("restart"@.len() == 7 && "ip"@.len() == 2);
    assert("shutdown"@.len() == 8 && "kick_all"@.len() == 8);
    assert("temp"@.len() == 4 && "info"@.len() == 4);
    assert("shutdown"@[0] != "kick_all"@[0]);
    assert("temp"@[0] == 't' && "info"@[0] == 'i');
}

/// Restart and shutdown ask the host for the service action of their name, half a second later, a
/// query asks it to answer the radio that sent it, and nothing else asks the host for anything.
pub proof fn law_what_the_host_is_asked(action: CommandAction, source: u32)
    ensures
        match action {
            CommandAction::Restart => host_action(action, source) == Some(
                HostAction::Service { action: ServiceAction::Restart, delay_ms: 500 },
            ),
            CommandAction::Shutdown => host_action(action, source) == Some(
                HostAction::Service { action: ServiceAction::Stop, delay_ms: 500 },
            ),
            CommandAction::Query(query) => host_action(action, source) == Some(
                HostAction::Query { requester_issi: source, query },
            ),
            _ => host_action(action, source) is None,
        },
{
}

/// The command of a status is the first one with that status, and there is none where no command has
/// it.
pub proof fn law_first_command_counts(commands: Seq<SdsCommand>, status_code: u16)
    ensures
        match first_command(commands, status_code) {
            Some(command) => exists|i: int|
                #![trigger commands[i]]
                {
                    &&& 0 <= i < commands.len()
                    &&& commands[i] == command
                    &&& command.status_code == status_code
                    &&& forall|j: int|
                        0 <= j < i ==> (#[trigger] commands[j]).status_code != status_code
                },
            None => forall|i: int|
                0 <= i < commands.len() ==> (#[trigger] commands[i]).status_code != status_code,
        },
    decreases commands.len(),
{
    if commands.len() > 0 {
        if commands[0].status_code == status_code {
            assert(commands[0] == commands.first());
        } else {
            let rest = commands.drop_first();
            law_first_command_counts(rest, status_code);
            assert forall|i: int| 0 <= i < rest.len() implies rest[i] == #[trigger] commands[i
                + 1] by {}
            match first_command(commands, status_code) {
                Some(command) => {
                    let i = choose|i: int|
                        #![trigger rest[i]]
                        {
                            &&& 0 <= i < rest.len()
                            &&& rest[i] == command
                            &&& command.status_code == status_code
                            &&& forall|j: int|
                                0 <= j < i ==> (#[trigger] rest[j]).status_code != status_code
                        };
                    assert(commands[i + 1] == command);
                    assert forall|j: int| 0 <= j < i + 1 implies (
                    #[trigger] commands[j]).status_code != status_code by {
                        if j > 0 {
                            assert(rest[j - 1].status_code != status_code);
                        }
                    }
                },
                None => {
                    assert forall|i: int| 0 <= i < commands.len() implies (
                    #[trigger] commands[i]).status_code != status_code by {
                        if i > 0 {
                            assert(rest[i - 1].status_code != status_code);
                        }
                    }
                },
            }
        }
    }
}

/// A radio may run a command exactly when remote control is configured, the radio is authorised and
/// some command has the status; it then runs the action that the first such command names.
pub proof fn law_who_may_run_what(
    control: Option<SdsCommandControl>,
    source: u32,
    status_code: u16,
)
    ensures
        control is None ==> permitted_action(control, source, status_code) is None,
        control is Some && !control->0.authorized_issis@.contains(source) ==> permitted_action(
            control,
            source,
            status_code,
        ) is None,
        control is Some && control->0.authorized_issis@.contains(source) ==> {
            let command = first_command(control->0.commands@, status_code);
            &&& permitted_action(control, source, status_code) is Some <==> command is Some
            &&& command is Some ==> permitted_action(control, source, status_code)->0
                == action_named(command->0.action@)
        },
{
}

/// A command counts as seen for thirty seconds after it was last seen, and no longer.
pub proof fn law_commands_live_for_a_window(recent: Map<u64, u64>, now: u64, key: u64)
    ensures
        live_commands(recent, now).contains_key(key) <==> recent.contains_key(key) && now
            < recent[key] + 30_000_000_000,
        live_commands(recent, now).contains_key(key) ==> live_commands(recent, now)[key]
            == recent[key],
{
}

/// Room is made only in a memory of 64 commands or more, by forgetting one that no other was last
/// seen before; every other command stays as it was.
pub proof fn law_room_is_made_at_the_oldest(m: Map<u64, u64>, kept: Map<u64, u64>)
    requires
        with_room(m, kept),
    ensures
        m.len() < 64 ==> kept == m,
        m.len() >= 64 ==> exists|gone: u64|
            #![trigger m[gone]]
            {
                &&& m.contains_key(gone) && !kept.contains_key(gone)
                &&& forall|k: u64| #[trigger] m.contains_key(k) ==> m[gone] <= m[k]
                &&& forall|k: u64|
                    #![trigger kept.contains_key(k)]
                    k != gone ==> (kept.contains_key(k) <==> m.contains_key(k))
                &&& forall|k: u64| #[trigger] kept.contains_key(k) ==> kept[k] == m[k]
            },
{
    if m.len() >= 64 {
        let gone = choose|k: u64| #[trigger] is_oldest(m, k) && kept == m.remove(k);
        let t = m[gone];
        assert(m.contains_key(gone) && !kept.contains_key(gone));
    }
}

/// True when `after` differs from `before` at most in the memory of commands and in the queued
/// actions.
pub open spec fn same_but_commands(before: SdsBsView, after: SdsBsView) -> bool {
    &&& after.config == before.config
    &&& after.telemetry == before.telemetry
    &&& after.pending_sds == before.pending_sds
    &&& after.wx_cmd_tx == before.wx_cmd_tx
    &&& after.last_periodic_wx == before.last_periodic_wx
    &&& after.emergency_sessions == before.emergency_sessions
}

/// A status to the station changes nothing but the memory of commands and the queued actions. One
/// that is permitted and was not seen in the last thirty seconds runs: the host is asked for what its
/// action needs, and kick_all, and only kick_all, is queued once. One that was seen runs nothing. Both
/// are remembered as seen now.
pub proof fn law_command_runs_when_new(
    s: SdsBsView,
    now: u64,
    source: u32,
    status_code: u16,
    next: SdsBsView,
    asked: Option<HostAction>,
    other: u64,
)
    requires
        command_outcome(s, now, source, status_code, next, asked),
    ensures
        ({
            let action = permitted_action(s.config.sds_command_control, source, status_code);
            let key = command_key(source, status_code);
            let seen = s.recent_commands.contains_key(key) && now < s.recent_commands[key]
                + 30_000_000_000;
            &&& same_but_commands(s, next)
            &&& action is None ==> next.recent_commands == s.recent_commands
            &&& action is None || seen ==> next.pending_actions == s.pending_actions && asked is None
            &&& action is Some && !seen ==> asked == host_action(action->0, source)
            &&& action is Some && !seen && action->0 is KickAll ==> next.pending_actions
                == s.pending_actions.push(SdsPendingAction::KickAll)
            &&& action is Some && !seen && !(action->0 is KickAll) ==> next.pending_actions
                == s.pending_actions
            &&& action is Some ==> next.recent_commands.contains_key(key)
                && next.recent_commands[key] == now
            &&& action is Some && other != key && next.recent_commands.contains_key(other) ==> {
                &&& s.recent_commands.contains_key(other)
                &&& next.recent_commands[other] == s.recent_commands[other]
                &&& now < s.recent_commands[other] + 30_000_000_000
            }
            &&& action is Some && seen && s.recent_commands.contains_key(other) && now
                < s.recent_commands[other] + 30_000_000_000 ==> next.recent_commands.contains_key(
                other,
            )
        }),
{
    law_commands_live_for_a_window(s.recent_commands, now, command_key(source, status_code));
    law_commands_live_for_a_window(s.recent_commands, now, other);
}

/// A new command makes room only in a full memory: while fewer than 64 commands are live every one of
/// them stays.
pub proof fn law_new_command_keeps_the_others(
    s: SdsBsView,
    now: u64,
    source: u32,
    status_code: u16,
    next: SdsBsView,
    asked: Option<HostAction>,
    other: u64,
)
    requires
        command_outcome(s, now, source, status_code, next, asked),
        live_commands(s.recent_commands, now).len() < 64,
        s.recent_commands.contains_key(other),
        now < s.recent_commands[other] + 30_000_000_000,
    ensures
        next.recent_commands.contains_key(other),
{
    law_commands_live_for_a_window(s.recent_commands, now, other);
}

/// Remembering a command puts it beside the given ones, as seen now, and changes nothing else; an
/// action queues kick_all, and nothing else.
pub proof fn law_remembering_and_queueing(
    s: SdsBsView,
    kept: Map<u64, u64>,
    key: u64,
    now: u64,
    action: CommandAction,
)
    ensures
        s.remembered(kept, key, now).recent_commands == kept.insert(key, now),
        s.remembered(kept, key, now).pending_actions == s.pending_actions,
        same_but_commands(s, s.remembered(kept, key, now)),
        s.performed(action).recent_commands == s.recent_commands,
        action is KickAll ==> s.performed(action).pending_actions == s.pending_actions.push(
            SdsPendingAction::KickAll,
        ),
        !(action is KickAll) ==> s.performed(action).pending_actions == s.pending_actions,
        same_but_commands(s, s.performed(action)),
{
}

/// An answer gives what was asked for, and "n/a" for what the host does not know.
pub proof fn law_host_is_answered_for(query: HostQuery, host: HostInfo)
    ensures
        ({
            let ip = if host.ip is Some {
                host.ip->0@
            } else {
                "n/a"@
            };
            match query {
                HostQuery::Ip => host_reply(query, host) == "Host IP: "@ + ip,
                HostQuery::Temp => host_reply(query, host) == "Host temp: "@ + if host.temp is Some {
                    host.temp->0@ + " C"@
                } else {
                    "n/a"@
                },
                HostQuery::Info => host_reply(query, host) == "FlowStation v"@ + host.version@
                    + " | IP "@ + ip + " | "@ + if host.temp is Some {
                    host.temp->0@ + "C"@
                } else {
                    "n/a"@
                },
            }
        }),
{
}

} // verus!
