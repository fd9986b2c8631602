//! Remote control of the station by status messages.
//!
//! An authorised radio sends a configured status to the station itself. A terminal whose
//! transaction does not complete repeats the same status every few seconds, so a repetition within
//! [`SDS_CMD_REPEAT_WINDOW_SECS`] of the last one is the same request and runs nothing. The window
//! starts anew with every repetition.

use std::collections::HashMap;

use vstd::prelude::*;
use vstd::string::*;

use crate::config::{SdsCommand, SdsCommandControl};
use crate::delivery::d_sds_data;
use crate::entity::{SdsBsSubentity, SdsBsView, SdsPendingAction};
use crate::pdu::{PreCodedStatus, SdsUserData, SdsUserDataView, SsiType};
use crate::sap::MessageQueue;
use crate::sds_tl::{
    frame_text, next_reference, reference_after, reference_at, text_frame, MessageReferences,
};
use crate::text::{keep_text_octets, text_octets};
use crate::time::{elapsed, since, NANOS_PER_SEC};

verus! {

broadcast use vstd::std_specs::hash::group_hash_axioms;

/// Repetitions of a command within this time are one request.
pub const SDS_CMD_REPEAT_WINDOW_SECS: u64 = 30;

/// Greatest number of commands that are remembered.
pub const SDS_CMD_DEDUP_MAX: usize = 64;

/// ISSI of the station itself: the dashboard sends under it, and commands are sent to it.
pub const DASHBOARD_ISSI: u32 = 9999;

/// Time between a command and the service action it triggers.
pub const SERVICE_ACTION_DELAY_MS: u64 = 500;

/// Greatest number of text octets in an SDS-TL text message.
pub const MAX_TEXT_OCTETS: usize = 251;

/// What is asked of the host in a query.
#[derive(Debug, Clone, Copy, PartialEq, Eq, Structural)]
pub enum HostQuery {
    Ip,
    Temp,
    Info,
}

/// What a command does.
#[derive(Debug, Clone, Copy, PartialEq, Eq, Structural)]
pub enum CommandAction {
    Restart,
    Shutdown,
    KickAll,
    Query(HostQuery),
    /// No action has this name.
    Unknown,
}

/// What is asked of the service manager.
#[derive(Debug, Clone, Copy, PartialEq, Eq, Structural)]
pub enum ServiceAction {
    Restart,
    Stop,
}

/// Something that the host is to do.
#[derive(Debug, Clone, Copy, PartialEq, Eq, Structural)]
pub enum HostAction {
    /// Run a service action after a delay.
    Service { action: ServiceAction, delay_ms: u64 },
    /// Look up what is asked for and answer `requester_issi`.
    Query { requester_issi: u32, query: HostQuery },
}

/// What the host knows about itself.
#[derive(Debug, PartialEq, Eq)]
pub struct HostInfo {
    pub ip: Option<String>,
    /// CPU temperature in degrees Celsius, one decimal.
    pub temp: Option<String>,
    pub version: String,
}

/// The action with a given name.
pub open spec fn action_named(name: Seq<char>) -> CommandAction {
    if name == "restart"@ {
        CommandAction::Restart
    } else if name == "shutdown"@ {
        CommandAction::Shutdown
    } else if name == "kick_all"@ {
        CommandAction::KickAll
    } else if name == "ip"@ {
        CommandAction::Query(HostQuery::Ip)
    } else if name == "temp"@ {
        CommandAction::Query(HostQuery::Temp)
    } else if name == "info"@ {
        CommandAction::Query(HostQuery::Info)
    } else {
        CommandAction::Unknown
    }
}

/// What an action asks of the host.
pub open spec fn host_action(action: CommandAction, source_ssi: u32) -> Option<HostAction> {
    match action {
        CommandAction::Restart => Some(
            HostAction::Service {
                action: ServiceAction::Restart,
                delay_ms: SERVICE_ACTION_DELAY_MS,
            },
        ),
        CommandAction::Shutdown => Some(
            HostAction::Service { action: ServiceAction::Stop, delay_ms: SERVICE_ACTION_DELAY_MS },
        ),
        CommandAction::Query(query) => Some(
            HostAction::Query { requester_issi: source_ssi, query },
        ),
        CommandAction::KickAll | CommandAction::Unknown => None,
    }
}

/// The first of `commands` with the status `status_code`.
pub open spec fn first_command(commands: Seq<SdsCommand>, status_code: u16) -> Option<SdsCommand>
    decreases commands.len(),
{
    if commands.len() == 0 {
        None
    } else if commands.first().status_code == status_code {
        Some(commands.first())
    } else {
        first_command(commands.drop_first(), status_code)
    }
}

/// The action that `source_ssi` may trigger with `status_code`; `None` where remote control is not
/// configured, the radio is not authorised or the status is no command.
pub open spec fn permitted_action(
    control: Option<SdsCommandControl>,
    source_ssi: u32,
    status_code: u16,
) -> Option<CommandAction> {
    match control {
        Some(control) => if control.authorized_issis@.contains(source_ssi) {
            match first_command(control.commands@, status_code) {
                Some(command) => Some(action_named(command.action@)),
                None => None,
            }
        } else {
            None
        },
        None => None,
    }
}

/// The key under which a command is remembered.
pub open spec fn command_key(source_ssi: u32, status_code: u16) -> u64 {
    (source_ssi * 65536 + status_code) as u64
}

/// The commands seen less than a window ago.
pub open spec fn live_commands(recent: Map<u64, u64>, now: u64) -> Map<u64, u64> {
    recent.restrict(
        Set::new(
            |k: u64|
                recent.contains_key(k) && elapsed(now, recent[k]) < SDS_CMD_REPEAT_WINDOW_SECS
                    * NANOS_PER_SEC,
        ),
    )
}

/// True when no command in `m` was last seen before the one under `k`.
pub open spec fn is_oldest(m: Map<u64, u64>, k: u64) -> bool {
    m.contains_key(k) && forall|other: u64| #[trigger] m.contains_key(other) ==> m[k] <= m[other]
}

/// True when `kept` is what is left of `m` once there is room for one more: all of it, or all but
/// one of the oldest where `m` is full. Which of several equally old ones goes is left open.
pub open spec fn with_room(m: Map<u64, u64>, kept: Map<u64, u64>) -> bool {
    if m.len() >= SDS_CMD_DEDUP_MAX {
        exists|k: u64| #[trigger] is_oldest(m, k) && kept == m.remove(k)
    } else {
        kept == m
    }
}

impl SdsBsView {
    /// Afterwards the command is remembered as seen at `now`, beside those in `kept`.
    pub open spec fn remembered(self, kept: Map<u64, u64>, key: u64, now: u64) -> Self {
        SdsBsView { recent_commands: kept.insert(key, now), ..self }
    }

    /// Afterwards the part of `action` that is queued here is queued.
    pub open spec fn performed(self, action: CommandAction) -> Self {
        if action is KickAll {
            SdsBsView {
                pending_actions: self.pending_actions.push(SdsPendingAction::KickAll),
                ..self
            }
        } else {
            self
        }
    }
}

/// True when `next` and `asked` are an outcome of the status `status_code` sent to the station by
/// `source_ssi`: nothing where it is no permitted command; else the command is remembered as seen at
/// `now`, and its action runs unless the command was seen less than a window ago. Another command is
/// forgotten only to make room for a new one.
pub open spec fn command_outcome(
    s: SdsBsView,
    now: u64,
    source_ssi: u32,
    status_code: u16,
    next: SdsBsView,
    asked: Option<HostAction>,
) -> bool {
    match permitted_action(s.config.sds_command_control, source_ssi, status_code) {
        None => next == s && asked is None,
        Some(action) => {
            let key = command_key(source_ssi, status_code);
            let live = live_commands(s.recent_commands, now);
            if live.contains_key(key) {
                next == s.remembered(live, key, now) && asked is None
            } else {
                &&& asked == host_action(action, source_ssi)
                &&& exists|kept: Map<u64, u64>|
                    with_room(live, kept) && next == (#[trigger] s.remembered(
                        kept,
                        key,
                        now,
                    )).performed(action)
            }
        },
    }
}

/// The answer to a query.
pub open spec fn host_reply(query: HostQuery, host: HostInfo) -> Seq<char> {
    let ip = match host.ip {
        Some(ip) => ip@,
        None => "n/a"@,
    };
    match query {
        HostQuery::Ip => "Host IP: "@ + ip,
        HostQuery::Temp => "Host temp: "@ + match host.temp {
            Some(temp) => temp@ + " C"@,
            None => "n/a"@,
        },
        HostQuery::Info => "FlowStation v"@ + host.version@ + " | IP "@ + ip + " | "@
            + match host.temp {
            Some(temp) => temp@ + "C"@,
            None => "n/a"@,
        },
    }
}

/// True when a text message can hold the text octets of `text`.
pub open spec fn text_fits(text: Seq<char>) -> bool {
    text_octets(vstd::utf8::encode_utf8(text)).len() <= MAX_TEXT_OCTETS
}

/// The user data of a text message.
pub open spec fn text_data(reference: u8, text: Seq<u8>) -> SdsUserDataView {
    SdsUserDataView::Type4(
        (8 * text_frame(reference, text).len()) as u16,
        text_frame(reference, text),
    )
}

/// The action with the name `name`.
pub fn parse_action(name: &String) -> (r: CommandAction)
    ensures
        r == action_named(name@),
{
    if *name == "restart".to_owned() {
        CommandAction::Restart
    } else if *name == "shutdown".to_owned() {
        CommandAction::Shutdown
    } else if *name == "kick_all".to_owned() {
        CommandAction::KickAll
    } else if *name == "ip".to_owned() {
        CommandAction::Query(HostQuery::Ip)
    } else if *name == "temp".to_owned() {
        CommandAction::Query(HostQuery::Temp)
    } else if *name == "info".to_owned() {
        CommandAction::Query(HostQuery::Info)
    } else {
        CommandAction::Unknown
    }
}

impl SdsCommandControl {
    /// The action that `source_ssi` may trigger with `status_code`.
    pub fn action_for(&self, source_ssi: u32, status_code: u16) -> (r: Option<CommandAction>)
        ensures
            r == permitted_action(Some(*self), source_ssi, status_code),
    {
        let mut authorized: bool = false;
        let mut i: usize = 0;
        while i < self.authorized_issis.len()
            invariant
                i <= self.authorized_issis@.len(),
                authorized == self.authorized_issis@.take(i as int).contains(source_ssi),
            decreases self.authorized_issis@.len() - i,
        {
            proof {
                let seen = self.authorized_issis@.take(i as int);
                assert(self.authorized_issis@.take(i + 1) =~= seen.push(
                    self.authorized_issis@[i as int],
                ));
                broadcast use vstd::seq_lib::group_seq_properties;

            }
            if self.authorized_issis[i] == source_ssi {
                authorized = true;
            }
            i = i + 1;
        }
        assert(self.authorized_issis@.take(i as int) =~= self.authorized_issis@);
        if !authorized {
            return None;
        }
        let mut j: usize = 0;
        assert(self.commands@.skip(0) =~= self.commands@);
        while j < self.commands.len()
            invariant
                j <= self.commands@.len(),
                self.authorized_issis@.contains(source_ssi),
                first_command(self.commands@, status_code) == first_command(
                    self.commands@.skip(j as int),
                    status_code,
                ),
            decreases self.commands@.len() - j,
        {
            assert(self.commands@.skip(j as int).drop_first() =~= self.commands@.skip(j + 1));
            if self.commands[j].status_code == status_code {
                return Some(parse_action(&self.commands[j].action));
            }
            j = j + 1;
        }
        None
    }
}

fn recent_keys(recent: &HashMap<u64, u64>) -> (r: Vec<u64>)
    ensures
        r@.no_duplicates(),
        r@.to_set() == recent@.dom(),
{
    let mut all: Vec<u64> = Vec::new();
    for key in it: recent.keys()
        invariant
            it.seq().unref().to_set() == recent@.dom(),
            it.seq().no_duplicates(),
            all@ == it.seq().unref().take(it.index()),
            it.index() == it.seq().len() ==> all@ == it.seq().unref(),
    {
        all.push(*key);
        assert(it.seq().unref().take(it.index() + 1) =~= it.seq().unref().take(it.index()).push(
            *key,
        ));
    }
    all
}

/// The commands seen less than a window ago, and one of the oldest of them.
fn prune(recent: &HashMap<u64, u64>, now: u64) -> (r: (HashMap<u64, u64>, Option<u64>))
    ensures
        r.0@ == live_commands(recent@, now),
        match r.1 {
            Some(k) => is_oldest(r.0@, k),
            None => r.0@ == Map::<u64, u64>::empty(),
        },
{
    let all = recent_keys(recent);
    let ghost live = live_commands(recent@, now);
    let mut kept: HashMap<u64, u64> = HashMap::new();
    let mut oldest: Option<(u64, u64)> = None;
    let mut i: usize = 0;
    while i < all.len()
        invariant
            i <= all@.len(),
            all@.to_set() == recent@.dom(),
            live == live_commands(recent@, now),
            forall|k: u64| #[trigger]
                kept@.contains_key(k) <==> live.contains_key(k) && all@.take(i as int).contains(k),
            forall|k: u64| #[trigger] kept@.contains_key(k) ==> kept@[k] == recent@[k],
            match oldest {
                Some((k, last)) => is_oldest(kept@, k) && kept@[k] == last,
                None => kept@ == Map::<u64, u64>::empty(),
            },
        decreases all@.len() - i,
    {
        let key: u64 = all[i];
        proof {
            broadcast use vstd::seq_lib::group_seq_properties;

            assert(all@.to_set().contains(key));
            assert(all@.take(i + 1) =~= all@.take(i as int).push(key));
        }
        match recent.get(&key) {
            Some(last) => {
                if since(now, *last) < SDS_CMD_REPEAT_WINDOW_SECS * NANOS_PER_SEC {
                    kept.insert(key, *last);
                    oldest = match oldest {
                        Some((k, seen)) => if seen <= *last && k != key {
                            Some((k, seen))
                        } else {
                            Some((key, *last))
                        },
                        None => Some((key, *last)),
                    };
                }
            },
            None => {},
        }
        i = i + 1;
    }
    assert(all@.take(i as int) =~= all@);
    assert(kept@ =~= live) by {
        assert forall|k: u64| live.contains_key(k) implies kept@.contains_key(k) by {
            assert(all@.to_set().contains(k));
        }
    }
    (
        kept,
        match oldest {
            Some((k, _)) => Some(k),
            None => None,
        },
    )
}

impl SdsBsSubentity {
    /// True when the command is a new request, not a repetition of one seen within the window.
    /// Either way it is remembered as seen now. Where the memory is full, one of the oldest makes room
    /// for a new command.
    pub fn sds_command_is_new(&mut self, now: u64, source_ssi: u32, status_code: u16) -> (r: bool)
        ensures
            ({
                let key = command_key(source_ssi, status_code);
                let live = live_commands(old(self)@.recent_commands, now);
                &&& r == !live.contains_key(key)
                &&& if live.contains_key(key) {
                    final(self)@ == old(self)@.remembered(live, key, now)
                } else {
                    exists|kept: Map<u64, u64>|
                        with_room(live, kept) && final(self)@ == #[trigger] old(self)@.remembered(
                            kept,
                            key,
                            now,
                        )
                }
            }),
    {
        let (mut kept, oldest) = prune(&self.recent_commands, now);
        let ghost live = kept@;
        let key: u64 = source_ssi as u64 * 65536 + status_code as u64;
        let known: bool = kept.contains_key(&key);
        if !known && kept.len() >= SDS_CMD_DEDUP_MAX {
            match oldest {
                Some(k) => {
                    kept.remove(&k);
                },
                None => {},
            }
        }
        assert(!known ==> with_room(live, kept@));
        let ghost room = kept@;
        kept.insert(key, now);
        self.recent_commands = kept;
        assert(self@ == old(self)@.remembered(room, command_key(source_ssi, status_code), now));
        !known
    }

    /// Handles a status sent to the station: runs the command it stands for, if it is permitted and
    /// new, and says what the host is to do for it.
    pub fn handle_sds_command_status(
        &mut self,
        now: u64,
        source_ssi: u32,
        status: PreCodedStatus,
    ) -> (r: Option<HostAction>)
        ensures
            command_outcome(old(self)@, now, source_ssi, status.raw(), final(self)@, r),
    {
        let status_code: u16 = status.into_raw();
        let permitted: Option<CommandAction> = match &self.config.sds_command_control {
            Some(control) => control.action_for(source_ssi, status_code),
            None => None,
        };
        let action: CommandAction = match permitted {
            Some(action) => action,
            None => return None,
        };
        if !self.sds_command_is_new(now, source_ssi, status_code) {
            return None;
        }
        match action {
            CommandAction::Restart => Some(
                HostAction::Service {
                    action: ServiceAction::Restart,
                    delay_ms: SERVICE_ACTION_DELAY_MS,
                },
            ),
            CommandAction::Shutdown => Some(
                HostAction::Service {
                    action: ServiceAction::Stop,
                    delay_ms: SERVICE_ACTION_DELAY_MS,
                },
            ),
            CommandAction::KickAll => {
                self.pending_actions.push(SdsPendingAction::KickAll);
                None
            },
            CommandAction::Query(query) => Some(
                HostAction::Query { requester_issi: source_ssi, query },
            ),
            CommandAction::Unknown => None,
        }
    }

    /// Sends a text message on the main control channel to a radio that is known to listen there.
    pub fn send_text_sds(
        &self,
        queue: &mut MessageQueue,
        references: &mut MessageReferences,
        source_issi: u32,
        dest_issi: u32,
        text: &str,
    )
        requires
            text_fits(text@),
        ensures
            *final(references) == (MessageReferences {
                text: reference_after(old(references).text),
                ..*old(references)
            }),
            final(queue)@ == old(queue)@.push(
                d_sds_data(
                    &self@.config.state,
                    source_issi,
                    dest_issi,
                    SsiType::Issi,
                    text_data(
                        reference_at(old(references).text),
                        text_octets(vstd::utf8::encode_utf8(text@)),
                    ),
                    true,
                ),
            ),
    {
        let reference: u8 = next_reference(&mut references.text);
        let octets = keep_text_octets(text.as_bytes());
        let payload = frame_text(reference, octets.as_slice());
        let len_bits: u16 = (payload.len() * 8) as u16;
        self.deliver_d_sds_data_now(
            queue,
            source_issi,
            dest_issi,
            SsiType::Issi,
            SdsUserData::Type4(len_bits, payload),
            true,
        );
    }

    /// Answers the query of a radio.
    pub fn answer_host_query(
        &self,
        queue: &mut MessageQueue,
        references: &mut MessageReferences,
        requester_issi: u32,
        query: HostQuery,
        host: &HostInfo,
    )
        requires
            text_fits(host_reply(query, *host)),
        ensures
            *final(references) == (MessageReferences {
                text: reference_after(old(references).text),
                ..*old(references)
            }),
            final(queue)@ == old(queue)@.push(
                d_sds_data(
                    &self@.config.state,
                    DASHBOARD_ISSI,
                    requester_issi,
                    SsiType::Issi,
                    text_data(
                        reference_at(old(references).text),
                        text_octets(vstd::utf8::encode_utf8(host_reply(query, *host))),
                    ),
                    true,
                ),
            ),
    {
        let text = host_reply_text(query, host);
        self.send_text_sds(queue, references, DASHBOARD_ISSI, requester_issi, text.as_str());
    }
}

/// The answer to a query.
pub fn host_reply_text(query: HostQuery, host: &HostInfo) -> (r: String)
    ensures
        r@ == host_reply(query, *host),
{
    let ip: String = match &host.ip {
        Some(ip) => ip.clone(),
        None => "n/a".to_owned(),
    };
    let mut text: String = String::new();
    match query {
        HostQuery::Ip => {
            text.append("Host IP: ");
            text.append(ip.as_str());
        },
        HostQuery::Temp => {
            text.append("Host temp: ");
            match &host.temp {
                Some(temp) => {
                    text.append(temp.as_str());
                    text.append(" C");
                },
                None => text.append("n/a"),
            }
        },
        HostQuery::Info => {
            text.append("FlowStation v");
            text.append(host.version.as_str());
            text.append(" | IP ");
            text.append(ip.as_str());
            text.append(" | ");
            match &host.temp {
                Some(temp) => {
                    text.append(temp.as_str());
                    text.append("C");
                },
                None => text.append("n/a"),
            }
        },
    }
    text
}

} // verus!
