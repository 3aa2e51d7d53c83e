//! The outbound command dispatcher: turns a host request into one command
//! for the background execution context, and records what a completed send
//! returned.
use vstd::prelude::*;
use crate::cache::{CachedMessage, CorrelationCache};
use crate::ids::{id_of_text, parse_id};
use crate::lifecycle::ConnectionLifecycle;

verus! {

/// Acknowledgement of a plain send.
pub const SEND_ACK: &'static str = "Message queued";

/// Acknowledgement of a rich send.
pub const RICH_ACK: &'static str = "Rich message queued";

/// Acknowledgement of a delete.
pub const DELETE_ACK: &'static str = "Message deletion queued";

/// Acknowledgement of a role grant.
pub const ROLE_ACK: &'static str = "Role assignment queued";

/// The message that triggers an automatic reply.
pub const PING: &'static str = "!ping";

/// The automatic reply to a ping.
pub const PONG: &'static str = "Pong!";

/// The automatic reply to an inbound message: a ping gets a pong, anything
/// else gets none.
pub fn ping_reply(content: &String) -> (r: Option<String>)
    ensures
        r is Some <==> content@ == PING@,
        r matches Some(s) ==> s@ == PONG@,
{
    let ping = PING.to_string();
    if content.eq(&ping) {
        Some(PONG.to_string())
    } else {
        None
    }
}

/// A request to change remote state, carrying only identifiers and payload.
pub enum OutboundCommand {
    /// Send plain content; its result is recorded under `request_id`.
    SendContent { channel_id: u64, content: String, request_id: String },
    /// Send a rich message built from the payload text.
    SendRich { channel_id: u64, payload: String },
    /// Delete a message.
    DeleteMessage { channel_id: u64, message_id: u64 },
    /// Resolve a member of a guild, then grant it a role.
    GrantRole { guild_id: u64, user_id: u64, role_id: u64 },
}

/// One unit of background work: a command and the credential to run it with.
pub struct Job {
    pub credential: String,
    pub command: OutboundCommand,
}

/// What a dispatch hands back: the acknowledgement for the host at once,
/// and the job to run, absent when there is no execution context to run it.
pub struct Dispatch {
    pub ack: String,
    pub job: Option<Job>,
}

/// Whether `d` acknowledges with `ack` and carries `command` with the
/// lifecycle's credential exactly when the execution context is alive.
pub open spec fn dispatched(d: Dispatch, life: ConnectionLifecycle, ack: Seq<char>, command: OutboundCommand) -> bool {
    &&& d.ack@ == ack
    &&& match d.job {
        Some(job) => life@.has_context && job.credential@ == life@.credential && job.command == command,
        None => !life@.has_context,
    }
}

fn dispatch(life: &ConnectionLifecycle, ack: &str, command: OutboundCommand) -> (r: Dispatch)
    ensures
        dispatched(r, *life, ack@, command),
{
    let ack = ack.to_string();
    if life.has_context() {
        Dispatch { ack, job: Some(Job { credential: life.credential(), command }) }
    } else {
        Dispatch { ack, job: None }
    }
}

/// Dispatches a plain send of `content` to the channel whose id `channel_id`
/// spells (the zero id when it spells none).
pub fn send_content(life: &ConnectionLifecycle, channel_id: &str, content: String, request_id: String) -> (r: Dispatch)
    ensures
        dispatched(
            r,
            *life,
            SEND_ACK@,
            OutboundCommand::SendContent { channel_id: id_of_text(channel_id@), content, request_id },
        ),
{
    let channel_id = parse_id(channel_id);
    dispatch(life, SEND_ACK, OutboundCommand::SendContent { channel_id, content, request_id })
}

/// Dispatches a rich send of the payload text to a channel.
pub fn send_structured_content(life: &ConnectionLifecycle, channel_id: &str, payload: String) -> (r: Dispatch)
    ensures
        dispatched(r, *life, RICH_ACK@, OutboundCommand::SendRich { channel_id: id_of_text(channel_id@), payload }),
{
    let channel_id = parse_id(channel_id);
    dispatch(life, RICH_ACK, OutboundCommand::SendRich { channel_id, payload })
}

/// Dispatches a best-effort delete of a message.
pub fn delete_message(life: &ConnectionLifecycle, channel_id: &str, message_id: &str) -> (r: Dispatch)
    ensures
        dispatched(
            r,
            *life,
            DELETE_ACK@,
            OutboundCommand::DeleteMessage { channel_id: id_of_text(channel_id@), message_id: id_of_text(message_id@) },
        ),
{
    let channel_id = parse_id(channel_id);
    let message_id = parse_id(message_id);
    dispatch(life, DELETE_ACK, OutboundCommand::DeleteMessage { channel_id, message_id })
}

/// Dispatches a role grant to a member of a guild.
pub fn grant_role(life: &ConnectionLifecycle, guild_id: &str, user_id: &str, role_id: &str) -> (r: Dispatch)
    ensures
        dispatched(
            r,
            *life,
            ROLE_ACK@,
            OutboundCommand::GrantRole {
                guild_id: id_of_text(guild_id@),
                user_id: id_of_text(user_id@),
                role_id: id_of_text(role_id@),
            },
        ),
{
    let guild_id = parse_id(guild_id);
    let user_id = parse_id(user_id);
    let role_id = parse_id(role_id);
    dispatch(life, ROLE_ACK, OutboundCommand::GrantRole { guild_id, user_id, role_id })
}

/// Records how a plain send ended: a result goes into the cache under the
/// send's request id, and a failure leaves the cache as it was.
pub fn record_send_outcome(cache: &mut CorrelationCache, request_id: String, outcome: Option<CachedMessage>)
    requires
        old(cache).wf(),
    ensures
        final(cache).wf(),
        final(cache)@ == match outcome {
            Some(m) => old(cache)@.insert(request_id@, m@),
            None => old(cache)@,
        },
{
    match outcome {
        Some(m) => cache.put(request_id, m),
        None => {},
    }
}

} // verus!
