//! What a connection does with each thing it reads.
use vstd::prelude::*;
use crate::command::{is_request, request_is, Command};
use crate::frame::Frame;
use crate::store::shard_of;

verus! {

/// What reading from a connection produced.
#[derive(Debug)]
pub enum Event {
    /// A complete frame.
    Received(Frame),
    /// The peer closed the stream with no partial frame pending.
    Closed,
    /// The bytes read do not form a frame.
    Malformed,
}

/// What the connection does next.
#[derive(Debug)]
pub enum Action {
    /// Run the command on the given shard and write the reply.
    Run { shard: usize, command: Command },
    /// Tear the connection down.
    Close,
}

/// Decides the next action of a connection to a store of `num_shards` shards.
/// Only a frame that is a request is served; the end of the stream, a framing
/// error and a frame that is no request all close the connection.
pub fn next_action(event: Event, num_shards: usize) -> (r: Action)
    requires
        num_shards > 0,
    ensures
        r is Close <==> !(event matches Event::Received(f) && is_request(f)),
        r matches Action::Run { shard, command } ==> {
            &&& event matches Event::Received(f) && request_is(f, command)
            &&& shard == shard_of(command.spec_key(), num_shards as nat)
        },
{
    match event {
        Event::Received(frame) => match Command::from_frame(frame) {
            Ok(command) => {
                let shard = crate::store::shard_index(command.key().as_str(), num_shards);
                Action::Run { shard, command }
            },
            Err(_) => Action::Close,
        },
        Event::Closed => Action::Close,
        Event::Malformed => Action::Close,
    }
}

} // verus!
