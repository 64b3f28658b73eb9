//! The client of the daemon: it writes one command to the socket and reads
//! the answer.

use vstd::prelude::*;
use vstd::utf8::encode_utf8;
use crate::command::{encoded_opt, parsed_opt, Opt, OptView};
use crate::daemon::MESSAGE_LIMIT;
use crate::error::Failure;
use crate::utils::socket_path;

verus! {

/// A client of the daemon.
pub struct Client {
    /// The socket on which the daemon listens.
    pub socket_path: String,
}

impl Client {
    /// A client on the socket `socket` below the state root.
    pub fn new() -> (r: Result<Client, Failure>)
        ensures
            r matches Ok(client) && client.socket_path@ == socket_path("socket"@),
    {
        let mut path = String::from_str("/var/lib/minato/");
        path.append("socket");
        Ok(Client { socket_path: path })
    }

    /// What may be sent for a call: its text, where that fits into what the
    /// daemon reads and the daemon reads it as the call that was written.
    pub open spec fn sendable(opt: OptView) -> bool {
        encode_utf8(encoded_opt(opt)).len() <= MESSAGE_LIMIT && parsed_opt(encoded_opt(opt))
            == Ok::<OptView, Failure>(opt)
    }

    /// The message that carries the call `opt` to the daemon: the call
    /// written down. A call is refused where its text takes more bytes than
    /// the daemon reads, or where the daemon would read another call out
    /// of it than the one that was written.
    pub fn send(&self, opt: &Opt) -> (r: Result<String, Failure>)
        ensures
            Self::sendable(opt.deep_view()) ==> (r matches Ok(message) && message@
                == encoded_opt(opt.deep_view())),
            !Self::sendable(opt.deep_view()) ==> r == Err::<String, Failure>(Failure::BadCommand),
    {
        let message = opt.encode();
        if message.as_str().as_bytes().len() > MESSAGE_LIMIT {
            return Err(Failure::BadCommand);
        }
        match Opt::from_str(message.as_str()) {
            Ok(read) => if read.same(opt) {
                Ok(message)
            } else {
                Err(Failure::BadCommand)
            },
            Err(_) => Err(Failure::BadCommand),
        }
    }
}

} // verus!
