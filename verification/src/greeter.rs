//! The RPC message values and the responder's reply construction. The
//! transport that carries them is outside the library; it hands requests
//! in and replies out as plain values.

use crate::metrics::{bumped, MetricsCounters};
use vstd::prelude::*;
use vstd::string::StringExecFns;

verus! {

/// One request, as the wire contract has it.
pub struct HelloRequest {
    pub client_name: String,
    pub thread_name: String,
    pub message: String,
}

/// One reply, as the wire contract has it.
pub struct HelloReply {
    pub server_name: String,
    pub message: String,
}

impl HelloReply {
    /// A value-equal copy of this reply.
    pub fn duplicate(&self) -> (r: HelloReply)
        ensures
            r.server_name@ == self.server_name@,
            r.message@ == self.message@,
    {
        HelloReply { server_name: self.server_name.clone(), message: self.message.clone() }
    }
}

/// The text of every reply: a greeting naming the calling client and the
/// responding server.
pub open spec fn reply_message_seq(client: Seq<char>, server: Seq<char>) -> Seq<char> {
    "Hello "@ + client + " ! This is server "@ + server
}

/// The responder: its announced name and its logging switches. The
/// switches only govern what the surrounding process prints; the reply is
/// the same either way.
pub struct MyGreeter {
    pub server_name: String,
    pub verbose_ok_responses: bool,
    pub verbose_err_responses: bool,
}

impl MyGreeter {
    /// A responder with the given name and logging switches.
    pub fn new(server_name: String, verbose_ok_responses: bool, verbose_err_responses: bool) -> (g:
        MyGreeter)
        ensures
            g.server_name@ == server_name@,
            g.verbose_ok_responses == verbose_ok_responses,
            g.verbose_err_responses == verbose_err_responses,
    {
        MyGreeter { server_name, verbose_ok_responses, verbose_err_responses }
    }

    /// Answer one request: the reply carries this server's name and the
    /// greeting text for the calling client, and the success counter
    /// steps by one.
    pub fn say_hello(&self, request: &HelloRequest, counters: &mut MetricsCounters) -> (r:
        HelloReply)
        ensures
            r.server_name@ == self.server_name@,
            r.message@ == reply_message_seq(request.client_name@, self.server_name@),
            final(counters).ok_count == bumped(old(counters).ok_count),
            final(counters).retry_count == old(counters).retry_count,
            final(counters).err_count == old(counters).err_count,
    {
        let mut message = "Hello ".to_owned();
        message.append(request.client_name.as_str());
        message.append(" ! This is server ");
        message.append(self.server_name.as_str());
        counters.increment_ok();
        proof {
            assert(message@ =~= reply_message_seq(request.client_name@, self.server_name@));
        }
        HelloReply { server_name: self.server_name.clone(), message }
    }
}

/// The request one worker sends on every attempt: its identity and the
/// fixed payload.
pub fn make_request(client_name: &String, thread_name: &String) -> (r: HelloRequest)
    ensures
        r.client_name@ == client_name@,
        r.thread_name@ == thread_name@,
        r.message@ == "Tonic"@,
{
    HelloRequest {
        client_name: client_name.clone(),
        thread_name: thread_name.clone(),
        message: "Tonic".to_owned(),
    }
}

} // verus!
