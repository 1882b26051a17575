//! One model's worker: the owner of a backing child process, a pair of
//! message queues, and the lifecycle of the execution loop that drains
//! them.
//!
//! The loop itself performs outside work (spawning the process, the
//! socket exchange, the bounded waits); every decision it takes between
//! those steps is a method here, so the queue discipline and the
//! lifecycle are verified while the runtime around them only moves data.

use vstd::prelude::*;
use vstd::string::StrSliceExecFns;
use vstd::utf8::encode_utf8;

use crate::codec::{encode_request, metadata_json, payload_json, WireRequest};
use crate::errors::DispatchError;
use crate::message::Message;

verus! {

/// Lifecycle of a worker's execution loop.
#[derive(Clone, Copy, Debug, PartialEq, Eq, Structural)]
pub enum WorkerPhase {
    /// Constructed; the execution loop has not run yet.
    Created,
    /// The execution loop is spawning the child process.
    Launching,
    /// The child process is spawned and exchanges may proceed.
    Running,
    /// The stop flag was observed; the loop has exited.
    Stopped,
    /// The child process could not be spawned; the worker is unusable.
    Failed,
}

/// The worker for one model: its configuration, the handle state of its
/// child process, and the two queues the dispatcher and the execution
/// loop share.
#[derive(Debug)]
pub struct Worker {
    pub model_name: String,
    pub host: String,
    pub zmq_port: u16,
    pub model_path: String,
    /// Whether the child process handle is held (taken exactly once on stop).
    pub process_present: bool,
    pub phase: WorkerPhase,
    /// Requests awaiting an exchange, oldest first.
    pub input_queue: Vec<Message>,
    /// Responses awaiting the dispatcher, oldest first.
    pub output_queue: Vec<Message>,
    /// Set by whoever asks the loop to exit.
    pub stop_requested: bool,
}

/// A queue after one more request was submitted at its back.
pub open spec fn submitted(q: Seq<Message>, m: Message) -> Seq<Message> {
    q.push(m)
}

/// The request the loop serves next: the oldest one.
pub open spec fn next_request(q: Seq<Message>) -> Message
    recommends
        q.len() > 0,
{
    q[0]
}

/// A queue after its oldest request was taken.
pub open spec fn remaining(q: Seq<Message>) -> Seq<Message> {
    q.subrange(1, q.len() as int)
}

/// An outbound queue after one more response was delivered.
pub open spec fn responded(q: Seq<Message>, m: Message) -> Seq<Message> {
    q.push(m)
}

/// The field list of the placeholder message the loop delivers when an
/// exchange fails.
pub open spec fn error_entries() -> Seq<(Seq<char>, Seq<u8>)> {
    seq![("error"@, encode_utf8("Error sending message"@))]
}

/// The placeholder response for a failed exchange.
pub fn error_message() -> (r: Message)
    ensures
        r@ == error_entries(),
        r.wf(),
{
    let data: Vec<(String, Vec<u8>)> = vec![
        ("error".to_owned(), "Error sending message".as_bytes_vec()),
    ];
    let r = Message::new(data);
    assert(r@ =~= error_entries());
    r
}

/// The two workers have the same configuration fields.
pub open spec fn same_config(a: Worker, b: Worker) -> bool {
    &&& a.model_name == b.model_name
    &&& a.host == b.host
    &&& a.zmq_port == b.zmq_port
    &&& a.model_path == b.model_path
}

impl Worker {
    /// A fresh worker in its not-yet-started state: empty queues, no
    /// process handle, stop flag clear.
    pub open spec fn is_fresh(
        self,
        model_name: Seq<char>,
        host: Seq<char>,
        zmq_port: u16,
        model_path: Seq<char>,
    ) -> bool {
        &&& self.model_name@ == model_name
        &&& self.host@ == host
        &&& self.zmq_port == zmq_port
        &&& self.model_path@ == model_path
        &&& !self.process_present
        &&& self.phase == WorkerPhase::Created
        &&& self.input_queue@ =~= Seq::<Message>::empty()
        &&& self.output_queue@ =~= Seq::<Message>::empty()
        &&& !self.stop_requested
    }

    pub fn new(model_name: String, host: String, zmq_port: u16, model_path: String) -> (r: Worker)
        ensures
            r.is_fresh(model_name@, host@, zmq_port, model_path@),
    {
        Worker {
            model_name,
            host,
            zmq_port,
            model_path,
            process_present: false,
            phase: WorkerPhase::Created,
            input_queue: Vec::new(),
            output_queue: Vec::new(),
            stop_requested: false,
        }
    }

    /// The loop's first iteration begins by launching the child process.
    pub fn begin_launch(&mut self)
        requires
            old(self).phase == WorkerPhase::Created,
        ensures
            same_config(*final(self), *old(self)),
            final(self).input_queue == old(self).input_queue,
            final(self).output_queue == old(self).output_queue,
            final(self).process_present == old(self).process_present,
            final(self).stop_requested == old(self).stop_requested,
            final(self).phase == WorkerPhase::Launching,
    {
        self.phase = WorkerPhase::Launching;
    }

    /// Launch decision, taken once at the first iteration of the loop:
    /// record whether the child process spawned.  A failed spawn is fatal
    /// to this worker.
    pub fn run(&mut self, spawn_ok: bool) -> (r: Result<(), DispatchError>)
        requires
            old(self).phase == WorkerPhase::Launching,
        ensures
            same_config(*final(self), *old(self)),
            final(self).input_queue == old(self).input_queue,
            final(self).output_queue == old(self).output_queue,
            final(self).stop_requested == old(self).stop_requested,
            spawn_ok ==> r is Ok
                && final(self).phase == WorkerPhase::Running
                && final(self).process_present,
            !spawn_ok ==> r == Err::<(), DispatchError>(DispatchError::ProcessSpawnFailure)
                && final(self).phase == WorkerPhase::Failed
                && !final(self).process_present,
    {
        if spawn_ok {
            self.process_present = true;
            self.phase = WorkerPhase::Running;
            Ok(())
        } else {
            self.process_present = false;
            self.phase = WorkerPhase::Failed;
            Err(DispatchError::ProcessSpawnFailure)
        }
    }

    /// The dispatcher submits a request at the back of the inbound queue.
    pub fn enqueue_request(&mut self, m: Message)
        ensures
            same_config(*final(self), *old(self)),
            final(self).input_queue@ == submitted(old(self).input_queue@, m),
            final(self).output_queue == old(self).output_queue,
            final(self).phase == old(self).phase,
            final(self).process_present == old(self).process_present,
            final(self).stop_requested == old(self).stop_requested,
    {
        self.input_queue.push(m);
    }

    /// The loop takes the oldest pending request, if any.
    pub fn take_request(&mut self) -> (r: Option<Message>)
        ensures
            same_config(*final(self), *old(self)),
            final(self).output_queue == old(self).output_queue,
            final(self).phase == old(self).phase,
            final(self).process_present == old(self).process_present,
            final(self).stop_requested == old(self).stop_requested,
            old(self).input_queue@.len() == 0 ==> r is None
                && final(self).input_queue == old(self).input_queue,
            old(self).input_queue@.len() > 0 ==> r == Some(next_request(old(self).input_queue@))
                && final(self).input_queue@ == remaining(old(self).input_queue@),
    {
        if self.input_queue.len() == 0 {
            None
        } else {
            let m = self.input_queue.remove(0);
            assert(final(self).input_queue@ =~= remaining(old(self).input_queue@));
            Some(m)
        }
    }

    /// The loop delivers the outcome of one exchange: the decoded reply,
    /// or the placeholder error message when the exchange failed.
    pub fn finish_exchange(&mut self, outcome: Option<Message>)
        ensures
            same_config(*final(self), *old(self)),
            final(self).input_queue == old(self).input_queue,
            final(self).phase == old(self).phase,
            final(self).process_present == old(self).process_present,
            final(self).stop_requested == old(self).stop_requested,
            outcome matches Some(m) ==>
                final(self).output_queue@ == responded(old(self).output_queue@, m),
            outcome is None ==> final(self).output_queue@.len()
                == old(self).output_queue@.len() + 1
                && final(self).output_queue@.last()@ == error_entries()
                && final(self).output_queue@.subrange(0, old(self).output_queue@.len() as int)
                    == old(self).output_queue@,
    {
        match outcome {
            Some(m) => self.output_queue.push(m),
            None => {
                self.output_queue.push(error_message());
                assert(final(self).output_queue@
                    .subrange(0, old(self).output_queue@.len() as int)
                    =~= old(self).output_queue@);
            },
        }
    }

    /// The dispatcher takes the oldest pending response, if any.
    pub fn take_response(&mut self) -> (r: Option<Message>)
        ensures
            same_config(*final(self), *old(self)),
            final(self).input_queue == old(self).input_queue,
            final(self).phase == old(self).phase,
            final(self).process_present == old(self).process_present,
            final(self).stop_requested == old(self).stop_requested,
            old(self).output_queue@.len() == 0 ==> r is None
                && final(self).output_queue == old(self).output_queue,
            old(self).output_queue@.len() > 0 ==> r == Some(old(self).output_queue@[0])
                && final(self).output_queue@ == remaining(old(self).output_queue@),
    {
        if self.output_queue.len() == 0 {
            None
        } else {
            let m = self.output_queue.remove(0);
            assert(final(self).output_queue@ =~= remaining(old(self).output_queue@));
            Some(m)
        }
    }

    /// Ask the loop to exit at its next check.
    pub fn request_stop(&mut self)
        ensures
            same_config(*final(self), *old(self)),
            final(self).input_queue == old(self).input_queue,
            final(self).output_queue == old(self).output_queue,
            final(self).phase == old(self).phase,
            final(self).process_present == old(self).process_present,
            final(self).stop_requested,
    {
        self.stop_requested = true;
    }

    /// The loop's stop check at the end of an iteration.
    pub fn should_stop(&self) -> (r: bool)
        ensures
            r == self.stop_requested,
    {
        self.stop_requested
    }

    /// The loop records that it observed the stop flag and exited.
    pub fn note_stopped(&mut self)
        requires
            old(self).stop_requested,
        ensures
            same_config(*final(self), *old(self)),
            final(self).input_queue == old(self).input_queue,
            final(self).output_queue == old(self).output_queue,
            final(self).process_present == old(self).process_present,
            final(self).stop_requested == old(self).stop_requested,
            final(self).phase == WorkerPhase::Stopped,
    {
        self.phase = WorkerPhase::Stopped;
    }

    /// Take the child process handle to kill it, exactly once: a second
    /// stop finds no handle.
    pub fn stop(&mut self) -> (r: Result<(), DispatchError>)
        ensures
            same_config(*final(self), *old(self)),
            final(self).input_queue == old(self).input_queue,
            final(self).output_queue == old(self).output_queue,
            final(self).phase == old(self).phase,
            final(self).stop_requested == old(self).stop_requested,
            !final(self).process_present,
            old(self).process_present ==> r is Ok,
            !old(self).process_present ==> r
                == Err::<(), DispatchError>(DispatchError::ChildProcessMissing),
    {
        if self.process_present {
            self.process_present = false;
            Ok(())
        } else {
            Err(DispatchError::ChildProcessMissing)
        }
    }

    /// Serialize one request for the exchange with the backing process,
    /// under the fixed response label.
    pub fn send_message(&self, message: &Message) -> (r: WireRequest)
        ensures
            r.response_frame@ == encode_utf8("Hello"@),
            r.metadata_frame@ == metadata_json("Hello"@, "Hello"@),
            r.payload_frame@ == payload_json(message@),
    {
        encode_request(message, "Hello")
    }
}

/// Law: a single worker serves requests first come, first served.  After
/// `r1` and then `r2` are submitted to an idle worker, the next request
/// taken is `r1` and the one after it is `r2`; the responses delivered for
/// them land in the outbound queue in that same order.
pub proof fn lemma_single_worker_fifo(r1: Message, r2: Message, resp1: Message, resp2: Message)
    ensures
        ({
            let q = submitted(submitted(Seq::<Message>::empty(), r1), r2);
            &&& next_request(q) == r1
            &&& next_request(remaining(q)) == r2
            &&& remaining(remaining(q)) =~= Seq::<Message>::empty()
        }),
        responded(responded(Seq::<Message>::empty(), resp1), resp2) =~= seq![resp1, resp2],
{
    let q = submitted(submitted(Seq::<Message>::empty(), r1), r2);
    assert(q.len() == 2);
    assert(q[0] == r1);
    assert(q[1] == r2);
    assert(remaining(q)[0] == r2);
}

} // verus!
