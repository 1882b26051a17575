//! The dispatcher: the decisions behind each call of the RPC surface.
//!
//! The runtime around these functions performs the bounded waits and the
//! thread hand-offs; every check and every state change is here, so a
//! prediction against an unknown model is rejected without touching any
//! worker, and a submitted request lands on exactly one inbound queue.

use vstd::prelude::*;

use crate::errors::DispatchError;
use crate::message::Message;
use crate::registry::Registry;
use crate::worker::{same_config, submitted, Worker};

verus! {

/// The socket port of the first worker's backing process; each further
/// worker gets the lowest port above every port still registered, so no
/// new worker ever shares an endpoint with a live one.
pub const DEFAULT_ZMQ_PORT: u16 = 5555;

/// The port the next worker is created on: one past the highest port
/// registered, and the base port when the registry is empty.
pub open spec fn next_free_port(workers: Seq<Worker>) -> int
    decreases workers.len(),
{
    if workers.len() == 0 {
        DEFAULT_ZMQ_PORT as int
    } else if workers.last().zmq_port + 1 > next_free_port(workers.drop_last()) {
        workers.last().zmq_port + 1
    } else {
        next_free_port(workers.drop_last())
    }
}

/// Law: the next free port lies strictly above every registered worker's
/// port, so a newly created worker never reuses a live worker's endpoint,
/// whatever was removed before.
pub proof fn lemma_next_free_port_exceeds(workers: Seq<Worker>, k: int)
    requires
        0 <= k < workers.len(),
    ensures
        workers[k].zmq_port < next_free_port(workers),
    decreases workers.len(),
{
    if k + 1 < workers.len() {
        lemma_next_free_port_exceeds(workers.drop_last(), k);
    }
}

/// The liveness probe's reply.
#[derive(Debug)]
pub struct HealthResponse {
    pub health: String,
}

/// The reply to a successful prediction call.
#[derive(Debug)]
pub struct PredictionResponse {
    pub prediction: Message,
    pub model_name: String,
    pub sequence_id: Option<String>,
}

/// The reply to a successful worker creation call.
#[derive(Debug)]
pub struct CreateModelWorkerResponse {
    pub status: String,
    pub model_name: String,
}

/// Liveness probe: always healthy.
pub fn ping() -> (r: HealthResponse)
    ensures
        r.health@ == "OK"@,
{
    HealthResponse { health: "OK".to_owned() }
}

/// Register a worker for a model.  A name already present is rejected
/// with `AlreadyExists` and nothing changes; a fresh name gets a new
/// not-yet-started worker on the next free endpoint and an `"OK"` reply
/// that echoes the model name.
pub fn create_model_worker(
    reg: &mut Registry,
    model_name: String,
    model_path: String,
) -> (r: Result<CreateModelWorkerResponse, DispatchError>)
    requires
        old(reg).wf(),
        forall|k: int| 0 <= k < old(reg).workers@.len()
            ==> old(reg).workers@[k].zmq_port < 65535,
    ensures
        final(reg).wf(),
        r is Err <==> old(reg).contains_name(model_name@),
        r matches Err(e) ==> e == DispatchError::AlreadyExists && *final(reg) == *old(reg),
        r matches Ok(resp) ==> resp.status@ == "OK"@
            && resp.model_name@ == model_name@
            && final(reg).workers@.len() == old(reg).workers@.len() + 1
            && final(reg).workers@.subrange(0, old(reg).workers@.len() as int)
                == old(reg).workers@
            && final(reg).workers@.last().is_fresh(
                model_name@,
                "localhost"@,
                next_free_port(old(reg).workers@) as u16,
                model_path@,
            )
            && (forall|k: int| 0 <= k < old(reg).workers@.len()
                ==> old(reg).workers@[k].zmq_port < final(reg).workers@.last().zmq_port)
            && final(reg).contains_name(model_name@),
{
    let name_echo = model_name.clone();
    let mut zmq_port: u16 = DEFAULT_ZMQ_PORT;
    let mut j: usize = 0;
    while j < reg.workers.len()
        invariant
            j <= reg.workers.len(),
            *reg == *old(reg),
            forall|k: int| 0 <= k < reg.workers@.len() ==> reg.workers@[k].zmq_port < 65535,
            zmq_port as int == next_free_port(reg.workers@.take(j as int)),
            DEFAULT_ZMQ_PORT <= zmq_port,
        decreases reg.workers.len() - j,
    {
        let p = reg.workers[j].zmq_port;
        proof {
            assert(reg.workers@.take(j as int + 1).drop_last() =~= reg.workers@.take(j as int));
            assert(reg.workers@.take(j as int + 1).last() == reg.workers@[j as int]);
        }
        if p + 1 > zmq_port {
            zmq_port = p + 1;
        }
        j += 1;
    }
    proof {
        assert(reg.workers@.take(reg.workers@.len() as int) =~= reg.workers@);
        assert forall|k: int| 0 <= k < reg.workers@.len()
            implies reg.workers@[k].zmq_port < zmq_port by {
            lemma_next_free_port_exceeds(reg.workers@, k);
        }
    }
    match reg.create_worker(model_name, model_path, "localhost".to_owned(), zmq_port) {
        Ok(()) => Ok(CreateModelWorkerResponse { status: "OK".to_owned(), model_name: name_echo }),
        Err(e) => Err(e),
    }
}

/// Route a prediction request to its model's worker: find the worker and
/// put the request at the back of its inbound queue.  An unknown model
/// name fails with `NotFound` and leaves every worker untouched.  On
/// success the index of the worker is returned and no other worker, nor
/// anything else of this one, changes.
pub fn predict_submit(
    reg: &mut Registry,
    model_name: &String,
    input: Message,
) -> (r: Result<usize, DispatchError>)
    requires
        old(reg).wf(),
    ensures
        final(reg).wf(),
        r is Err <==> !old(reg).contains_name(model_name@),
        r matches Err(e) ==> e == DispatchError::NotFound && *final(reg) == *old(reg),
        r matches Ok(i) ==> i < old(reg).workers@.len()
            && old(reg).workers@[i as int].model_name@ == model_name@
            && final(reg).workers@.len() == old(reg).workers@.len()
            && final(reg).workers@[i as int].input_queue@
                == submitted(old(reg).workers@[i as int].input_queue@, input)
            && same_config(final(reg).workers@[i as int], old(reg).workers@[i as int])
            && final(reg).workers@[i as int].output_queue
                == old(reg).workers@[i as int].output_queue
            && final(reg).workers@[i as int].phase == old(reg).workers@[i as int].phase
            && final(reg).workers@[i as int].stop_requested
                == old(reg).workers@[i as int].stop_requested
            && forall|j: int| 0 <= j < old(reg).workers@.len() && j != i
                ==> final(reg).workers@[j] == old(reg).workers@[j],
{
    match reg.lookup(model_name) {
        None => Err(DispatchError::NotFound),
        Some(i) => {
            proof {
                assert(reg.contains_name(model_name@));
            }
            let mut w = reg.workers.remove(i);
            w.enqueue_request(input);
            reg.workers.insert(i, w);
            proof {
                assert forall|j: int| 0 <= j < old(reg).workers@.len() && j != i
                    implies reg.workers@[j] == old(reg).workers@[j] by {}
                assert forall|a: int, b: int|
                    0 <= a < b < reg.workers@.len()
                        implies reg.workers@[a].model_name@ != reg.workers@[b].model_name@ by {
                    assert(reg.workers@[a].model_name@ == old(reg).workers@[a].model_name@);
                    assert(reg.workers@[b].model_name@ == old(reg).workers@[b].model_name@);
                }
            }
            Ok(i)
        },
    }
}

/// Close out one prediction call from what the bounded wait on the
/// worker's outbound queue produced.  No response within the timeout is a
/// `Timeout` failure; a response is returned as the prediction payload,
/// tagged with the model name and with the correlation identifier the
/// caller generated for this request, echoed unchanged.
pub fn predict_finish(
    model_name: String,
    sequence_id: String,
    response: Option<Message>,
) -> (r: Result<PredictionResponse, DispatchError>)
    ensures
        r is Err <==> response is None,
        r matches Err(e) ==> e == DispatchError::Timeout,
        r matches Ok(p) ==> response == Some(p.prediction)
            && p.model_name == model_name
            && p.sequence_id == Some(sequence_id),
{
    match response {
        None => Err(DispatchError::Timeout),
        Some(m) => Ok(PredictionResponse {
            prediction: m,
            model_name,
            sequence_id: Some(sequence_id),
        }),
    }
}

} // verus!
