use mlservant::errors::DispatchError;
use mlservant::message::Message;
use mlservant::worker::{error_message, Worker, WorkerPhase};

fn msg(name: &str, payload: &[u8]) -> Message {
    Message::new(vec![(name.to_string(), payload.to_vec())])
}

#[test]
fn fresh_worker_state() {
    let w = Worker::new(
        "resnet".to_string(),
        "localhost".to_string(),
        5555,
        "/models/resnet.bin".to_string(),
    );
    assert_eq!(w.model_name, "resnet");
    assert_eq!(w.host, "localhost");
    assert_eq!(w.zmq_port, 5555);
    assert_eq!(w.model_path, "/models/resnet.bin");
    assert!(matches!(w.phase, WorkerPhase::Created));
    assert!(!w.process_present);
    assert!(!w.stop_requested);
    assert!(w.input_queue.is_empty());
    assert!(w.output_queue.is_empty());
}

#[test]
fn run_records_spawn_success() {
    let mut w = Worker::new("m".to_string(), "h".to_string(), 1, "p".to_string());
    w.begin_launch();
    assert!(matches!(w.phase, WorkerPhase::Launching));
    assert!(w.run(true).is_ok());
    assert!(matches!(w.phase, WorkerPhase::Running));
    assert!(w.process_present);
}

#[test]
fn run_spawn_failure_is_fatal() {
    let mut w = Worker::new("m".to_string(), "h".to_string(), 1, "p".to_string());
    w.begin_launch();
    assert_eq!(w.run(false).unwrap_err(), DispatchError::ProcessSpawnFailure);
    assert!(matches!(w.phase, WorkerPhase::Failed));
    assert!(!w.process_present);
}

#[test]
fn fifo_order_of_two_requests() {
    // Submitting r1 then r2 before either completes yields responses in
    // the order resp(r1), resp(r2).
    let mut w = Worker::new("m".to_string(), "h".to_string(), 1, "p".to_string());
    w.enqueue_request(msg("req", b"1"));
    w.enqueue_request(msg("req", b"2"));

    let first = w.take_request().unwrap();
    assert_eq!(first.get(&"req".to_string()), Some(&b"1".to_vec()));
    w.finish_exchange(Some(msg("resp", b"1")));

    let second = w.take_request().unwrap();
    assert_eq!(second.get(&"req".to_string()), Some(&b"2".to_vec()));
    w.finish_exchange(Some(msg("resp", b"2")));

    assert!(w.take_request().is_none());
    let out1 = w.take_response().unwrap();
    let out2 = w.take_response().unwrap();
    assert_eq!(out1.get(&"resp".to_string()), Some(&b"1".to_vec()));
    assert_eq!(out2.get(&"resp".to_string()), Some(&b"2".to_vec()));
    assert!(w.take_response().is_none());
}

#[test]
fn failed_exchange_delivers_error_message() {
    let mut w = Worker::new("m".to_string(), "h".to_string(), 1, "p".to_string());
    w.finish_exchange(None);
    let out = w.take_response().unwrap();
    assert_eq!(
        out.get(&"error".to_string()),
        Some(&b"Error sending message".to_vec())
    );
}

#[test]
fn error_message_shape() {
    let e = error_message();
    assert_eq!(e.len(), 1);
    assert_eq!(
        e.get(&"error".to_string()),
        Some(&b"Error sending message".to_vec())
    );
}

#[test]
fn stop_takes_process_exactly_once() {
    let mut w = Worker::new("m".to_string(), "h".to_string(), 1, "p".to_string());
    assert_eq!(w.stop().unwrap_err(), DispatchError::ChildProcessMissing);
    w.begin_launch();
    w.run(true).unwrap();
    assert!(w.stop().is_ok());
    assert!(!w.process_present);
    assert_eq!(w.stop().unwrap_err(), DispatchError::ChildProcessMissing);
}

#[test]
fn stop_flag_ends_the_loop() {
    let mut w = Worker::new("m".to_string(), "h".to_string(), 1, "p".to_string());
    w.begin_launch();
    w.run(true).unwrap();
    assert!(!w.should_stop());
    w.request_stop();
    assert!(w.should_stop());
    w.note_stopped();
    assert!(matches!(w.phase, WorkerPhase::Stopped));
}

#[test]
fn send_message_uses_fixed_label() {
    let w = Worker::new("m".to_string(), "h".to_string(), 1, "p".to_string());
    let req = w.send_message(&msg("image", &[9, 8]));
    assert_eq!(req.response_frame, b"Hello".to_vec());
    assert_eq!(
        req.metadata_frame,
        br#"{"metadata":"Hello","response":"Hello"}"#.to_vec()
    );
    assert_eq!(req.payload_frame, br#"{"image":[9,8]}"#.to_vec());
}
