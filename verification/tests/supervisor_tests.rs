use dib_client::supervisor::shutdown_sequence;
use dib_client::supervisor::thread_name;
use dib_client::supervisor::WorkerRole;

#[test]
fn shutdown_closes_the_intake_first() {
    assert_eq!(
        shutdown_sequence(),
        vec![WorkerRole::Listener, WorkerRole::Logic, WorkerRole::Transmitter]
    );
}

#[test]
fn worker_thread_names() {
    assert_eq!(thread_name(3, WorkerRole::Listener), "client_3_listener");
    assert_eq!(thread_name(3, WorkerRole::Logic), "client_3_logic");
    assert_eq!(thread_name(3, WorkerRole::Transmitter), "client_3_transmitter");
    assert_eq!(thread_name(250, WorkerRole::Logic), "client_250_logic");
}
