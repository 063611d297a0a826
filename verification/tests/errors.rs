use method_taskifier::errors::decimal_string;
use method_taskifier::{AllClientsDroppedError, AllWorkersDroppedError, InvalidNumberOfExecutors};

#[test]
fn error_messages() {
    assert_eq!(AllWorkersDroppedError.message(), "all workers are dropped");
    assert_eq!(AllClientsDroppedError.message(), "all clients are dropped");
    assert_eq!(InvalidNumberOfExecutors(0).message(), "invalid number of executors: 0");
    assert_eq!(InvalidNumberOfExecutors(42).message(), "invalid number of executors: 42");
    assert_eq!(InvalidNumberOfExecutors(255).message(), "invalid number of executors: 255");
}

#[test]
fn decimal_notation_of_bytes() {
    for n in 0..=255u8 {
        assert_eq!(decimal_string(n), n.to_string());
    }
}
