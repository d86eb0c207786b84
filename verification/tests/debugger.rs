use wasm_runner::debugger::tracer_attached;

#[test]
fn no_tracer() {
    assert!(!tracer_attached(b""));
    assert!(!tracer_attached(b"TracerPid:\t0\n"));
    assert!(!tracer_attached(b"TracerPid:\t0"));
    assert!(!tracer_attached(b"TracerPid:"));
    assert!(!tracer_attached(b"TracerPid:\n"));
    assert!(!tracer_attached(b"TracerPid:   000\n"));
    assert!(!tracer_attached(b"Name:\tinit\nPid:\t1\nTracerPid:\t0\nUid:\t1000\n"));
}

#[test]
fn a_tracer() {
    assert!(tracer_attached(b"TracerPid:\t1\n"));
    assert!(tracer_attached(b"TracerPid:\t4242"));
    assert!(tracer_attached(b"TracerPid:\t10\n"));
    assert!(tracer_attached(b"TracerPid:9"));
    assert!(tracer_attached(b"Name:\tguest\nPid:\t77\nTracerPid:\t76\nUid:\t0\n"));
    assert!(tracer_attached(b"\nTracerPid: 5"));
}

#[test]
fn only_the_line_of_the_tracer_counts() {
    assert!(!tracer_attached(b"Pid:\t77\nTracerPid:\t0\nUid:\t1000\n"));
    assert!(!tracer_attached(b"TracerPid:\t0\n5"));
    assert!(!tracer_attached(b"TracerPid:\t\n5"));
    assert!(!tracer_attached(b"NoTracerPid:\t5\n"));
    assert!(!tracer_attached(b" TracerPid:\t5\n"));
    assert!(!tracer_attached(b"tracerpid:\t5\n"));
    assert!(!tracer_attached(b"TracerPid\t5\n"));
    assert!(!tracer_attached(b"5\nTracerPid:\t0\n"));
    assert!(!tracer_attached(b"Tracer\nPid:\t5\n"));
    assert!(tracer_attached(b"TracerPid:\t0\nTracerPid:\t3\n"));
}
