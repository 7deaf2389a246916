use ddns_sandbox::executor::{
    input_length, ExecError, SharedCtx, WasmDdnsStep, ENTRY_POINT, GC_PERIOD_SECS,
};
use ddns_sandbox::pipe::ReadWritePipe;

fn echo(step: &mut WasmDdnsStep, len: u32) -> i32 {
    let input = step.guest_read(len as usize);
    assert_eq!(step.guest_write(&input), input.len());
    0
}

#[test]
fn echo_module_returns_its_input() {
    let mut step = WasmDdnsStep::new();
    for payload in [vec![], vec![0u8], b"1.2.3.4".to_vec(), vec![0xab; 70_000]] {
        let len = step.begin(&payload).unwrap();
        assert_eq!(len as usize, payload.len());
        let status = echo(&mut step, len);
        assert_eq!(step.finish(status), Ok(payload));
        assert!(!step.is_running());
    }
}

#[test]
fn nonzero_status_turns_output_into_message() {
    let mut step = WasmDdnsStep::new();
    step.begin(b"input").unwrap();
    step.guest_write("could not find an ip \u{2639}".as_bytes());
    assert_eq!(step.finish(3), Err(String::from("could not find an ip \u{2639}")));
    step.begin(b"input").unwrap();
    step.guest_write(b"neg");
    assert_eq!(step.finish(-1), Err(String::from("neg")));
}

#[test]
fn invalid_utf8_message_is_made_readable() {
    let mut step = WasmDdnsStep::new();
    step.begin(b"x").unwrap();
    step.guest_write(&[b'a', 0xff, b'b']);
    assert_eq!(step.finish(1), Err(String::from("a\u{fffd}b")));
}

#[test]
fn calls_into_one_module_do_not_overlap() {
    let mut step = WasmDdnsStep::new();
    assert_eq!(step.begin(b"first"), Ok(5));
    assert!(step.is_running());
    assert_eq!(step.begin(b"second"), Err(ExecError::Busy));
    assert_eq!(step.guest_read(100), b"first".to_vec());
    assert_eq!(step.begin(b"second"), Err(ExecError::Busy));
    assert_eq!(step.finish(0), Ok(vec![]));
    assert_eq!(step.begin(b"second"), Ok(6));
}

#[test]
fn input_replaces_what_was_left() {
    let mut step = WasmDdnsStep::new();
    step.begin(b"abcdef").unwrap();
    assert_eq!(step.guest_read(2), b"ab".to_vec());
    assert_eq!(step.finish(0), Ok(vec![]));
    step.begin(b"xy").unwrap();
    assert_eq!(step.guest_read(10), b"xy".to_vec());
    assert_eq!(step.guest_read(10), Vec::<u8>::new());
    step.finish(0).unwrap();
}

#[test]
fn output_of_a_failed_call_reaches_no_later_result() {
    let mut step = WasmDdnsStep::new();
    step.begin(b"in").unwrap();
    step.guest_write(b"partial");
    step.abort();
    assert!(!step.is_running());
    step.begin(b"next").unwrap();
    step.guest_write(b"!");
    assert_eq!(step.finish(0), Ok(b"!".to_vec()));
    step.begin(b"again").unwrap();
    assert_eq!(step.finish(0), Ok(vec![]));
}

#[test]
fn a_call_starts_with_empty_output() {
    let mut step = WasmDdnsStep::new();
    step.guest_write(b"written outside of any call");
    assert_eq!(step.begin(b"abc"), Ok(3));
    let input = step.guest_read(3);
    step.guest_write(&input);
    assert_eq!(step.finish(0), Ok(b"abc".to_vec()));
    step.begin(b"x").unwrap();
    step.guest_write(b"message");
    step.abort();
    step.begin(b"y").unwrap();
    step.guest_write(b"bad input");
    assert_eq!(step.finish(2), Err(String::from("bad input")));
}

#[test]
fn a_call_that_cannot_begin_changes_nothing() {
    let mut step = WasmDdnsStep::new();
    step.begin(b"first").unwrap();
    step.guest_write(b"so far");
    assert_eq!(step.begin(b"second"), Err(ExecError::Busy));
    assert_eq!(step.guest_read(5), b"first".to_vec());
    assert_eq!(step.finish(0), Ok(b"so far".to_vec()));
}

#[test]
fn gc_keeps_content() {
    let mut step = WasmDdnsStep::new();
    step.begin(b"keep").unwrap();
    step.guest_write(b"out");
    step.gc();
    assert_eq!(step.guest_read(4), b"keep".to_vec());
    assert_eq!(step.finish(0), Ok(b"out".to_vec()));
    let mut ctx = SharedCtx::new();
    ctx.gc();
}

#[test]
fn pipe_is_first_in_first_out() {
    let mut pipe = ReadWritePipe::new();
    assert_eq!(pipe.len(), 0);
    pipe.append(b"abc");
    pipe.append(b"de");
    assert_eq!(pipe.len(), 5);
    assert_eq!(pipe.read(2), b"ab".to_vec());
    pipe.gc();
    assert_eq!(pipe.read(0), Vec::<u8>::new());
    assert_eq!(pipe.take_output(), b"cde".to_vec());
    assert_eq!(pipe.take_output(), Vec::<u8>::new());
    pipe.append(b"old");
    pipe.write(b"new!");
    assert_eq!(pipe.read(100), b"new!".to_vec());
    assert_eq!(pipe.len(), 0);
    pipe.append(b"gone");
    pipe.clear();
    assert_eq!(pipe.len(), 0);
    assert_eq!(pipe.take_output(), Vec::<u8>::new());
}

#[test]
fn constants_and_messages() {
    assert_eq!(ENTRY_POINT, "__ddns_step_main__");
    assert_eq!(GC_PERIOD_SECS, 120);
    assert_eq!(ExecError::CapacityOverflow.message(), "data capacity overflow");
    assert_eq!(ExecError::Busy.message(), "module is busy");
}

#[test]
fn input_length_is_the_number_of_bytes() {
    assert_eq!(input_length(b""), Ok(0));
    assert_eq!(input_length(b"1.2.3.4"), Ok(7));
    assert_eq!(input_length(&[0u8; 70_000]), Ok(70_000));
}
