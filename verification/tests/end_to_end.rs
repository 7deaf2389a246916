use ddns_sandbox::dispatcher::{respond, Dispatch, Dispatcher};
use ddns_sandbox::driver::{run_outcome, RunError, Submission, WasmDriver};
use ddns_sandbox::executor::{ExecError, WasmDdnsStep};
use ddns_sandbox::handshake::handshake_message;
use ddns_sandbox::modules::{ModuleCache, Resolution};
use ddns_sandbox::stream::{get_request, read_response};
use ddns_sandbox::wire::encode_response;

/// A host and a runtime in one place: what the host sends is what the
/// runtime reads, and back.
struct Pair {
    driver: WasmDriver,
    dispatcher: Dispatcher,
    cache: ModuleCache,
    steps: Vec<WasmDdnsStep>,
}

impl Pair {
    fn new() -> Self {
        let hello = handshake_message(b"/tmp/sock");
        let (mut driver, _) = WasmDriver::open(true, true, Some(&hello)).unwrap();
        driver.connected(Some(true)).unwrap();
        Pair { driver, dispatcher: Dispatcher::new(), cache: ModuleCache::new(), steps: Vec::new() }
    }

    /// Sends one request, lets `guest` serve it, and hands back what the
    /// caller with the token `waiter` gets.
    fn run(
        &mut self,
        module: &str,
        payload: &[u8],
        waiter: u64,
        absolute: bool,
        guest: fn(&mut WasmDdnsStep, u32) -> i32,
    ) -> Result<Vec<u8>, RunError> {
        let frame = match self.driver.submit(String::from(module), payload.to_vec(), waiter) {
            Submission::Send { frame, .. } => frame,
            Submission::Rejected => return run_outcome(None),
        };
        let (request, used) = get_request(&frame).unwrap().unwrap();
        assert_eq!(used, frame.len());
        let response = match self.dispatcher.route(request, absolute) {
            Dispatch::Reply(response) => response,
            Dispatch::Closed => panic!("the runtime takes no requests"),
            Dispatch::Spawn(request) => {
                let slot = match self.cache.resolve(request.module.clone()) {
                    Resolution::Initialize(slot) => {
                        assert_eq!(slot, self.steps.len());
                        self.steps.push(WasmDdnsStep::new());
                        self.cache.init_done(slot, true);
                        slot
                    }
                    Resolution::Ready(slot) => slot,
                    Resolution::Wait(_) => panic!("nobody else is at work"),
                };
                let step = &mut self.steps[slot];
                let len = step.begin(&request.data).unwrap();
                let status = guest(step, len);
                let outcome = step.finish(status);
                self.dispatcher.on_task_done();
                respond(request.id, outcome)
            }
        };
        let back = encode_response(&response);
        let (response, used) = read_response(&back).unwrap().unwrap();
        assert_eq!(used, back.len());
        let (token, result) = self.driver.on_response(response).unwrap();
        assert_eq!(token, waiter);
        run_outcome(Some(result))
    }
}

fn echo(step: &mut WasmDdnsStep, len: u32) -> i32 {
    let input = step.guest_read(len as usize);
    step.guest_write(&input);
    0
}

fn first_line(step: &mut WasmDdnsStep, len: u32) -> i32 {
    let input = step.guest_read(len as usize);
    match input.split(|b| *b == b'\n').next() {
        Some(line) if !line.is_empty() => {
            step.guest_write(line);
            0
        }
        _ => {
            step.guest_write(b"no address in the input");
            1
        }
    }
}

#[test]
fn echo_module_round_trip() {
    let mut pair = Pair::new();
    for (i, payload) in [&b""[..], b"203.0.113.7", &[0u8, 255, 10, 13], &[7u8; 5000]].iter().enumerate() {
        assert_eq!(pair.run("/opt/echo.wasm", payload, i as u64, true, echo), Ok(payload.to_vec()));
    }
    assert_eq!(pair.steps.len(), 1);
}

#[test]
fn guest_error_reaches_the_caller_as_text() {
    let mut pair = Pair::new();
    assert_eq!(pair.run("/opt/line.wasm", b"198.51.100.1\nrest", 1, true, first_line), Ok(b"198.51.100.1".to_vec()));
    let failed = pair.run("/opt/line.wasm", b"\n", 2, true, first_line);
    assert_eq!(failed, Err(RunError::Guest(String::from("no address in the input"))));
    assert_eq!(failed.unwrap_err().message(), "failed to run wasm command: no address in the input");
}

#[test]
fn relative_module_fails_without_being_loaded() {
    let mut pair = Pair::new();
    let out = pair.run("relative/path", b"payload", 3, false, echo);
    assert_eq!(
        out,
        Err(RunError::Guest(String::from("You must provide absolute paths as the module path")))
    );
    assert_eq!(pair.cache.len(), 0);
    assert!(pair.steps.is_empty());
}

#[test]
fn two_modules_do_not_wait_for_each_other() {
    let mut a = WasmDdnsStep::new();
    let mut b = WasmDdnsStep::new();
    assert_eq!(a.begin(b"slow"), Ok(4));
    assert_eq!(b.begin(b"fast"), Ok(4));
    assert_eq!(a.begin(b"again"), Err(ExecError::Busy));
    assert_eq!(echo(&mut b, 4), 0);
    assert_eq!(b.finish(0), Ok(b"fast".to_vec()));
    assert!(a.is_running());
    assert_eq!(echo(&mut a, 4), 0);
    assert_eq!(a.finish(0), Ok(b"slow".to_vec()));
}

#[test]
fn answers_out_of_order_reach_their_callers() {
    let hello = handshake_message(b"/tmp/sock");
    let (mut driver, _) = WasmDriver::open(true, true, Some(&hello)).unwrap();
    driver.connected(Some(true)).unwrap();
    let mut frames = Vec::new();
    for waiter in [70u64, 71, 72] {
        match driver.submit(String::from("/m"), vec![waiter as u8], waiter) {
            Submission::Send { frame, .. } => frames.push(frame),
            Submission::Rejected => panic!("work was rejected"),
        }
    }
    let mut stream = Vec::new();
    for frame in frames.iter().rev() {
        let (request, _) = get_request(frame).unwrap().unwrap();
        stream.extend_from_slice(&encode_response(&respond(request.id, Ok(request.data))));
    }
    let mut at = 0;
    let mut seen = Vec::new();
    while let Some((response, used)) = read_response(&stream[at..]).unwrap() {
        at += used;
        let (token, result) = driver.on_response(response).unwrap();
        assert_eq!(result, Ok(vec![token as u8]));
        seen.push(token);
    }
    assert_eq!(seen, vec![72, 71, 70]);
}

fn trap_after_writing(step: &mut WasmDdnsStep, _len: u32) -> i32 {
    step.guest_write(b"half an answer");
    i32::MIN
}

#[test]
fn echo_round_trip_after_a_failed_call() {
    let mut step = WasmDdnsStep::new();
    let len = step.begin(b"first").unwrap();
    assert_eq!(trap_after_writing(&mut step, len), i32::MIN);
    step.abort();
    for payload in [&b"203.0.113.7"[..], b"", &[0xffu8, 0xfe, 0x00]] {
        let len = step.begin(payload).unwrap();
        assert_eq!(echo(&mut step, len), 0);
        assert_eq!(step.finish(0), Ok(payload.to_vec()));
    }
}
