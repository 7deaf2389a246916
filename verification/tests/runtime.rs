use ddns_sandbox::dispatcher::{respond, Dispatch, Dispatcher};
use ddns_sandbox::modules::{after_wait, ModuleCache, Resolution};
use ddns_sandbox::wire::{Request, Response};

fn request(id: u64, module: &str) -> Request {
    Request { id, module: String::from(module), data: vec![1, 2] }
}

#[test]
fn relative_module_is_rejected_at_once() {
    let mut dispatcher = Dispatcher::new();
    for module in ["relative/path", "", "./x.wasm", "mod.wasm", "../up"] {
        let out = dispatcher.on_request(request(4, module));
        assert_eq!(
            out,
            Dispatch::Reply(Response {
                id: 4,
                response: Err(String::from("You must provide absolute paths as the module path")),
            })
        );
        assert_eq!(dispatcher.running(), 0);
    }
}

#[test]
fn absolute_module_becomes_a_task() {
    let mut dispatcher = Dispatcher::new();
    let absolute = if std::path::Path::new("/opt/m.wasm").is_absolute() {
        "/opt/m.wasm"
    } else {
        "C:\\opt\\m.wasm"
    };
    assert_eq!(dispatcher.on_request(request(1, absolute)), Dispatch::Spawn(request(1, absolute)));
    assert_eq!(dispatcher.running(), 1);
}

#[test]
fn route_goes_by_the_answer() {
    let mut dispatcher = Dispatcher::new();
    assert_eq!(dispatcher.route(request(1, "a"), true), Dispatch::Spawn(request(1, "a")));
    assert_eq!(
        dispatcher.route(request(2, "/b"), false),
        Dispatch::Reply(Response {
            id: 2,
            response: Err(String::from("You must provide absolute paths as the module path")),
        })
    );
    assert_eq!(dispatcher.running(), 1);
}

#[test]
fn shutdown_waits_for_running_tasks() {
    let mut dispatcher = Dispatcher::new();
    assert!(!dispatcher.may_exit());
    dispatcher.route(request(1, "/a"), true);
    dispatcher.route(request(2, "/b"), true);
    dispatcher.on_shutdown();
    assert_eq!(dispatcher.route(request(3, "/c"), true), Dispatch::Closed);
    assert_eq!(dispatcher.on_request(request(3, "rel")), Dispatch::Closed);
    assert!(!dispatcher.may_exit());
    dispatcher.on_task_done();
    assert!(!dispatcher.may_exit());
    dispatcher.on_task_done();
    assert!(dispatcher.may_exit());
    dispatcher.on_task_done();
    assert_eq!(dispatcher.running(), 0);
    assert!(dispatcher.may_exit());
}

#[test]
fn respond_carries_id_and_outcome() {
    assert_eq!(respond(9, Ok(vec![1])), Response { id: 9, response: Ok(vec![1]) });
    assert_eq!(
        respond(10, Err(String::from("no export"))),
        Response { id: 10, response: Err(String::from("no export")) }
    );
}

#[test]
fn first_caller_initializes_others_wait() {
    let mut cache = ModuleCache::new();
    assert_eq!(cache.len(), 0);
    assert_eq!(cache.resolve(String::from("/a.wasm")), Resolution::Initialize(0));
    assert_eq!(cache.resolve(String::from("/a.wasm")), Resolution::Wait(0));
    assert_eq!(cache.resolve(String::from("/a.wasm")), Resolution::Wait(0));
    assert_eq!(cache.resolve(String::from("/b.wasm")), Resolution::Initialize(1));
    assert_eq!(cache.len(), 2);
    cache.init_done(0, true);
    assert_eq!(cache.resolve(String::from("/a.wasm")), Resolution::Ready(0));
    assert_eq!(cache.resolve(String::from("/b.wasm")), Resolution::Wait(1));
    assert_eq!(cache.find(&String::from("/b.wasm")), 1);
    assert_eq!(cache.find(&String::from("/c.wasm")), 2);
}

#[test]
fn failed_initialization_touches_one_module_only() {
    let mut cache = ModuleCache::new();
    cache.resolve(String::from("/good.wasm"));
    cache.resolve(String::from("/bad.wasm"));
    cache.init_done(0, true);
    cache.init_done(1, false);
    assert_eq!(cache.resolve(String::from("/good.wasm")), Resolution::Ready(0));
    assert_eq!(cache.resolve(String::from("/bad.wasm")), Resolution::Initialize(1));
    assert_eq!(cache.resolve(String::from("/bad.wasm")), Resolution::Wait(1));
    cache.init_done(7, true);
    cache.init_done(0, false);
    assert_eq!(cache.resolve(String::from("/good.wasm")), Resolution::Ready(0));
    assert_eq!(cache.len(), 2);
}

#[test]
fn waiters_take_the_outcome_of_the_one_attempt() {
    let mut cache = ModuleCache::new();
    assert_eq!(cache.resolve(String::from("/bad.wasm")), Resolution::Initialize(0));
    let waiting: Vec<Resolution> =
        (0..3).map(|_| cache.resolve(String::from("/bad.wasm"))).collect();
    assert_eq!(waiting, vec![Resolution::Wait(0); 3]);
    cache.init_done(0, false);
    for resolution in waiting {
        let Resolution::Wait(slot) = resolution else { panic!("told to wait") };
        assert_eq!(
            after_wait(slot, Err(String::from("missing export"))),
            Err(String::from("missing export"))
        );
    }
    assert_eq!(cache.len(), 1);
    assert_eq!(cache.resolve(String::from("/bad.wasm")), Resolution::Initialize(0));
}

#[test]
fn waiters_use_the_module_once_it_is_there() {
    let mut cache = ModuleCache::new();
    assert_eq!(cache.resolve(String::from("/a.wasm")), Resolution::Initialize(0));
    assert_eq!(cache.resolve(String::from("/b.wasm")), Resolution::Initialize(1));
    assert_eq!(cache.resolve(String::from("/b.wasm")), Resolution::Wait(1));
    cache.init_done(1, true);
    assert_eq!(after_wait(1, Ok(())), Ok(1));
    assert_eq!(after_wait(0, Ok(())), Ok(0));
    assert_eq!(cache.resolve(String::from("/b.wasm")), Resolution::Ready(1));
}
