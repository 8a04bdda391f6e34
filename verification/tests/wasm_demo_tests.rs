//! End-to-end demos: guest modules run in a real interpreter whose host
//! imports are wired to the library's bridge functions.

use std::cell::RefCell;
use std::rc::Rc;

use jericho_os::scheduler::Scheduler;
use jericho_os::task::TaskContext;
use jericho_os::wasm_bridge::{next_delivery, BridgeState, WasmContext, MSG_BUFFER_OFFSET};
use wasmi::{Caller, Engine, Extern, Instance, Linker, Module, Store, Val};

struct HostState {
    ctx: WasmContext,
    bridge: Rc<RefCell<BridgeState>>,
    printed: Rc<RefCell<Vec<i32>>>,
}

struct GuestModule {
    store: Store<HostState>,
    instance: Instance,
}

impl GuestModule {
    fn load(
        wat_text: &str,
        bridge: Rc<RefCell<BridgeState>>,
        printed: Rc<RefCell<Vec<i32>>>,
    ) -> Result<Self, wasmi::Error> {
        let wasm = wat::parse_str(wat_text).expect("well-formed wat");
        let engine = Engine::default();
        let module = Module::new(&engine, &wasm[..])?;
        let state = HostState { ctx: WasmContext::new(Vec::new()), bridge, printed };
        let mut store = Store::new(&engine, state);
        let mut linker: Linker<HostState> = Linker::new(&engine);

        linker
            .func_wrap("env", "print", |caller: Caller<HostState>, value: i32| {
                caller.data().printed.borrow_mut().push(value);
            })
            .unwrap();
        linker
            .func_wrap(
                "env",
                "syscall",
                |_caller: Caller<HostState>, n: i32, a: i32, b: i32, c: i32| -> i32 {
                    jericho_os::wasm_bridge::syscall(n, a, b, c)
                },
            )
            .unwrap();
        linker
            .func_wrap(
                "env",
                "sys_print",
                |caller: Caller<HostState>, ptr: i32, len: i32| {
                    if let Some(mem) = caller.get_export("memory").and_then(Extern::into_memory) {
                        let data = mem.data(&caller);
                        let _ = jericho_os::wasm_bridge::read_guest_bytes(
                            data,
                            ptr as usize,
                            len as usize,
                        );
                    }
                },
            )
            .unwrap();
        linker
            .func_wrap("env", "sys_print_u32", |_caller: Caller<HostState>, _value: u32| {})
            .unwrap();
        linker
            .func_wrap(
                "env",
                "sys_mqtt_subscribe",
                |caller: Caller<HostState>, client_id: u32, tp: i32, tl: i32| -> i32 {
                    let bridge = caller.data().bridge.clone();
                    let mem = match caller.get_export("memory").and_then(Extern::into_memory) {
                        Some(m) => m,
                        None => return -1,
                    };
                    let data = mem.data(&caller);
                    let mut st = bridge.borrow_mut();
                    if st.subscribers.len() >= jericho_os::wasm_bridge::MAX_SUBSCRIBERS {
                        return -1;
                    }
                    jericho_os::wasm_bridge::sys_mqtt_subscribe(
                        &mut st,
                        client_id,
                        tp as usize,
                        tl as usize,
                        data.len(),
                    )
                },
            )
            .unwrap();
        linker
            .func_wrap(
                "env",
                "sys_mqtt_publish",
                |caller: Caller<HostState>, tp: i32, tl: i32, mp: i32, ml: i32| -> i32 {
                    let bridge = caller.data().bridge.clone();
                    let mem = match caller.get_export("memory").and_then(Extern::into_memory) {
                        Some(m) => m,
                        None => return -1,
                    };
                    let data = mem.data(&caller);
                    let mut st = bridge.borrow_mut();
                    jericho_os::wasm_bridge::sys_mqtt_publish(
                        &mut st,
                        data,
                        tp as usize,
                        tl as usize,
                        mp as usize,
                        ml as usize,
                    )
                },
            )
            .unwrap();
        linker
            .func_wrap(
                "env",
                "sys_ipc_send",
                |caller: Caller<HostState>, dest: u32, mp: i32, ml: i32| -> i32 {
                    let caps = caller.data().ctx.capability_count();
                    let bridge = caller.data().bridge.clone();
                    let mem = match caller.get_export("memory").and_then(Extern::into_memory) {
                        Some(m) => m,
                        None => return -1,
                    };
                    let data = mem.data(&caller);
                    let mut st = bridge.borrow_mut();
                    jericho_os::wasm_bridge::sys_ipc_send(
                        &mut st,
                        caps,
                        dest,
                        data,
                        mp as usize,
                        ml as usize,
                    )
                },
            )
            .unwrap();

        let instance = linker.instantiate_and_start(&mut store, &module)?;
        Ok(GuestModule { store, instance })
    }

    fn call_function(&mut self, name: &str, args: &[Val]) -> Result<Option<Val>, String> {
        let func = self
            .instance
            .get_func(&self.store, name)
            .ok_or_else(|| "Function not found".to_string())?;
        let result_count = func.ty(&self.store).results().len();
        let mut results = vec![Val::I32(0); result_count];
        func.call(&mut self.store, args, &mut results)
            .map_err(|e| e.to_string())?;
        Ok(results.into_iter().next())
    }

    fn call_i32(&mut self, name: &str, args: &[Val]) -> Result<i32, String> {
        match self.call_function(name, args)? {
            Some(Val::I32(v)) => Ok(v),
            other => Err(format!("unexpected result {other:?}")),
        }
    }

    fn grant(&mut self, cap: jericho_os::capability::CapabilityId) {
        self.store.data_mut().ctx.grant_capability(cap);
    }
}

fn deliver_pending_messages(
    subscriber: &mut GuestModule,
    bridge: &Rc<RefCell<BridgeState>>,
    client_id: u32,
) -> usize {
    let mut delivered = 0;
    loop {
        let payload = {
            let mut st = bridge.borrow_mut();
            next_delivery(&mut st, client_id)
        };
        let payload = match payload {
            Some(p) => p,
            None => break,
        };
        let mem = match subscriber.instance.get_memory(&subscriber.store, "memory") {
            Some(m) => m,
            None => break,
        };
        let len = payload.len();
        {
            let data = mem.data_mut(&mut subscriber.store);
            if MSG_BUFFER_OFFSET + len > data.len() {
                continue;
            }
            data[MSG_BUFFER_OFFSET..MSG_BUFFER_OFFSET + len].copy_from_slice(&payload);
        }
        match subscriber.call_function(
            "subscriber_receive",
            &[Val::I32(MSG_BUFFER_OFFSET as i32), Val::I32(len as i32)],
        ) {
            Ok(_) => delivered += 1,
            Err(_) => break,
        }
    }
    delivered
}

const COMPUTE_WAT: &str = r#"
(module
  (func (export "add") (param i32 i32) (result i32)
    (i32.add (local.get 0) (local.get 1)))
  (func (export "mul") (param i32 i32) (result i32)
    (i32.mul (local.get 0) (local.get 1)))
  (func $fact (export "factorial") (param i32) (result i32)
    (if (result i32) (i32.le_s (local.get 0) (i32.const 1))
      (then (i32.const 1))
      (else (i32.mul (local.get 0)
                     (call $fact (i32.sub (local.get 0) (i32.const 1))))))))
"#;

const HELLO_WAT: &str = r#"
(module
  (import "env" "print" (func $print (param i32)))
  (func (export "main")
    (call $print (i32.const 42))
    (call $print (i32.const 100))
    (call $print (i32.const 255)))
  (func (export "print_range") (param i32 i32)
    (local i32)
    (local.set 2 (local.get 0))
    (block $exit
      (loop $more
        (br_if $exit (i32.ge_s (local.get 2) (local.get 1)))
        (call $print (local.get 2))
        (local.set 2 (i32.add (local.get 2) (i32.const 1)))
        (br $more)))))
"#;

const BROKER_WAT: &str = r#"
(module
  (memory (export "memory") 1)
  (func (export "broker_init") (result i32) (i32.const 0)))
"#;

const SUBSCRIBER_WAT: &str = r#"
(module
  (import "env" "sys_mqtt_subscribe" (func $sub (param i32 i32 i32) (result i32)))
  (memory (export "memory") 1)
  (data (i32.const 0) "sensors/temp")
  (global $count (mut i32) (i32.const 0))
  (global $lastlen (mut i32) (i32.const 0))
  (func (export "subscriber_init") (param i32) (result i32)
    (call $sub (local.get 0) (i32.const 0) (i32.const 12)))
  (func (export "subscriber_receive") (param i32 i32) (result i32)
    (global.set $count (i32.add (global.get $count) (i32.const 1)))
    (global.set $lastlen (local.get 1))
    (i32.const 0))
  (func (export "received_count") (result i32) (global.get $count))
  (func (export "last_len") (result i32) (global.get $lastlen)))
"#;

const PUBLISHER_WAT: &str = r#"
(module
  (import "env" "sys_mqtt_publish" (func $pub (param i32 i32 i32 i32) (result i32)))
  (memory (export "memory") 1)
  (data (i32.const 0) "sensors/temp")
  (data (i32.const 16) "temp=21C")
  (func (export "publisher_init") (result i32) (i32.const 0))
  (func (export "publisher_run") (result i32)
    (call $pub (i32.const 0) (i32.const 12) (i32.const 16) (i32.const 8))))
"#;

const MALICIOUS_WAT: &str = r#"
(module
  (import "env" "sys_ipc_send" (func $send (param i32 i32 i32) (result i32)))
  (memory (export "memory") 1)
  (data (i32.const 0) "evil")
  (func (export "malicious_init") (result i32) (i32.const 0))
  (func (export "try_unauthorized_ipc") (result i32)
    (call $send (i32.const 1) (i32.const 0) (i32.const 4)))
  (func (export "try_escape_sandbox") (result i32)
    (i32.load (i32.const 99999999)))
  (func $rec (export "try_stack_overflow") (result i32)
    (call $rec)))
"#;

fn fresh_world() -> (Rc<RefCell<BridgeState>>, Rc<RefCell<Vec<i32>>>) {
    (Rc::new(RefCell::new(BridgeState::new())), Rc::new(RefCell::new(Vec::new())))
}

#[test]
fn demo_pure_compute() {
    let (bridge, printed) = fresh_world();
    let mut module = GuestModule::load(COMPUTE_WAT, bridge, printed).unwrap();
    assert_eq!(module.call_i32("add", &[Val::I32(2), Val::I32(3)]).unwrap(), 5);
    assert_eq!(module.call_i32("mul", &[Val::I32(7), Val::I32(6)]).unwrap(), 42);
    assert_eq!(module.call_i32("factorial", &[Val::I32(5)]).unwrap(), 120);
}

#[test]
fn demo_host_print_order() {
    let (bridge, printed) = fresh_world();
    let mut module = GuestModule::load(HELLO_WAT, bridge, printed.clone()).unwrap();
    module.call_function("main", &[]).unwrap();
    assert_eq!(*printed.borrow(), vec![42, 100, 255]);
    module
        .call_function("print_range", &[Val::I32(1), Val::I32(5)])
        .unwrap();
    assert_eq!(*printed.borrow(), vec![42, 100, 255, 1, 2, 3, 4]);
}

#[test]
fn demo_pubsub_five_rounds() {
    let (bridge, printed) = fresh_world();
    let mut broker = GuestModule::load(BROKER_WAT, bridge.clone(), printed.clone()).unwrap();
    let mut subscriber =
        GuestModule::load(SUBSCRIBER_WAT, bridge.clone(), printed.clone()).unwrap();
    let mut publisher = GuestModule::load(PUBLISHER_WAT, bridge.clone(), printed).unwrap();

    assert_eq!(broker.call_i32("broker_init", &[]).unwrap(), 0);
    assert_eq!(subscriber.call_i32("subscriber_init", &[Val::I32(2)]).unwrap(), 0);
    assert_eq!(publisher.call_i32("publisher_init", &[]).unwrap(), 0);

    for _ in 0..5 {
        let recipients = publisher.call_i32("publisher_run", &[]).unwrap();
        assert_eq!(recipients, 1);
        let delivered = deliver_pending_messages(&mut subscriber, &bridge, 2);
        assert_eq!(delivered, 1);
    }
    // The receive export ran exactly five times, always with a payload.
    assert_eq!(subscriber.call_i32("received_count", &[]).unwrap(), 5);
    assert_eq!(subscriber.call_i32("last_len", &[]).unwrap(), 8);
    assert_eq!(bridge.borrow().queue.len(), 0);
}

#[test]
fn demo_capability_denial() {
    let (bridge, printed) = fresh_world();
    let mut malicious = GuestModule::load(MALICIOUS_WAT, bridge.clone(), printed).unwrap();
    assert_eq!(malicious.call_i32("malicious_init", &[]).unwrap(), 0);
    let r = malicious.call_i32("try_unauthorized_ipc", &[]).unwrap();
    assert!(r < 0);
    // The global IPC queue is unchanged.
    assert_eq!(bridge.borrow().queue.len(), 0);
}

#[test]
fn demo_grant_enables_ipc() {
    // Re-entering the instance after a grant observes the new capability.
    let (bridge, printed) = fresh_world();
    let mut module = GuestModule::load(MALICIOUS_WAT, bridge.clone(), printed).unwrap();
    assert!(module.call_i32("try_unauthorized_ipc", &[]).unwrap() < 0);
    module.grant(jericho_os::capability::CapabilityId::new(0));
    assert_eq!(module.call_i32("try_unauthorized_ipc", &[]).unwrap(), 0);
    assert_eq!(bridge.borrow().queue.len(), 1);
    assert_eq!(bridge.borrow().queue[0].message, b"evil".to_vec());
}

#[test]
fn demo_sandbox_containment() {
    let (bridge, printed) = fresh_world();
    let mut malicious = GuestModule::load(MALICIOUS_WAT, bridge, printed).unwrap();

    // The out-of-bounds access traps inside the sandbox.
    assert!(malicious.call_function("try_escape_sandbox", &[]).is_err());
    // Runaway recursion is stopped as well.
    assert!(malicious.call_function("try_stack_overflow", &[]).is_err());
    // The instance stays intact and can be re-entered.
    assert_eq!(malicious.call_i32("malicious_init", &[]).unwrap(), 0);

    // The kernel scheduler stays live: tasks keep switching afterwards.
    let mut sched = Scheduler::new();
    sched.spawn(0x100);
    sched.spawn(0x200);
    sched.begin_first_task();
    let frame = jericho_os::exceptions::frame_from_context(&TaskContext::new());
    sched.switch_task(&frame);
    assert_eq!(sched.current_task, 1);
    sched.switch_task(&frame);
    assert_eq!(sched.current_task, 0);
    assert_eq!(sched.get_switch_count(), 2);
}

const SYSCALL_WAT: &str = r#"
(module
  (import "env" "syscall" (func $sys (param i32 i32 i32 i32) (result i32)))
  (func (export "test_syscall") (result i32)
    (call $sys (i32.const 1) (i32.const 10) (i32.const 20) (i32.const 30))))
"#;

#[test]
fn demo_reserved_syscall_answers_zero() {
    let (bridge, printed) = fresh_world();
    let mut module = GuestModule::load(SYSCALL_WAT, bridge, printed).unwrap();
    assert_eq!(module.call_i32("test_syscall", &[]).unwrap(), 0);
}

#[test]
fn load_rejects_invalid_bytecode() {
    let engine = Engine::default();
    let garbage: [u8; 6] = [1, 2, 3, 4, 5, 6];
    assert!(Module::new(&engine, &garbage[..]).is_err());
}
