use jericho_os::capability::CapabilityId;
use jericho_os::wasm_bridge::{
    check_guest_bounds, clear_ipc_queue, next_delivery, pending_message_count, read_guest_bytes,
    sys_ipc_send, sys_mqtt_publish, sys_mqtt_subscribe, syscall, BridgeState, WasmContext,
    MAX_DELIVERY_BYTES,
};

fn guest_memory() -> Vec<u8> {
    (0u8..64).collect()
}

#[test]
fn bounds_check_is_exact() {
    assert!(check_guest_bounds(0, 64, 64));
    assert!(check_guest_bounds(63, 1, 64));
    assert!(!check_guest_bounds(63, 2, 64));
    assert!(!check_guest_bounds(64, 1, 64));
    assert!(check_guest_bounds(64, 0, 64));
    // Huge values must not wrap around.
    assert!(!check_guest_bounds(usize::MAX, 2, 64));
    assert!(!check_guest_bounds(2, usize::MAX, 64));
}

#[test]
fn read_guest_bytes_is_bounds_checked() {
    let mem = guest_memory();
    let got = read_guest_bytes(&mem, 3, 4).unwrap();
    assert_eq!(got, vec![3, 4, 5, 6]);
    assert_eq!(read_guest_bytes(&mem, 60, 5), None);
    assert_eq!(read_guest_bytes(&mem, usize::MAX, 1), None);
    assert_eq!(read_guest_bytes(&mem, 0, 0).unwrap(), Vec::<u8>::new());
}

#[test]
fn syscall_is_reserved() {
    assert_eq!(syscall(1, 2, 3, 4), 0);
}

#[test]
fn subscribe_is_bounds_checked_and_dedups() {
    let mut st = BridgeState::new();
    // Out-of-bounds topic: refused, nothing registered.
    assert_eq!(sys_mqtt_subscribe(&mut st, 2, 60, 10, 64), -1);
    assert!(st.subscribers.is_empty());

    assert_eq!(sys_mqtt_subscribe(&mut st, 2, 0, 12, 64), 0);
    assert_eq!(sys_mqtt_subscribe(&mut st, 5, 0, 12, 64), 0);
    assert_eq!(sys_mqtt_subscribe(&mut st, 2, 0, 12, 64), 0);
    assert_eq!(st.subscribers, vec![2, 5]);
}

#[test]
fn publish_fans_out_to_snapshot() {
    let mut st = BridgeState::new();
    let mem = guest_memory();
    sys_mqtt_subscribe(&mut st, 2, 0, 4, 64);
    sys_mqtt_subscribe(&mut st, 9, 0, 4, 64);

    // Out-of-bounds message: refused, nothing queued.
    assert_eq!(sys_mqtt_publish(&mut st, &mem, 0, 4, 60, 8), -1);
    assert_eq!(st.queue.len(), 0);
    // Out-of-bounds topic: refused as well.
    assert_eq!(sys_mqtt_publish(&mut st, &mem, 62, 4, 0, 8), -1);
    assert_eq!(st.queue.len(), 0);

    let recipients = sys_mqtt_publish(&mut st, &mem, 0, 4, 10, 3);
    assert_eq!(recipients, 2);
    assert_eq!(st.queue.len(), 2);
    assert_eq!(st.queue[0].dest_client_id, 2);
    assert_eq!(st.queue[1].dest_client_id, 9);
    assert_eq!(st.queue[0].message, vec![10, 11, 12]);
    assert_eq!(st.queue[1].message, vec![10, 11, 12]);

    // Publishing with no subscribers reaches nobody.
    let mut empty = BridgeState::new();
    assert_eq!(sys_mqtt_publish(&mut empty, &mem, 0, 4, 10, 3), 0);
    assert_eq!(empty.queue.len(), 0);
}

#[test]
fn ipc_send_requires_a_capability() {
    // An instance with an empty capability list has no ambient authority:
    // the send is refused and nothing is queued.
    let mut st = BridgeState::new();
    let mem = guest_memory();
    assert_eq!(sys_ipc_send(&mut st, 0, 7, &mem, 0, 4), -1);
    assert_eq!(st.queue.len(), 0);

    // With a capability the same call succeeds.
    assert_eq!(sys_ipc_send(&mut st, 1, 7, &mem, 0, 4), 0);
    assert_eq!(st.queue.len(), 1);
    assert_eq!(st.queue[0].dest_client_id, 7);
    assert_eq!(st.queue[0].message, vec![0, 1, 2, 3]);
}

#[test]
fn ipc_send_is_bounds_checked() {
    let mut st = BridgeState::new();
    let mem = guest_memory();
    assert_eq!(sys_ipc_send(&mut st, 1, 7, &mem, 62, 4), -1);
    assert_eq!(st.queue.len(), 0);
    assert_eq!(sys_ipc_send(&mut st, 1, 7, &mem, usize::MAX, 1), -1);
    assert_eq!(st.queue.len(), 0);
}

#[test]
fn delivery_takes_oldest_per_client_and_keeps_others() {
    let mut st = BridgeState::new();
    let mem = guest_memory();
    sys_ipc_send(&mut st, 1, 2, &mem, 0, 2); // [0, 1] for client 2
    sys_ipc_send(&mut st, 1, 9, &mem, 2, 2); // [2, 3] for client 9
    sys_ipc_send(&mut st, 1, 2, &mem, 4, 2); // [4, 5] for client 2

    assert_eq!(pending_message_count(&st, 2), 2);
    assert_eq!(pending_message_count(&st, 9), 1);
    assert_eq!(pending_message_count(&st, 5), 0);

    assert_eq!(next_delivery(&mut st, 2).unwrap(), vec![0, 1]);
    assert_eq!(next_delivery(&mut st, 2).unwrap(), vec![4, 5]);
    assert_eq!(next_delivery(&mut st, 2), None);
    assert_eq!(next_delivery(&mut st, 9).unwrap(), vec![2, 3]);
    assert_eq!(next_delivery(&mut st, 9), None);
}

#[test]
fn delivery_clips_payload_to_limit() {
    let mut st = BridgeState::new();
    let mem = vec![7u8; 1000];
    sys_ipc_send(&mut st, 1, 4, &mem, 0, 1000);
    let delivered = next_delivery(&mut st, 4).unwrap();
    assert_eq!(delivered.len(), MAX_DELIVERY_BYTES);
    assert!(delivered.iter().all(|b| *b == 7));
}

#[test]
fn clear_queue_drops_everything() {
    let mut st = BridgeState::new();
    let mem = guest_memory();
    sys_ipc_send(&mut st, 1, 1, &mem, 0, 4);
    sys_ipc_send(&mut st, 1, 2, &mem, 0, 4);
    clear_ipc_queue(&mut st);
    assert_eq!(st.queue.len(), 0);
    assert_eq!(pending_message_count(&st, 1), 0);
}

#[test]
fn wasm_context_tracks_grants() {
    let mut ctx = WasmContext::new(Vec::new());
    assert_eq!(ctx.capability_count(), 0);
    ctx.grant_capability(CapabilityId::new(1));
    ctx.grant_capability(CapabilityId::new(2));
    assert_eq!(ctx.capability_count(), 2);
    assert_eq!(ctx.capabilities, vec![CapabilityId::new(1), CapabilityId::new(2)]);
}
