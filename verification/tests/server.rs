use sensor_node::server::{
    server_config, Config, Timeouts, WorkerSlot, HTTP_BUFFER_SIZE, HTTP_PORT, POOL_SIZE,
    TCP_RX_BUFFER_SIZE, TCP_TX_BUFFER_SIZE,
};

#[test]
fn pool_has_eight_workers_on_port_eighty() {
    assert_eq!(POOL_SIZE, 8);
    assert_eq!(HTTP_PORT, 80);
}

#[test]
fn slot_owns_zeroed_buffers_of_the_fixed_sizes() {
    let slot = WorkerSlot::new(3);
    assert_eq!(slot.id, 3);
    assert_eq!(slot.port, 80);
    assert_eq!(slot.tcp_rx_buffer.len(), 1024);
    assert_eq!(slot.tcp_tx_buffer.len(), 1024);
    assert_eq!(slot.http_buffer.len(), 2048);
    assert_eq!((TCP_RX_BUFFER_SIZE, TCP_TX_BUFFER_SIZE, HTTP_BUFFER_SIZE), (1024, 1024, 2048));
    assert!(slot.tcp_rx_buffer.iter().all(|byte| *byte == 0));
    assert!(slot.tcp_tx_buffer.iter().all(|byte| *byte == 0));
    assert!(slot.http_buffer.iter().all(|byte| *byte == 0));
}

#[test]
fn writing_to_one_slot_leaves_the_others_alone() {
    let mut slots: Vec<WorkerSlot> = (0..POOL_SIZE).map(WorkerSlot::new).collect();
    slots[2].tcp_rx_buffer[0] = 0xaa;
    slots[2].tcp_tx_buffer[1023] = 0xbb;
    slots[2].http_buffer[2047] = 0xcc;
    for slot in &slots {
        if slot.id == 2 {
            continue;
        }
        assert!(slot.tcp_rx_buffer.iter().all(|byte| *byte == 0));
        assert!(slot.tcp_tx_buffer.iter().all(|byte| *byte == 0));
        assert!(slot.http_buffer.iter().all(|byte| *byte == 0));
    }
    assert_eq!(slots[2].tcp_rx_buffer[0], 0xaa);
}

#[test]
fn node_configuration() {
    let config = server_config();
    assert_eq!(
        config,
        Config {
            timeouts: Timeouts {
                start_read_request: 5,
                persistent_start_read_request: 1,
                read_request: 1,
                write: 1,
            },
            keep_alive: true,
        }
    );
}

#[test]
fn new_configuration_closes_until_told_otherwise() {
    let timeouts = Timeouts {
        start_read_request: 9,
        persistent_start_read_request: 8,
        read_request: 7,
        write: 6,
    };
    let config = Config::new(timeouts);
    assert!(!config.keep_alive);
    assert_eq!(config.timeouts, timeouts);
    let kept = config.keep_connection_alive();
    assert!(kept.keep_alive);
    assert_eq!(kept.timeouts, timeouts);
}
