use sid_device::discovery::{detect_packet, discovery_response, is_valid_packet, os_description,
    Client, MAX_DATA_SIZE};

fn padded(bytes: &[u8]) -> Vec<u8> {
    let mut buffer = vec![0u8; MAX_DATA_SIZE];
    buffer[..bytes.len()].copy_from_slice(bytes);
    buffer
}

#[test]
fn magic_packet_is_detected() {
    let buffer = padded(b"SidDevice");
    assert!(is_valid_packet(&buffer));
    assert!(detect_packet(&buffer, 9));
    assert!(detect_packet(&buffer, 300));
}

#[test]
fn short_or_wrong_packets_are_ignored() {
    let buffer = padded(b"SidDevice");
    assert!(!detect_packet(&buffer, 8));
    let buffer = padded(b"SidDevicx");
    assert!(!is_valid_packet(&buffer));
    assert!(!detect_packet(&buffer, 9));
    let buffer = padded(b"sidDevice");
    assert!(!detect_packet(&buffer, 9));
}

#[test]
fn response_names_host_and_os() {
    let r = discovery_response(&b"myhost".to_vec(), &b"Linux 6.1 64-bit".to_vec());
    assert_eq!(r, b"SidDevice,myhost,Linux 6.1 64-bit".to_vec());
}

#[test]
fn os_description_prefers_the_edition() {
    let r = os_description(
        &Some(b"Ubuntu 24.04".to_vec()),
        &b"Linux".to_vec(),
        &b"6.1".to_vec(),
        &b"64-bit".to_vec(),
    );
    assert_eq!(r, b"Ubuntu 24.04 64-bit".to_vec());
    let r = os_description(&None, &b"Linux".to_vec(), &b"6.1".to_vec(), &b"64-bit".to_vec());
    assert_eq!(r, b"Linux 6.1 64-bit".to_vec());
}

#[test]
fn client_carries_its_address() {
    let client = Client { ip_address: String::from("192.168.1.2"), port: 6581 };
    assert_eq!(client.ip_address, "192.168.1.2");
    assert_eq!(client.port, 6581);
}
