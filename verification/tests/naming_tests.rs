use loadgen::naming;

#[test]
fn decimal_rendering_is_exact() {
    assert_eq!(naming::u64_to_decimal(0), "0");
    assert_eq!(naming::u64_to_decimal(7), "7");
    assert_eq!(naming::u64_to_decimal(42), "42");
    assert_eq!(naming::u64_to_decimal(255), "255");
    assert_eq!(naming::u64_to_decimal(1000), "1000");
    assert_eq!(naming::u64_to_decimal(u64::MAX), "18446744073709551615");
}

#[test]
fn names_carry_prefix_and_suffix() {
    assert_eq!(naming::client_name(7), "Client-7");
    assert_eq!(naming::thread_name(3), "Thread-3");
    assert_eq!(naming::server_name(12345), "Server-12345");
    assert_eq!(naming::client_name(0), "Client-0");
    assert_eq!(naming::server_name(u32::MAX), "Server-4294967295");
}

#[test]
fn generated_names_have_their_prefixes() {
    let c = naming::generate_client_name();
    assert!(c.starts_with("Client-"));
    let suffix: u64 = c["Client-".len()..].parse().unwrap();
    assert!(suffix < 256);

    let t = naming::generate_thread_name();
    assert!(t.starts_with("Thread-"));

    let s = naming::generate_server_name();
    assert!(s.starts_with("Server-"));
}
