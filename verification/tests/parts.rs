use udp_echo::config::{ExchangeConfig, BUFFER_CAPACITY, DATAGRAM_CAPACITY, ECHO_PORT};
use udp_echo::decimal::{push_decimal, to_decimal};
use udp_echo::driver::{blank_buffer, copy_bytes, copy_leading};
use udp_echo::endpoint::{Endpoint, Ipv4};
use udp_echo::failure::{FailureClass, IoFailure, Stage};
use udp_echo::harness::{first, verdict, Course, Verdict};
use udp_echo::report::{recv_line, send_line};
use udp_echo::variant::{Disposition, Variant, WORKER_THREADS};

#[test]
fn standard_config_is_loopback_and_example_com() {
    let config = ExchangeConfig::standard();
    assert_eq!(
        config,
        ExchangeConfig {
            local: Endpoint { host: Ipv4(127, 0, 0, 1), port: 0 },
            target: Endpoint { host: Ipv4(127, 0, 0, 1), port: 10000 },
            payload: b"example.com".to_vec(),
            capacity: 1024,
        }
    );
    assert_eq!(config.payload.len(), 11);
    assert_eq!(ECHO_PORT, 10000);
    assert_eq!(BUFFER_CAPACITY, 1024);
    assert_eq!(DATAGRAM_CAPACITY, 65535);
}

#[test]
fn endpoint_text_is_dotted_host_and_port() {
    assert_eq!(Endpoint::loopback(0).text(), "127.0.0.1:0");
    assert_eq!(Endpoint::loopback(ECHO_PORT).text(), "127.0.0.1:10000");
    assert_eq!(Endpoint { host: Ipv4(0, 10, 200, 255), port: 65535 }.text(), "0.10.200.255:65535");
}

#[test]
fn decimal_text_of_numbers() {
    assert_eq!(to_decimal(0), "0");
    assert_eq!(to_decimal(7), "7");
    assert_eq!(to_decimal(10), "10");
    assert_eq!(to_decimal(1234567890), "1234567890");
    assert_eq!(to_decimal(u128::MAX), "340282366920938463463374607431768211455");
    let mut text = String::from("n=");
    push_decimal(&mut text, 409);
    assert_eq!(text, "n=409");
}

#[test]
fn report_lines_name_the_variant_and_the_microseconds() {
    assert_eq!(send_line(Variant::Blocking, 0), "std send: 0us");
    assert_eq!(recv_line(Variant::Blocking, 15), "std recv: 15us\n");
    assert_eq!(send_line(Variant::MultiThreaded, 120), "tokio send: 120us");
    assert_eq!(recv_line(Variant::MultiThreaded, 9), "tokio recv: 9us\n");
    assert_eq!(send_line(Variant::LocalBorrowing, 1000000), "glommio send: 1000000us");
    assert_eq!(recv_line(Variant::LocalBorrowing, 1), "glommio recv: 1us\n");
    assert_eq!(send_line(Variant::LocalLoaning, 33), "monoio send: 33us");
    assert_eq!(recv_line(Variant::LocalLoaning, 1234567), "monoio recv: 1234567us\n");
}

#[test]
fn variants_have_their_labels_and_their_order() {
    assert_eq!(Variant::Blocking.label(), "std");
    assert_eq!(Variant::MultiThreaded.label(), "tokio");
    assert_eq!(Variant::LocalBorrowing.label(), "glommio");
    assert_eq!(Variant::LocalLoaning.label(), "monoio");
    assert_eq!(first(), Variant::Blocking);
    assert_eq!(Variant::Blocking.successor(), Some(Variant::MultiThreaded));
    assert_eq!(Variant::MultiThreaded.successor(), Some(Variant::LocalBorrowing));
    assert_eq!(Variant::LocalBorrowing.successor(), Some(Variant::LocalLoaning));
    assert_eq!(Variant::LocalLoaning.successor(), None);
}

#[test]
fn variants_differ_in_workers_and_failures() {
    assert_eq!(WORKER_THREADS, 1);
    assert_eq!(Variant::Blocking.workers(), None);
    assert_eq!(Variant::MultiThreaded.workers(), Some(1));
    assert_eq!(Variant::LocalBorrowing.workers(), None);
    assert_eq!(Variant::LocalLoaning.workers(), None);
    assert_eq!(Variant::Blocking.disposition(), Disposition::Propagate);
    assert_eq!(Variant::MultiThreaded.disposition(), Disposition::LogAndContinue);
    assert_eq!(Variant::LocalBorrowing.disposition(), Disposition::LogAndContinue);
    assert_eq!(Variant::LocalLoaning.disposition(), Disposition::LogAndContinue);
    assert!(!Variant::Blocking.reports_failed_receive());
    assert!(!Variant::MultiThreaded.reports_failed_receive());
    assert!(!Variant::LocalBorrowing.reports_failed_receive());
    assert!(Variant::LocalLoaning.reports_failed_receive());
}

#[test]
fn blocking_failure_ends_the_harness() {
    let failure = IoFailure { stage: Stage::Receive, class: FailureClass::Refused };
    assert_eq!(
        verdict(Variant::Blocking, Some(failure)),
        Verdict { log: None, course: Course::Exit(Err(failure)) }
    );
}

#[test]
fn scheduled_failures_are_logged_and_the_harness_goes_on() {
    let failure = IoFailure { stage: Stage::Send, class: FailureClass::Other };
    assert_eq!(
        verdict(Variant::MultiThreaded, Some(failure)),
        Verdict { log: Some(failure), course: Course::Run(Variant::LocalBorrowing) }
    );
    assert_eq!(
        verdict(Variant::LocalBorrowing, Some(failure)),
        Verdict { log: Some(failure), course: Course::Run(Variant::LocalLoaning) }
    );
    assert_eq!(
        verdict(Variant::LocalLoaning, Some(failure)),
        Verdict { log: Some(failure), course: Course::Exit(Ok(())) }
    );
}

#[test]
fn successes_run_all_four_and_exit_clean() {
    assert_eq!(
        verdict(Variant::Blocking, None),
        Verdict { log: None, course: Course::Run(Variant::MultiThreaded) }
    );
    assert_eq!(
        verdict(Variant::MultiThreaded, None),
        Verdict { log: None, course: Course::Run(Variant::LocalBorrowing) }
    );
    assert_eq!(
        verdict(Variant::LocalBorrowing, None),
        Verdict { log: None, course: Course::Run(Variant::LocalLoaning) }
    );
    assert_eq!(
        verdict(Variant::LocalLoaning, None),
        Verdict { log: None, course: Course::Exit(Ok(())) }
    );
}

#[test]
fn buffers_are_blank_and_copies_are_exact() {
    assert_eq!(blank_buffer(0), Vec::<u8>::new());
    assert_eq!(blank_buffer(3), vec![0u8, 0, 0]);
    assert_eq!(blank_buffer(BUFFER_CAPACITY), vec![0u8; 1024]);
    assert_eq!(copy_bytes(&vec![5u8, 6, 7]), vec![5u8, 6, 7]);
    assert_eq!(copy_leading(&vec![5u8, 6, 7], 0), Vec::<u8>::new());
    assert_eq!(copy_leading(&vec![5u8, 6, 7], 2), vec![5u8, 6]);
    assert_eq!(copy_leading(&vec![5u8, 6, 7], 3), vec![5u8, 6, 7]);
    assert_eq!(copy_leading(&vec![5u8, 6, 7], 9), vec![5u8, 6, 7]);
}
