use code_executor::status::{clean_exit, exit_code, exit_signal};
use code_executor::text::{is_space, trim_end};
use code_executor::{
    classify, get_default_rusage, Duration, ErrorKind, ExitStatus, Metrics, Output, RaceWinner,
    RawRusage, Rusage, Timeval,
};

fn usage(user: (i64, i64), system: (i64, i64)) -> RawRusage {
    RawRusage {
        ru_utime: Timeval::new(user.0, user.1).unwrap(),
        ru_stime: Timeval::new(system.0, system.1).unwrap(),
        ru_maxrss: 2048,
        ru_majflt: 3,
        ru_nvcsw: 5,
        ru_nivcsw: 7,
    }
}

#[test]
fn exit_code_is_the_second_byte() {
    assert_eq!(exit_code(0), 0);
    assert_eq!(exit_code(256), 1);
    assert_eq!(exit_code(100 << 8), 100);
    assert_eq!(exit_code(255 << 8), 255);
    assert_eq!(exit_code(9), 0);
    assert_eq!(exit_code((3 << 8) | 0x7f), 3);
}

#[test]
fn exit_signal_is_the_low_seven_bits() {
    assert_eq!(exit_signal(0), 0);
    assert_eq!(exit_signal(9), 9);
    assert_eq!(exit_signal(256 + 9), 9);
    assert_eq!(exit_signal(0x80 | 11), 11);
    assert_eq!(exit_signal(1 << 8), 0);
}

#[test]
fn decoders_agree_with_libc() {
    for status in [0, 1, 9, 14, 256, 0x7f, 0x8b, 0x100, 0x6400, 0xff00, 0xffff, -1, i32::MAX, i32::MIN] {
        assert_eq!(exit_code(status), nix::libc::WEXITSTATUS(status));
        assert_eq!(exit_signal(status), nix::libc::WTERMSIG(status));
        assert_eq!(
            clean_exit(status),
            nix::libc::WIFEXITED(status) && nix::libc::WEXITSTATUS(status) == 0
        );
    }
}

#[test]
fn clean_exit_needs_code_zero_and_no_signal() {
    assert!(clean_exit(0));
    assert!(!clean_exit(1 << 8));
    assert!(!clean_exit(9));
    assert!(!clean_exit(0x7f));
}

#[test]
fn white_space_is_blank_and_tab_to_carriage_return() {
    for byte in 0..=255u8 {
        let expected = byte == b' ' || (9..=13).contains(&byte);
        assert_eq!(is_space(byte), expected, "byte {}", byte);
    }
}

#[test]
fn trim_end_removes_only_trailing_white_space() {
    assert_eq!(trim_end(b"7\n"), b"7".to_vec());
    assert_eq!(trim_end(b"  a b \t\r\n\x0b\x0c "), b"  a b".to_vec());
    assert_eq!(trim_end(b""), Vec::<u8>::new());
    assert_eq!(trim_end(b" \n\t"), Vec::<u8>::new());
    assert_eq!(trim_end(b"no space"), b"no space".to_vec());
    assert_eq!(trim_end(b"\n lead"), b"\n lead".to_vec());
    assert_eq!(trim_end(b"nul\0 "), b"nul\0".to_vec());
}

#[test]
fn trim_end_twice_is_trim_end_once() {
    let once = trim_end(b"hello world \n\n");
    assert_eq!(trim_end(&once), once);
}

#[test]
fn classify_follows_the_three_rules() {
    assert_eq!(classify(RaceWinner::Completion, 0, 0), ExitStatus::Success);
    assert_eq!(classify(RaceWinner::Completion, 0, 4), ExitStatus::RuntimeError);
    assert_eq!(classify(RaceWinner::Completion, 1 << 8, 0), ExitStatus::RuntimeError);
    assert_eq!(classify(RaceWinner::Completion, 11, 0), ExitStatus::RuntimeError);
    assert_eq!(classify(RaceWinner::Deadline, 0, 0), ExitStatus::Timeout);
    assert_eq!(classify(RaceWinner::Deadline, 9, 10), ExitStatus::Timeout);
}

#[test]
fn exit_status_from_raw_status() {
    assert_eq!(ExitStatus::from_raw(0), ExitStatus::Success);
    assert_eq!(ExitStatus::from_raw(2 << 8), ExitStatus::RuntimeError);
    assert_eq!(ExitStatus::from_raw(15), ExitStatus::RuntimeError);
}

#[test]
fn addition_program_succeeds_with_trimmed_output() {
    let metrics = Metrics::collect(
        RaceWinner::Completion,
        0,
        usage((0, 1500), (0, 250)),
        Duration::from_millis(12),
        b"7\n".to_vec(),
        Vec::new(),
    );
    assert_eq!(metrics.exit_status, ExitStatus::Success);
    assert_eq!(metrics.stdout, b"7".to_vec());
    assert!(metrics.stderr.is_empty());
    assert_eq!(metrics.exit_code, 0);
    assert_eq!(metrics.exit_signal, 0);
    assert_eq!(metrics.run_time, Duration::from_millis(12));
}

#[test]
fn fixed_string_program_succeeds() {
    for text in ["hello", "hello\n", "a b c  \r\n", "", "\n"] {
        let metrics = Metrics::collect(
            RaceWinner::Completion,
            0,
            get_default_rusage(),
            Duration::zero(),
            text.as_bytes().to_vec(),
            Vec::new(),
        );
        assert_eq!(metrics.exit_status, ExitStatus::Success);
        assert_eq!(metrics.stdout, text.trim_end().as_bytes().to_vec());
    }
}

#[test]
fn stderr_output_demotes_a_clean_exit() {
    let metrics = Metrics::collect(
        RaceWinner::Completion,
        0,
        get_default_rusage(),
        Duration::from_secs(1),
        b"ok".to_vec(),
        b"warn".to_vec(),
    );
    assert_eq!(metrics.exit_status, ExitStatus::RuntimeError);
    assert_eq!(metrics.exit_code, 0);
    assert_eq!(metrics.stdout, b"ok".to_vec());
    assert_eq!(metrics.stderr, b"warn".to_vec());
}

#[test]
fn failing_exit_is_a_runtime_error_whatever_stdout_holds() {
    for stdout in [&b""[..], b"fine\n", b"7"] {
        let metrics = Metrics::collect(
            RaceWinner::Completion,
            3 << 8,
            get_default_rusage(),
            Duration::zero(),
            stdout.to_vec(),
            Vec::new(),
        );
        assert_eq!(metrics.exit_status, ExitStatus::RuntimeError);
        assert_eq!(metrics.exit_code, 3);
        assert_eq!(metrics.stdout, stdout.to_vec());
    }
}

#[test]
fn signal_death_is_a_runtime_error() {
    let metrics = Metrics::collect(
        RaceWinner::Completion,
        11,
        get_default_rusage(),
        Duration::zero(),
        b"partial ".to_vec(),
        Vec::new(),
    );
    assert_eq!(metrics.exit_status, ExitStatus::RuntimeError);
    assert_eq!(metrics.exit_signal, 11);
    assert_eq!(metrics.stdout, b"partial ".to_vec());
}

#[test]
fn timeout_discards_captured_output() {
    let metrics = Metrics::collect(
        RaceWinner::Deadline,
        9,
        get_default_rusage(),
        Duration::from_secs(2),
        b"partial".to_vec(),
        b"noise".to_vec(),
    );
    assert_eq!(metrics.exit_status, ExitStatus::Timeout);
    assert!(metrics.stdout.is_empty());
    assert!(metrics.stderr.is_empty());
    assert_eq!(metrics.exit_signal, 9);
    assert_eq!(metrics.run_time.as_secs(), 2);
}

#[test]
fn timeout_wins_over_a_clean_status() {
    let metrics = Metrics::collect(
        RaceWinner::Deadline,
        0,
        get_default_rusage(),
        Duration::from_secs(2),
        Vec::new(),
        Vec::new(),
    );
    assert_eq!(metrics.exit_status, ExitStatus::Timeout);
}

#[test]
fn rusage_converts_timevals_and_keeps_counters() {
    let report = Rusage::from(usage((3, 250_000), (0, 999_999)));
    assert_eq!(report.user_time.as_secs(), 3);
    assert_eq!(report.user_time.subsec_nanos(), 250_000_000);
    assert_eq!(report.system_time.as_secs(), 0);
    assert_eq!(report.system_time.subsec_nanos(), 999_999_000);
    assert_eq!(report.max_rss, 2048);
    assert_eq!(report.page_faults, 3);
    assert_eq!(report.voluntary_context_switches, 5);
    assert_eq!(report.involuntary_context_switches, 7);
}

#[test]
fn metrics_carry_the_resource_usage() {
    let metrics = Metrics::collect(
        RaceWinner::Completion,
        0,
        usage((1, 2), (3, 4)),
        Duration::zero(),
        Vec::new(),
        Vec::new(),
    );
    assert_eq!(metrics.resource_usage, Rusage::from(usage((1, 2), (3, 4))));
    assert_eq!(metrics.resource_usage.user_time.subsec_nanos(), 2_000);
    assert_eq!(metrics.resource_usage.system_time.as_secs(), 3);
}

#[test]
fn default_rusage_is_all_zero() {
    let raw = get_default_rusage();
    assert_eq!(raw.ru_utime.sec(), 0);
    assert_eq!(raw.ru_utime.usec(), 0);
    assert_eq!(raw.ru_stime.sec(), 0);
    assert_eq!(raw.ru_stime.usec(), 0);
    assert_eq!(raw.ru_maxrss, 0);
    assert_eq!(raw.ru_majflt, 0);
    assert_eq!(raw.ru_nvcsw, 0);
    assert_eq!(raw.ru_nivcsw, 0);
    assert_eq!(Rusage::from(raw), Rusage::default());
    assert!(Rusage::default().user_time.is_zero());
}

#[test]
fn timeval_rejects_malformed_parts() {
    assert!(Timeval::new(0, 0).is_some());
    assert!(Timeval::new(i64::MAX, 999_999).is_some());
    assert!(Timeval::new(-1, 0).is_none());
    assert!(Timeval::new(0, -1).is_none());
    assert!(Timeval::new(0, 1_000_000).is_none());
    let tv = Timeval::new(5, 6).unwrap();
    assert_eq!((tv.sec(), tv.usec()), (5, 6));
    assert_eq!(tv.to_duration().as_secs(), 5);
    assert_eq!(tv.to_duration().subsec_nanos(), 6_000);
}

#[test]
fn output_default_is_an_empty_compile_error() {
    assert!(matches!(Output::default(), Output::CompileTimeError(text) if text.is_empty()));
}

#[test]
fn output_from_streams_prefers_stderr() {
    let output = Output::from_streams(b"ok", b"warn".to_vec()).unwrap();
    assert!(matches!(output, Output::RunTimeError(text) if text == "warn"));
}

#[test]
fn output_from_streams_trims_stdout() {
    let output = Output::from_streams("sum: 7 \u{e9}\n\n".as_bytes(), Vec::new()).unwrap();
    assert!(matches!(output, Output::Success(text) if text == "sum: 7 \u{e9}"));
    let empty = Output::from_streams(b" \n", Vec::new()).unwrap();
    assert!(matches!(empty, Output::Success(text) if text.is_empty()));
}

#[test]
fn output_from_streams_rejects_invalid_utf8() {
    let bad_stdout = Output::from_streams(&[0xff, 0xfe], Vec::new()).unwrap_err();
    assert_eq!(bad_stdout.kind(), ErrorKind::IO);
    let bad_stderr = Output::from_streams(b"fine", vec![0xc3]).unwrap_err();
    assert_eq!(bad_stderr.kind(), ErrorKind::IO);
    let ignored_stdout = Output::from_streams(&[0xff], b"e".to_vec()).unwrap();
    assert!(matches!(ignored_stdout, Output::RunTimeError(text) if text == "e"));
}

#[test]
fn reports_of_interleaved_executions_do_not_mix() {
    let inputs: Vec<(Vec<u8>, Vec<u8>, i32)> = (0..16u8)
        .map(|n| {
            let stdout = format!("result {}\n", n).into_bytes();
            let stderr = if n % 3 == 0 { format!("warn {}", n).into_bytes() } else { Vec::new() };
            (stdout, stderr, if n % 5 == 0 { (n as i32) << 8 } else { 0 })
        })
        .collect();
    let reports: Vec<Metrics> = inputs
        .iter()
        .map(|(stdout, stderr, status)| {
            Metrics::collect(
                RaceWinner::Completion,
                *status,
                get_default_rusage(),
                Duration::zero(),
                stdout.clone(),
                stderr.clone(),
            )
        })
        .collect();
    for (n, report) in reports.iter().enumerate() {
        let (stdout, stderr, status) = &inputs[n];
        let failed = !stderr.is_empty() || *status != 0;
        if failed {
            assert_eq!(report.exit_status, ExitStatus::RuntimeError);
            assert_eq!(&report.stdout, stdout);
        } else {
            assert_eq!(report.exit_status, ExitStatus::Success);
            assert_eq!(report.stdout, format!("result {}", n).into_bytes());
        }
        assert_eq!(&report.stderr, stderr);
        assert_eq!(report.exit_code, status >> 8);
    }
}
