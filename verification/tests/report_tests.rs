use linux_kernel_monitor::cli::frame_response;
use linux_kernel_monitor::ctl::{
    request_line, response_lines, validate_metric, validate_state, Request, RequestError,
};
use linux_kernel_monitor::cli::{parse_args, CliCommand, Command};
use linux_kernel_monitor::metric::{MetricState, MetricType};
use linux_kernel_monitor::report::{
    all_stopped, already_running, already_stopped, disabled, enabled_set, enabled_unchanged,
    halted, in_state, join3, join5, join_failed, none_in_state, rate_set, rate_unchanged,
    running_with_rate, saved, started, stopped, store_report, StoreOutcome,
};

#[test]
fn report_lines() {
    assert_eq!(started(MetricType::CPU, 5), "Metric 'cpu' started with rate '5'");
    assert_eq!(stopped(MetricType::Memory), "Metric 'memory' stopped");
    assert_eq!(join_failed(), "Error while joining thread");
    assert_eq!(already_running(MetricType::IO), "Metric 'io' already running");
    assert_eq!(running_with_rate(MetricType::CPU, 255), "'cpu' metric already running with rate '255'");
    assert_eq!(rate_set(MetricType::CPU, 0), "'cpu' metric 'rate' is set to '0'");
    assert_eq!(rate_unchanged(MetricType::IO, 10), "'io' metric 'rate' is is already '10'");
    assert_eq!(enabled_set(MetricType::Memory, false), "'memory' metric 'enabled' is set to 'false'");
    assert_eq!(enabled_unchanged(MetricType::Memory, true), "'memory' metric 'enabled' is is already 'true'");
    assert_eq!(already_stopped(MetricType::CPU), "Metric 'cpu' already stopped");
    assert_eq!(disabled(MetricType::CPU), "Metric 'cpu' disabled");
    assert_eq!(all_stopped(), "All metrics already stopped");
    assert_eq!(
        in_state(MetricType::IO, MetricState::Initialized, 1),
        "Metric 'io' is in state 'initialized' rate '1'"
    );
    assert_eq!(none_in_state(MetricState::Stopped), "No metrics in state 'stopped'");
    assert_eq!(saved(), "Config successfully saved");
}

#[test]
fn halted_line_follows_the_join() {
    assert_eq!(halted(MetricType::CPU, true), "Metric 'cpu' stopped");
    assert_eq!(halted(MetricType::CPU, false), "Error while joining thread");
}

#[test]
fn store_line_follows_the_outcome() {
    assert_eq!(store_report(&StoreOutcome::Saved), "Config successfully saved");
    assert_eq!(
        store_report(&StoreOutcome::CreateFailed(String::from("denied"))),
        "Error: failed to create config file: denied"
    );
    assert_eq!(
        store_report(&StoreOutcome::SerializeFailed(String::from("bad value"))),
        "Error: failed to serialize config file: bad value"
    );
    assert_eq!(
        store_report(&StoreOutcome::WriteFailed(String::from("disk full"))),
        "Error: failed to write config file: disk full"
    );
}

#[test]
fn joins() {
    assert_eq!(join3("a", "", "c"), "ac");
    assert_eq!(join5("1", "2", "3", "4", "5"), "12345");
}

#[test]
fn validators() {
    for m in ["cpu", "memory", "io"] {
        assert_eq!(validate_metric(m), Ok(String::from(m)));
    }
    assert_eq!(
        validate_metric("disk"),
        Err(String::from("Invalid metric: 'disk'. Allowed values are: [\"cpu\", \"memory\", \"io\"]"))
    );
    assert_eq!(
        validate_metric("none"),
        Err(format!("Invalid metric: '{}'. Allowed values are: {:?}", "none", vec!["cpu", "memory", "io"]))
    );
    for s in ["running", "stopped", "disabled"] {
        assert_eq!(validate_state(s), Ok(String::from(s)));
    }
    assert_eq!(
        validate_state("initialized"),
        Err(format!("Invalid metric: '{}'. Allowed values are: {:?}", "initialized", vec!["running", "stopped", "disabled"]))
    );
    assert!(validate_state("").is_err());
}

#[test]
fn request_lines() {
    let s = |x: &str| Some(String::from(x));
    assert_eq!(request_line(&Request::List { state: None }), Ok(String::from("list\n")));
    assert_eq!(request_line(&Request::List { state: s("running") }), Ok(String::from("list running\n")));
    assert_eq!(request_line(&Request::Start { metric: None, rate: None }), Ok(String::from("start\n")));
    assert_eq!(request_line(&Request::Start { metric: s("cpu"), rate: None }), Ok(String::from("start cpu\n")));
    assert_eq!(request_line(&Request::Start { metric: s("cpu"), rate: Some(5) }), Ok(String::from("start cpu 5\n")));
    assert_eq!(request_line(&Request::Start { metric: None, rate: Some(5) }), Err(RequestError::OnlyRate));
    assert_eq!(request_line(&Request::Stop { metric: None }), Ok(String::from("stop\n")));
    assert_eq!(request_line(&Request::Stop { metric: s("io") }), Ok(String::from("stop io\n")));
    let set = |rate, enabled| Request::Configure { target: String::from("memory"), rate, enabled };
    assert_eq!(request_line(&set(Some(7), Some(false))), Ok(String::from("set memory 7 false\n")));
    assert_eq!(request_line(&set(Some(7), None)), Ok(String::from("set memory 7\n")));
    assert_eq!(request_line(&set(None, Some(true))), Ok(String::from("set memory true\n")));
    assert_eq!(request_line(&set(None, None)), Err(RequestError::OnlyMetric));
    assert_eq!(request_line(&Request::Store), Ok(String::from("store\n")));
}

#[test]
fn request_lines_parse_to_their_commands() {
    let line = request_line(&Request::Configure { target: String::from("cpu"), rate: Some(200), enabled: Some(true) }).unwrap();
    assert_eq!(
        parse_args(line),
        vec![CliCommand::new(Command::Configure, Some(MetricType::CPU), Some(200), Some(true), None)]
    );
    let line = request_line(&Request::Start { metric: Some(String::from("io")), rate: Some(3) }).unwrap();
    assert_eq!(parse_args(line), vec![CliCommand::new(Command::Start, Some(MetricType::IO), Some(3), None, None)]);
    let line = request_line(&Request::List { state: Some(String::from("stopped")) }).unwrap();
    assert_eq!(parse_args(line), vec![CliCommand::new(Command::List, None, None, None, Some(MetricState::Stopped))]);
}

#[test]
fn response_is_taken_apart_like_trim_and_split() {
    let responses = [
        "",
        "\n",
        "a\n",
        "a;b;c\n",
        ";;a;;b;\n",
        "  a ; b  \n",
        "Metric 'cpu' stopped;Metric 'io' disabled\n",
        ";",
        " ; ",
        "a; ;b",
        "\u{3000}x;y\u{00A0}",
    ];
    for r in responses {
        let expected: Vec<String> =
            r.trim().split(';').filter(|s| !s.is_empty()).map(|s| s.to_string()).collect();
        assert_eq!(response_lines(r), expected, "{:?}", r);
    }
    assert_eq!(response_lines("a;b\n"), vec!["a", "b"]);
    assert_eq!(response_lines(" \n"), Vec::<String>::new());
}

#[test]
fn framed_response_comes_apart_into_its_lines() {
    let lines = vec![
        String::from("Metric 'cpu' started with rate '1'"),
        String::new(),
        String::from("Metric 'io' disabled"),
    ];
    assert_eq!(
        response_lines(&frame_response(&lines)),
        vec!["Metric 'cpu' started with rate '1'", "Metric 'io' disabled"]
    );
}
