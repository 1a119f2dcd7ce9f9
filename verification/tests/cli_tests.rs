use linux_kernel_monitor::cli::{
    check_request, frame_response, get_command, parse_args, parse_list_command,
    parse_set_command, parse_start_command, parse_stop_command, CliCommand, CliError, Command,
};
use linux_kernel_monitor::metric::{MetricState, MetricType};

#[test]
fn get_command_names() {
    assert_eq!(get_command("start"), Command::Start);
    assert_eq!(get_command("stop"), Command::Stop);
    assert_eq!(get_command("list"), Command::List);
    assert_eq!(get_command("set"), Command::Configure);
    assert_eq!(get_command("store"), Command::Store);
    assert_eq!(get_command("bogus"), Command::Unknown);
    assert_eq!(get_command(""), Command::Unknown);
    assert_eq!(get_command("Start"), Command::Unknown);
}

#[test]
fn set_two_numbers_second_wins() {
    let batch = parse_args(String::from("set cpu 9 9\n"));
    assert_eq!(
        batch,
        vec![CliCommand::new(Command::Configure, Some(MetricType::CPU), Some(9), None, None)]
    );
    let batch = parse_args(String::from("set cpu 3 7\n"));
    assert_eq!(batch.len(), 1);
    assert_eq!(batch[0].get_refresh_rate(), Some(7));
    assert_eq!(batch[0].get_enabled(), None);
}

#[test]
fn start_alone_gives_three_commands() {
    let batch = parse_args(String::from("start\n"));
    assert_eq!(
        batch,
        vec![
            CliCommand::new(Command::Start, Some(MetricType::CPU), None, None, None),
            CliCommand::new(Command::Start, Some(MetricType::Memory), None, None, None),
            CliCommand::new(Command::Start, Some(MetricType::IO), None, None, None),
        ]
    );
}

#[test]
fn list_with_state_filters() {
    let batch = parse_args(String::from("list running"));
    assert_eq!(
        batch,
        vec![CliCommand::new(Command::List, None, None, None, Some(MetricState::Running))]
    );
}

fn cmd(
    c: Command,
    m: Option<MetricType>,
    r: Option<u8>,
    e: Option<bool>,
    s: Option<MetricState>,
) -> CliCommand {
    CliCommand::new(c, m, r, e, s)
}

#[test]
fn command_getters() {
    let c = cmd(Command::Configure, Some(MetricType::IO), Some(3), Some(false), Some(MetricState::Stopped));
    assert_eq!(c.get_command(), Command::Configure);
    assert_eq!(c.get_metric_type(), Some(MetricType::IO));
    assert_eq!(c.get_refresh_rate(), Some(3));
    assert_eq!(c.get_enabled(), Some(false));
    assert_eq!(c.get_state(), Some(MetricState::Stopped));
}

#[test]
fn blank_and_unknown_lines_give_nothing() {
    for line in ["", "\n", "   \t ", "restart", "restart cpu", "START", "starts cpu"] {
        assert_eq!(parse_args(String::from(line)), vec![], "{:?}", line);
    }
}

#[test]
fn start_with_metric_and_rate() {
    assert_eq!(
        parse_args(String::from("start cpu\n")),
        vec![cmd(Command::Start, Some(MetricType::CPU), None, None, None)]
    );
    assert_eq!(
        parse_args(String::from("start memory 5\n")),
        vec![cmd(Command::Start, Some(MetricType::Memory), Some(5), None, None)]
    );
    assert_eq!(
        parse_args(String::from("start io 5 true\n")),
        vec![cmd(Command::Start, Some(MetricType::IO), Some(5), Some(true), None)]
    );
    assert_eq!(
        parse_args(String::from("start io 5 true and more\n")),
        vec![cmd(Command::Start, Some(MetricType::IO), Some(5), Some(true), None)]
    );
    assert_eq!(
        parse_args(String::from("start disk\n")),
        vec![cmd(Command::Start, Some(MetricType::Unknown), None, None, None)]
    );
}

#[test]
fn start_with_a_spoiled_word_gives_nothing() {
    assert_eq!(parse_args(String::from("start cpu fast\n")), vec![]);
    assert_eq!(parse_args(String::from("start cpu 256\n")), vec![]);
    assert_eq!(parse_args(String::from("start cpu 5 yes\n")), vec![]);
}

#[test]
fn stop_with_and_without_metric() {
    assert_eq!(
        parse_args(String::from("stop\n")),
        vec![
            cmd(Command::Stop, Some(MetricType::CPU), None, None, None),
            cmd(Command::Stop, Some(MetricType::Memory), None, None, None),
            cmd(Command::Stop, Some(MetricType::IO), None, None, None),
        ]
    );
    assert_eq!(
        parse_args(String::from("stop io 9\n")),
        vec![cmd(Command::Stop, Some(MetricType::IO), None, None, None)]
    );
}

#[test]
fn list_without_a_state_lists_every_kind() {
    let all = vec![
        cmd(Command::List, Some(MetricType::CPU), None, None, None),
        cmd(Command::List, Some(MetricType::Memory), None, None, None),
        cmd(Command::List, Some(MetricType::IO), None, None, None),
    ];
    assert_eq!(parse_args(String::from("list\n")), all);
    assert_eq!(parse_args(String::from("list cpu\n")), all);
    assert_eq!(
        parse_args(String::from("list disabled\n")),
        vec![cmd(Command::List, None, None, None, Some(MetricState::Disabled))]
    );
}

#[test]
fn set_values_by_type() {
    assert_eq!(
        parse_args(String::from("set cpu 5 true\n")),
        vec![cmd(Command::Configure, Some(MetricType::CPU), Some(5), Some(true), None)]
    );
    assert_eq!(
        parse_args(String::from("set cpu false 5\n")),
        vec![cmd(Command::Configure, Some(MetricType::CPU), Some(5), Some(false), None)]
    );
    assert_eq!(
        parse_args(String::from("set io true false\n")),
        vec![cmd(Command::Configure, Some(MetricType::IO), None, Some(false), None)]
    );
    assert_eq!(
        parse_args(String::from("set memory 7\n")),
        vec![cmd(Command::Configure, Some(MetricType::Memory), Some(7), None, None)]
    );
    assert_eq!(
        parse_args(String::from("set memory junk 7\n")),
        vec![cmd(Command::Configure, Some(MetricType::Memory), Some(7), None, None)]
    );
    assert_eq!(
        parse_args(String::from("set disk 7\n")),
        vec![cmd(Command::Configure, Some(MetricType::Unknown), Some(7), None, None)]
    );
}

#[test]
fn set_without_values_gives_nothing() {
    assert_eq!(parse_args(String::from("set\n")), vec![]);
    assert_eq!(parse_args(String::from("set cpu\n")), vec![]);
    assert_eq!(parse_args(String::from("set cpu junk more\n")), vec![]);
}

#[test]
fn store_takes_no_arguments() {
    let one = vec![cmd(Command::Store, None, None, None, None)];
    assert_eq!(parse_args(String::from("store\n")), one);
    assert_eq!(parse_args(String::from("store now\n")), one);
}

#[test]
fn parsers_take_their_words_off_the_front() {
    let words = |s: &str| -> Vec<String> { s.split(' ').map(|w| w.to_string()).collect() };
    let mut args = words("cpu 5 true left over");
    assert_eq!(
        parse_start_command(&mut args),
        vec![cmd(Command::Start, Some(MetricType::CPU), Some(5), Some(true), None)]
    );
    assert_eq!(args, vec!["left", "over"]);
    let mut args = words("cpu 5");
    assert_eq!(
        parse_stop_command(&mut args),
        vec![cmd(Command::Stop, Some(MetricType::CPU), None, None, None)]
    );
    assert_eq!(args, vec!["5"]);
    let mut args = words("running x");
    assert_eq!(
        parse_list_command(&mut args),
        vec![cmd(Command::List, None, None, None, Some(MetricState::Running))]
    );
    assert_eq!(args, vec!["x"]);
    let mut args = words("io 9 9 9");
    assert_eq!(
        parse_set_command(&mut args),
        vec![cmd(Command::Configure, Some(MetricType::IO), Some(9), None, None)]
    );
    assert_eq!(args, vec!["9"]);
    let mut args: Vec<String> = Vec::new();
    assert_eq!(parse_set_command(&mut args), vec![]);
    assert_eq!(parse_start_command(&mut args).len(), 3);
    assert!(args.is_empty());
}

#[test]
fn parsed_commands_are_well_formed() {
    for line in ["start", "start x", "stop", "stop cpu", "list", "list running", "set cpu 1", "store", "set io true"] {
        for c in parse_args(String::from(line)) {
            assert!(c.is_well_formed(), "{:?}", line);
        }
    }
    assert!(!cmd(Command::Start, None, None, None, None).is_well_formed());
    assert!(!cmd(Command::List, None, None, None, None).is_well_formed());
    assert!(!cmd(Command::List, Some(MetricType::Unknown), None, None, None).is_well_formed());
    assert!(cmd(Command::List, None, None, None, Some(MetricState::Running)).is_well_formed());
    assert!(cmd(Command::Store, None, None, None, None).is_well_formed());
}

#[test]
fn empty_request_is_turned_away() {
    assert_eq!(check_request(""), Err(CliError::EmptyRequest));
    assert_eq!(check_request("\n"), Ok(()));
    assert_eq!(check_request("list\n"), Ok(()));
}

#[test]
fn response_is_framed() {
    let lines = |v: &[&str]| -> Vec<String> { v.iter().map(|s| s.to_string()).collect() };
    assert_eq!(frame_response(&lines(&[])), "\n");
    assert_eq!(frame_response(&lines(&["a"])), "a\n");
    assert_eq!(frame_response(&lines(&["a", "b", "c"])), "a;b;c\n");
    assert_eq!(frame_response(&lines(&["", "a", "", "", "b", ""])), "a;b\n");
    assert_eq!(frame_response(&lines(&["", ""])), "\n");
}
