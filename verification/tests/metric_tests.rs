use linux_kernel_monitor::metric::{
    get_metric_types, metric_to_str, poll, sampler_step, state_to_str, str_to_metric,
    str_to_state, Directive, Metric, MetricState, MetricType, Polled, SamplerStep,
};

#[test]
fn metric_types_in_registry_order() {
    assert_eq!(get_metric_types(), vec![MetricType::CPU, MetricType::Memory, MetricType::IO]);
}

#[test]
fn metric_names() {
    assert_eq!(metric_to_str(MetricType::CPU), "cpu");
    assert_eq!(metric_to_str(MetricType::Memory), "memory");
    assert_eq!(metric_to_str(MetricType::IO), "io");
    assert_eq!(metric_to_str(MetricType::Unknown), "none");
    assert_eq!(str_to_metric("cpu"), MetricType::CPU);
    assert_eq!(str_to_metric("memory"), MetricType::Memory);
    assert_eq!(str_to_metric("io"), MetricType::IO);
    assert_eq!(str_to_metric("none"), MetricType::Unknown);
    assert_eq!(str_to_metric("disk"), MetricType::Unknown);
    assert_eq!(str_to_metric(""), MetricType::Unknown);
    assert_eq!(str_to_metric("CPU"), MetricType::Unknown);
}

#[test]
fn metric_names_round_trip() {
    for k in [MetricType::CPU, MetricType::Memory, MetricType::IO, MetricType::Unknown] {
        assert_eq!(str_to_metric(metric_to_str(k)), k);
    }
}

#[test]
fn state_names() {
    assert_eq!(state_to_str(MetricState::Initialized), "initialized");
    assert_eq!(state_to_str(MetricState::Running), "running");
    assert_eq!(state_to_str(MetricState::Stopped), "stopped");
    assert_eq!(state_to_str(MetricState::Disabled), "disabled");
    assert_eq!(str_to_state("initialized"), Some(MetricState::Initialized));
    assert_eq!(str_to_state("running"), Some(MetricState::Running));
    assert_eq!(str_to_state("stopped"), Some(MetricState::Stopped));
    assert_eq!(str_to_state("disabled"), Some(MetricState::Disabled));
    assert_eq!(str_to_state("cpu"), None);
    assert_eq!(str_to_state(""), None);
}

#[test]
fn state_names_round_trip() {
    for s in [MetricState::Initialized, MetricState::Running, MetricState::Stopped, MetricState::Disabled] {
        assert_eq!(str_to_state(state_to_str(s)), Some(s));
    }
}

#[test]
fn directive_messages() {
    assert_eq!(Directive::Stop.encode(), "stop");
    assert_eq!(Directive::Rate(0).encode(), "0");
    assert_eq!(Directive::Rate(7).encode(), "7");
    assert_eq!(Directive::Rate(255).encode(), "255");
    assert_eq!(Directive::decode("stop"), Some(Directive::Stop));
    assert_eq!(Directive::decode("12"), Some(Directive::Rate(12)));
    assert_eq!(Directive::decode("+12"), Some(Directive::Rate(12)));
    assert_eq!(Directive::decode("256"), None);
    assert_eq!(Directive::decode("Stop"), None);
    assert_eq!(Directive::decode(""), None);
}

#[test]
fn directives_round_trip() {
    assert_eq!(Directive::decode(&Directive::Stop.encode()), Some(Directive::Stop));
    for r in 0..=255u8 {
        assert_eq!(Directive::decode(&Directive::Rate(r).encode()), Some(Directive::Rate(r)));
    }
}

#[test]
fn sampler_step_follows_the_slot() {
    assert_eq!(sampler_step(3, &Polled::Empty), SamplerStep::Continue(3));
    assert_eq!(sampler_step(3, &Polled::Disconnected), SamplerStep::Continue(3));
    assert_eq!(sampler_step(3, &Polled::Message(String::from("stop"))), SamplerStep::Exit);
    assert_eq!(sampler_step(3, &Polled::Message(String::from("9"))), SamplerStep::Continue(9));
    assert_eq!(sampler_step(3, &Polled::Message(String::from("fast"))), SamplerStep::Fault);
    assert_eq!(sampler_step(3, &Polled::Message(String::from(""))), SamplerStep::Fault);
}

#[test]
fn worker_keeps_its_kind() {
    assert_eq!(Metric::new(MetricType::Memory).get_type(), MetricType::Memory);
    assert_eq!(Metric::new(MetricType::IO).get_type(), MetricType::IO);
}

#[test]
fn slot_carries_directives_in_order() {
    let worker = Metric::new(MetricType::CPU);
    let receiver = worker.get_receiver();
    assert_eq!(poll(&receiver, 4), SamplerStep::Continue(4));
    assert!(worker.set_refresh_rate(9));
    assert!(worker.stop());
    assert_eq!(poll(&receiver, 4), SamplerStep::Continue(9));
    assert_eq!(poll(&receiver, 9), SamplerStep::Exit);
    assert_eq!(poll(&receiver, 9), SamplerStep::Continue(9));
}

#[test]
fn slot_messages_are_the_directive_texts() {
    let worker = Metric::new(MetricType::CPU);
    let receiver = worker.get_receiver();
    assert!(worker.send_command(Directive::Rate(30)));
    assert!(worker.send_command(Directive::Stop));
    assert_eq!(receiver.try_recv(), Ok(String::from("30")));
    assert_eq!(receiver.try_recv(), Ok(String::from("stop")));
    assert_eq!(receiver.try_recv(), Err(crossbeam_channel::TryRecvError::Empty));
}

#[test]
fn slots_of_two_workers_are_apart() {
    let a = Metric::new(MetricType::CPU);
    let b = Metric::new(MetricType::Memory);
    assert!(a.stop());
    assert_eq!(poll(&b.get_receiver(), 2), SamplerStep::Continue(2));
    assert_eq!(poll(&a.get_receiver(), 2), SamplerStep::Exit);
}
