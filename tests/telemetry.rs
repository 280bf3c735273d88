use sensor_telemetry::telemetry::{
    format_payload, LoopAction, LoopEvent, LoopFault, LoopPhase, Reading, Sampler, CYCLE_MILLIS,
};

fn reading(t: f32, h: f32) -> Reading {
    Reading { temperature: format!("{}", t), humidity: format!("{}", h) }
}

#[test]
fn payload_format() {
    let t = format!("{}", 23.5f32);
    let h = format!("{}", 41.2f32);
    assert_eq!(format_payload(&t, &h), "field1=23.5&field2=41.2&status=MQTTPUBLISH");
    assert_eq!(format_payload(&t, &h), format_payload(&t, &h));
    assert_eq!(format_payload("", ""), "field1=&field2=&status=MQTTPUBLISH");
}

#[test]
fn full_cycle_starts_measurement_before_sleeping() {
    let mut s = Sampler::new("42");
    assert_eq!(s.topic, "channels/42/publish");
    assert_eq!(s.phase, LoopPhase::Collecting);
    match s.step(LoopEvent::Measured(reading(23.5, 41.2))) {
        LoopAction::Publish(body) => {
            assert_eq!(body, "field1=23.5&field2=41.2&status=MQTTPUBLISH")
        }
        other => panic!("unexpected action {:?}", other),
    }
    assert!(matches!(s.step(LoopEvent::Published), LoopAction::StartMeasurement));
    assert!(matches!(s.step(LoopEvent::MeasurementStarted), LoopAction::Sleep(1000)));
    assert_eq!(CYCLE_MILLIS, 1000);
    assert!(matches!(s.step(LoopEvent::Woke), LoopAction::Collect));
    assert_eq!(s.phase, LoopPhase::Collecting);
}

#[test]
fn publish_failure_stops_without_new_measurement() {
    let mut s = Sampler::new("42");
    s.step(LoopEvent::Measured(reading(20.0, 50.0)));
    assert!(matches!(s.step(LoopEvent::PublishFailed), LoopAction::Stop(LoopFault::Publish)));
    assert_eq!(s.phase, LoopPhase::Stopped);
    for ev in [LoopEvent::Published, LoopEvent::MeasurementStarted, LoopEvent::Woke] {
        assert!(matches!(s.step(ev), LoopAction::Stop(LoopFault::OutOfOrder)));
        assert_eq!(s.phase, LoopPhase::Stopped);
    }
}

#[test]
fn sensor_faults_stop_the_loop() {
    let mut s = Sampler::new("1");
    assert!(matches!(s.step(LoopEvent::SensorFault), LoopAction::Stop(LoopFault::Sensor)));
    let mut s = Sampler::new("1");
    s.step(LoopEvent::Measured(reading(1.0, 2.0)));
    s.step(LoopEvent::Published);
    assert!(matches!(s.step(LoopEvent::SensorFault), LoopAction::Stop(LoopFault::Sensor)));
}
