use run_scope_backend::simulator::anomaly::{
    alert, alert_record, AlertCode, AlertConditions, AlertLatches, RaisedAlert, Severity,
};

/// Conditions of a tick in which every reading is calm and in range.
fn calm() -> AlertConditions {
    AlertConditions {
        temperature_out_due: false,
        temperature_far: false,
        oxygen_out_due: false,
        oxygen_high: false,
        vibration_high: false,
        vibration_severe: false,
        vibration_calm: true,
        track_error_high: false,
        track_error_calm: true,
        spatter_high: false,
        spatter_severe: false,
        spatter_calm: true,
        saturation_due: false,
        quality_low: false,
    }
}

fn evaluate(latches: &mut AlertLatches, stage: &str, conditions: &AlertConditions) -> Vec<RaisedAlert> {
    latches.evaluate(stage, conditions)
}

#[test]
fn recoater_vibration_in_powder_spread_raises_warning() {
    let mut latches = AlertLatches::new();
    // 3.1 mm/s: above 2.4, not above 4.0, not below 1.2.
    let conditions = AlertConditions { vibration_high: true, vibration_calm: false, ..calm() };
    let alerts = evaluate(&mut latches, "PowderSpread", &conditions);
    assert_eq!(
        alerts,
        vec![RaisedAlert { code: AlertCode::RecoaterVibration, severity: Severity::Warning }]
    );
}

#[test]
fn severe_recoater_vibration_is_critical() {
    let mut latches = AlertLatches::new();
    let conditions = AlertConditions {
        vibration_high: true,
        vibration_severe: true,
        vibration_calm: false,
        ..calm()
    };
    let alerts = evaluate(&mut latches, "PowderSpread", &conditions);
    assert_eq!(alerts[0].severity, Severity::Critical);
}

#[test]
fn recoater_vibration_outside_powder_spread_is_not_reported() {
    let mut latches = AlertLatches::new();
    let conditions = AlertConditions { vibration_high: true, vibration_calm: false, ..calm() };
    assert!(evaluate(&mut latches, "LaserScan", &conditions).is_empty());
}

#[test]
fn latched_vibration_is_reported_again_only_after_it_settles() {
    let mut latches = AlertLatches::new();
    let high = AlertConditions { vibration_high: true, vibration_calm: false, ..calm() };
    // Between 1.2 and 2.4 mm/s: neither high nor calm.
    let middling = AlertConditions { vibration_calm: false, ..calm() };
    assert_eq!(evaluate(&mut latches, "PowderSpread", &high).len(), 1);
    assert!(evaluate(&mut latches, "PowderSpread", &high).is_empty());
    assert!(evaluate(&mut latches, "PowderSpread", &middling).is_empty());
    assert!(evaluate(&mut latches, "PowderSpread", &high).is_empty());
    assert!(evaluate(&mut latches, "PowderSpread", &calm()).is_empty());
    assert_eq!(evaluate(&mut latches, "PowderSpread", &high).len(), 1);
}

#[test]
fn spatter_burst_in_laser_scan_raises_warning() {
    let mut latches = AlertLatches::new();
    // 55 ejections/s: above 45, not above 80.
    let conditions = AlertConditions { spatter_high: true, spatter_calm: false, ..calm() };
    let alerts = evaluate(&mut latches, "LaserScan", &conditions);
    assert_eq!(
        alerts,
        vec![RaisedAlert { code: AlertCode::SpatterBurst, severity: Severity::Warning }]
    );
}

#[test]
fn track_alignment_error_is_a_warning() {
    let mut latches = AlertLatches::new();
    let conditions = AlertConditions { track_error_high: true, track_error_calm: false, ..calm() };
    let alerts = evaluate(&mut latches, "LaserScan", &conditions);
    assert_eq!(
        alerts,
        vec![RaisedAlert { code: AlertCode::TrackAlignmentError, severity: Severity::Warning }]
    );
}

#[test]
fn far_temperature_deviation_in_laser_scan_is_critical() {
    let mut latches = AlertLatches::new();
    // 30 C below a target with a 6 C tolerance, out of range for more than 4 s.
    let conditions = AlertConditions {
        temperature_out_due: true,
        temperature_far: true,
        ..calm()
    };
    let alerts = evaluate(&mut latches, "LaserScan", &conditions);
    assert_eq!(
        alerts,
        vec![RaisedAlert { code: AlertCode::PlateTempOutOfRange, severity: Severity::Critical }]
    );
}

#[test]
fn settling_stages_stay_silent_on_timed_alerts() {
    for stage in ["Inerting", "Preheat", "Cooldown"] {
        let mut latches = AlertLatches::new();
        let conditions = AlertConditions {
            temperature_out_due: true,
            temperature_far: true,
            oxygen_out_due: true,
            oxygen_high: true,
            saturation_due: true,
            ..calm()
        };
        assert!(evaluate(&mut latches, stage, &conditions).is_empty());
    }
}

#[test]
fn oxygen_drift_above_250_ppm_is_critical() {
    let mut latches = AlertLatches::new();
    let warning = AlertConditions { oxygen_out_due: true, ..calm() };
    let critical = AlertConditions { oxygen_out_due: true, oxygen_high: true, ..calm() };
    assert_eq!(
        evaluate(&mut latches, "PowderSpread", &warning),
        vec![RaisedAlert { code: AlertCode::OxygenDrift, severity: Severity::Warning }]
    );
    assert_eq!(
        evaluate(&mut latches, "PowderSpread", &critical),
        vec![RaisedAlert { code: AlertCode::OxygenDrift, severity: Severity::Critical }]
    );
}

#[test]
fn quality_drop_is_reported_once_and_critical() {
    let mut latches = AlertLatches::new();
    let low = AlertConditions { quality_low: true, ..calm() };
    assert_eq!(
        evaluate(&mut latches, "Preheat", &low),
        vec![RaisedAlert { code: AlertCode::QualityDrop, severity: Severity::Critical }]
    );
    assert!(evaluate(&mut latches, "LaserScan", &low).is_empty());
    assert!(evaluate(&mut latches, "LaserScan", &calm()).is_empty());
    assert!(evaluate(&mut latches, "LaserScan", &low).is_empty());
}

#[test]
fn alerts_come_in_rule_order() {
    let mut latches = AlertLatches::new();
    let everything = AlertConditions {
        temperature_out_due: true,
        temperature_far: false,
        oxygen_out_due: true,
        oxygen_high: false,
        vibration_high: true,
        vibration_severe: false,
        vibration_calm: false,
        track_error_high: true,
        track_error_calm: false,
        spatter_high: true,
        spatter_severe: true,
        spatter_calm: false,
        saturation_due: true,
        quality_low: true,
    };
    let codes: Vec<&str> = evaluate(&mut latches, "LaserScan", &everything)
        .iter()
        .map(|a| a.code.as_str())
        .collect();
    assert_eq!(
        codes,
        vec![
            "PLATE_TEMP_OUT_OF_RANGE",
            "OXYGEN_DRIFT",
            "TRACK_ALIGNMENT_ERROR",
            "SPATTER_BURST",
            "CONTROL_SATURATION",
            "QUALITY_DROP"
        ]
    );
}

#[test]
fn stage_change_is_reported_once_per_new_stage() {
    let mut latches = AlertLatches::new();
    assert!(latches.enter_stage("Preheat"));
    assert!(!latches.enter_stage("Preheat"));
    assert!(latches.enter_stage("PowderSpread"));
    assert!(!latches.enter_stage("PowderSpread"));
    assert!(latches.enter_stage("Preheat"));
}

#[test]
fn stage_change_keeps_latches() {
    let mut latches = AlertLatches::new();
    let high = AlertConditions { vibration_high: true, vibration_calm: false, ..calm() };
    assert_eq!(evaluate(&mut latches, "PowderSpread", &high).len(), 1);
    assert!(latches.enter_stage("LaserScan"));
    assert!(evaluate(&mut latches, "PowderSpread", &high).is_empty());
}

#[test]
fn codes_and_severities_have_their_wire_names() {
    assert_eq!(AlertCode::PlateTempOutOfRange.as_str(), "PLATE_TEMP_OUT_OF_RANGE");
    assert_eq!(AlertCode::OxygenDrift.as_str(), "OXYGEN_DRIFT");
    assert_eq!(AlertCode::RecoaterVibration.as_str(), "RECOATER_VIBRATION");
    assert_eq!(AlertCode::TrackAlignmentError.as_str(), "TRACK_ALIGNMENT_ERROR");
    assert_eq!(AlertCode::SpatterBurst.as_str(), "SPATTER_BURST");
    assert_eq!(AlertCode::ControlSaturation.as_str(), "CONTROL_SATURATION");
    assert_eq!(AlertCode::QualityDrop.as_str(), "QUALITY_DROP");
    assert_eq!(Severity::Warning.as_str(), "warning");
    assert_eq!(Severity::Critical.as_str(), "critical");
}

#[test]
fn alert_carries_its_fields_a_fresh_id_and_a_utc_timestamp() {
    let a = alert("test-run", "warning", "RECOATER_VIBRATION", "vibration".to_string(), "PowderSpread")
        .unwrap();
    assert_eq!(a.run_id, "test-run");
    assert_eq!(a.severity, "warning");
    assert_eq!(a.code, "RECOATER_VIBRATION");
    assert_eq!(a.message, "vibration");
    assert_eq!(a.stage, "PowderSpread");
    assert_eq!(a.id.len(), 36);
    assert_eq!(a.id.as_bytes()[14], b'4');
    for position in [8, 13, 18, 23] {
        assert_eq!(a.id.as_bytes()[position], b'-');
    }
    assert!(a.timestamp.ends_with("+00:00"));
    let b = alert("test-run", "warning", "RECOATER_VIBRATION", "vibration".to_string(), "PowderSpread")
        .unwrap();
    assert_ne!(a.id, b.id);
}

#[test]
fn alert_record_keeps_every_field() {
    let a = alert_record(
        "id-1".to_string(),
        "2015-05-15T00:00:00+00:00".to_string(),
        "run",
        "critical",
        "QUALITY_DROP",
        "Run quality dropped to 81.0 percent".to_string(),
        "LaserScan",
    );
    assert_eq!(a.id, "id-1");
    assert_eq!(a.timestamp, "2015-05-15T00:00:00+00:00");
    assert_eq!(a.run_id, "run");
    assert_eq!(a.severity, "critical");
    assert_eq!(a.code, "QUALITY_DROP");
    assert_eq!(a.message, "Run quality dropped to 81.0 percent");
    assert_eq!(a.stage, "LaserScan");
}

#[test]
fn new_stage_is_known_before_the_tick_is_evaluated() {
    let mut latches = AlertLatches::new();
    assert!(latches.is_new_stage("Preheat"));
    latches.evaluate("Preheat", &calm());
    assert!(!latches.is_new_stage("Preheat"));
    assert!(latches.is_new_stage("PowderSpread"));
    // Asking does not record the stage.
    assert!(latches.is_new_stage("PowderSpread"));
}

#[test]
fn leaving_preheat_with_long_out_of_range_temperature_raises_nothing_in_powder_spread() {
    let mut latches = AlertLatches::new();
    // Twenty Preheat ticks 50 C below target: the temperature timer is due,
    // but Preheat is a settling stage.
    let preheat = AlertConditions {
        temperature_out_due: true,
        temperature_far: true,
        ..calm()
    };
    for _ in 0..20 {
        assert!(evaluate(&mut latches, "Preheat", &preheat).is_empty());
    }
    // The new stage tells the caller to clear its timers; with the readings
    // on target nothing is due and nothing is raised.
    assert!(latches.is_new_stage("PowderSpread"));
    assert!(evaluate(&mut latches, "PowderSpread", &calm()).is_empty());
}
