use vstd::prelude::*;

use crate::ids::{ends_with_utc_offset, is_v4_uuid_text, random_id, timestamp_now};
use crate::models::Alert;
use crate::simulator::stage::{same_text, stage_changes, StageWatch};

verus! {

/// The kinds of alert that the anomaly detector raises.
#[derive(Debug, Clone, Copy, PartialEq, Eq, Structural)]
pub enum AlertCode {
    PlateTempOutOfRange,
    OxygenDrift,
    RecoaterVibration,
    TrackAlignmentError,
    SpatterBurst,
    ControlSaturation,
    QualityDrop,
}

impl AlertCode {
    /// The code as it appears in an alert.
    pub open spec fn text(self) -> Seq<char> {
        match self {
            AlertCode::PlateTempOutOfRange => "PLATE_TEMP_OUT_OF_RANGE"@,
            AlertCode::OxygenDrift => "OXYGEN_DRIFT"@,
            AlertCode::RecoaterVibration => "RECOATER_VIBRATION"@,
            AlertCode::TrackAlignmentError => "TRACK_ALIGNMENT_ERROR"@,
            AlertCode::SpatterBurst => "SPATTER_BURST"@,
            AlertCode::ControlSaturation => "CONTROL_SATURATION"@,
            AlertCode::QualityDrop => "QUALITY_DROP"@,
        }
    }

    pub fn as_str(&self) -> (text: &'static str)
        ensures
            text@ == self.text(),
    {
        match self {
            AlertCode::PlateTempOutOfRange => "PLATE_TEMP_OUT_OF_RANGE",
            AlertCode::OxygenDrift => "OXYGEN_DRIFT",
            AlertCode::RecoaterVibration => "RECOATER_VIBRATION",
            AlertCode::TrackAlignmentError => "TRACK_ALIGNMENT_ERROR",
            AlertCode::SpatterBurst => "SPATTER_BURST",
            AlertCode::ControlSaturation => "CONTROL_SATURATION",
            AlertCode::QualityDrop => "QUALITY_DROP",
        }
    }
}

/// How serious an alert is.
#[derive(Debug, Clone, Copy, PartialEq, Eq, Structural)]
pub enum Severity {
    Warning,
    Critical,
}

impl Severity {
    /// The severity as it appears in an alert.
    pub open spec fn text(self) -> Seq<char> {
        match self {
            Severity::Warning => "warning"@,
            Severity::Critical => "critical"@,
        }
    }

    pub fn as_str(&self) -> (text: &'static str)
        ensures
            text@ == self.text(),
    {
        match self {
            Severity::Warning => "warning",
            Severity::Critical => "critical",
        }
    }
}

/// `Critical` where `critical` holds, `Warning` otherwise.
pub open spec fn severity_if(critical: bool) -> Severity {
    if critical {
        Severity::Critical
    } else {
        Severity::Warning
    }
}

/// One alert that an evaluation decided to raise.
#[derive(Debug, Clone, Copy, PartialEq, Eq, Structural)]
pub struct RaisedAlert {
    pub code: AlertCode,
    pub severity: Severity,
}

/// What the measurements of one tick show, read against the thresholds of
/// the detector. The measurements and the timers that track how long a
/// reading has been out of range are kept by the caller.
#[derive(Debug, Clone, Copy)]
pub struct AlertConditions {
    /// The build-plate temperature has been out of tolerance for 4 s or more.
    pub temperature_out_due: bool,
    /// The temperature error exceeds four times the stage tolerance.
    pub temperature_far: bool,
    /// The chamber oxygen has been out of tolerance for 4 s or more.
    pub oxygen_out_due: bool,
    /// The chamber oxygen exceeds 250 ppm.
    pub oxygen_high: bool,
    /// The recoater vibration exceeds 2.4 mm/s.
    pub vibration_high: bool,
    /// The recoater vibration exceeds 4.0 mm/s.
    pub vibration_severe: bool,
    /// The recoater vibration is below 1.2 mm/s.
    pub vibration_calm: bool,
    /// The scan-track error exceeds 4.5 um.
    pub track_error_high: bool,
    /// The scan-track error is below 3.0 um.
    pub track_error_calm: bool,
    /// The spatter rate exceeds 45 ejections per second.
    pub spatter_high: bool,
    /// The spatter rate exceeds 80 ejections per second.
    pub spatter_severe: bool,
    /// The spatter rate is below 25 ejections per second.
    pub spatter_calm: bool,
    /// The temperature controller has been saturated for 8 s or more.
    pub saturation_due: bool,
    /// The quality score is below 82.
    pub quality_low: bool,
}

/// Abstract state of the detector's alert rules.
pub struct LatchState {
    pub stage: Option<Seq<char>>,
    pub recoater: bool,
    pub alignment: bool,
    pub spatter: bool,
    pub quality: bool,
}

/// The stage-tracking and latching part of the anomaly detector: it decides
/// which alerts a tick raises, so that a latched condition is reported once
/// and reported again only after it has settled.
#[derive(Debug, Clone)]
pub struct AlertLatches {
    stage: StageWatch,
    recoater_latched: bool,
    alignment_latched: bool,
    spatter_latched: bool,
    quality_latched: bool,
}

impl View for AlertLatches {
    type V = LatchState;

    closed spec fn view(&self) -> LatchState {
        LatchState {
            stage: self.stage@,
            recoater: self.recoater_latched,
            alignment: self.alignment_latched,
            spatter: self.spatter_latched,
            quality: self.quality_latched,
        }
    }
}

/// The stages in which the plate and chamber are still settling, where the
/// timed out-of-range and saturation alerts stay silent.
pub open spec fn is_settling_stage(stage: Seq<char>) -> bool {
    stage == "Inerting"@ || stage == "Preheat"@ || stage == "Cooldown"@
}

pub open spec fn fires_temperature(stage: Seq<char>, c: AlertConditions) -> bool {
    !is_settling_stage(stage) && c.temperature_out_due
}

pub open spec fn fires_oxygen(stage: Seq<char>, c: AlertConditions) -> bool {
    !is_settling_stage(stage) && c.oxygen_out_due
}

pub open spec fn fires_recoater(l: LatchState, stage: Seq<char>, c: AlertConditions) -> bool {
    stage == "PowderSpread"@ && c.vibration_high && !l.recoater
}

pub open spec fn fires_alignment(l: LatchState, stage: Seq<char>, c: AlertConditions) -> bool {
    stage == "LaserScan"@ && c.track_error_high && !l.alignment
}

pub open spec fn fires_spatter(l: LatchState, stage: Seq<char>, c: AlertConditions) -> bool {
    stage == "LaserScan"@ && c.spatter_high && !l.spatter
}

pub open spec fn fires_saturation(stage: Seq<char>, c: AlertConditions) -> bool {
    !is_settling_stage(stage) && c.saturation_due
}

pub open spec fn fires_quality(l: LatchState, c: AlertConditions) -> bool {
    c.quality_low && !l.quality
}

/// The one-element sequence of the alert where `fires` holds, else empty.
pub open spec fn alert_if(fires: bool, code: AlertCode, severity: Severity) -> Seq<RaisedAlert> {
    if fires {
        seq![RaisedAlert { code, severity }]
    } else {
        Seq::empty()
    }
}

/// The alerts that one evaluation raises, in the order in which they are
/// checked: plate temperature, oxygen, recoater, track alignment, spatter,
/// controller saturation, quality.
pub open spec fn alerts_for(l: LatchState, stage: Seq<char>, c: AlertConditions) -> Seq<
    RaisedAlert,
> {
    alert_if(
        fires_temperature(stage, c),
        AlertCode::PlateTempOutOfRange,
        severity_if(c.temperature_far),
    ) + alert_if(fires_oxygen(stage, c), AlertCode::OxygenDrift, severity_if(c.oxygen_high))
        + alert_if(
        fires_recoater(l, stage, c),
        AlertCode::RecoaterVibration,
        severity_if(c.vibration_severe),
    ) + alert_if(fires_alignment(l, stage, c), AlertCode::TrackAlignmentError, Severity::Warning)
        + alert_if(fires_spatter(l, stage, c), AlertCode::SpatterBurst, severity_if(c.spatter_severe))
        + alert_if(fires_saturation(stage, c), AlertCode::ControlSaturation, Severity::Warning)
        + alert_if(fires_quality(l, c), AlertCode::QualityDrop, Severity::Critical)
}

/// The latches after one evaluation: a latch is set when its alert fires,
/// released when its reading has settled, and kept otherwise; the quality
/// latch is never released.
pub open spec fn latches_after(l: LatchState, stage: Seq<char>, c: AlertConditions) -> LatchState {
    LatchState {
        stage: l.stage,
        recoater: latch_after(l.recoater, fires_recoater(l, stage, c), c.vibration_calm),
        alignment: latch_after(l.alignment, fires_alignment(l, stage, c), c.track_error_calm),
        spatter: latch_after(l.spatter, fires_spatter(l, stage, c), c.spatter_calm),
        quality: l.quality || c.quality_low,
    }
}

/// Whether `alerts` holds an alert with `code`.
pub open spec fn raises(alerts: Seq<RaisedAlert>, code: AlertCode) -> bool {
    exists|i: int| 0 <= i < alerts.len() && (#[trigger] alerts[i]).code == code
}

impl AlertLatches {
    /// A detector that has seen no stage and holds no latch.
    pub fn new() -> (latches: Self)
        ensures
            latches@ == initial_latches(),
    {
        AlertLatches {
            stage: StageWatch::new(),
            recoater_latched: false,
            alignment_latched: false,
            spatter_latched: false,
            quality_latched: false,
        }
    }

    /// Records the stage of this tick. Returns whether a new stage began, in
    /// which case the caller clears its out-of-range and saturation timers.
    pub fn enter_stage(&mut self, stage_name: &str) -> (changed: bool)
        ensures
            changed == stage_changes(old(self)@.stage, stage_name@),
            final(self)@ == (LatchState { stage: Some(stage_name@), ..old(self)@ }),
    {
        self.stage.observe(stage_name)
    }

    /// Whether `stage_name` would begin a new stage, in which case the caller
    /// clears its out-of-range and saturation timers before it reads the
    /// conditions of the tick.
    pub fn is_new_stage(&self, stage_name: &str) -> (new_stage: bool)
        ensures
            new_stage == stage_changes(self@.stage, stage_name@),
    {
        self.stage.differs_from(stage_name)
    }

    /// One evaluation of a tick during `stage_name`: records the stage, then
    /// decides which alerts the conditions raise and updates the latches.
    pub fn evaluate(&mut self, stage_name: &str, conditions: &AlertConditions) -> (alerts: Vec<
        RaisedAlert,
    >)
        ensures
            alerts@ == alerts_of(old(self)@, Evaluation { stage: stage_name@, conditions: *conditions }),
            final(self)@ == evaluated(
                old(self)@,
                Evaluation { stage: stage_name@, conditions: *conditions },
            ),
    {
        self.enter_stage(stage_name);
        self.raise_alerts(stage_name, conditions)
    }

    /// Decides which alerts the conditions of this tick raise during the stage
    /// `stage_name`, and updates the latches.
    pub fn raise_alerts(&mut self, stage_name: &str, conditions: &AlertConditions) -> (alerts: Vec<
        RaisedAlert,
    >)
        ensures
            alerts@ == alerts_for(old(self)@, stage_name@, *conditions),
            final(self)@ == latches_after(old(self)@, stage_name@, *conditions),
    {
        let c = conditions;
        let settling = is_settling_name(stage_name);
        let powder_spread = same_text(stage_name, "PowderSpread");
        let laser_scan = same_text(stage_name, "LaserScan");

        let recoater_fires = powder_spread && c.vibration_high && !self.recoater_latched;
        let alignment_fires = laser_scan && c.track_error_high && !self.alignment_latched;
        let spatter_fires = laser_scan && c.spatter_high && !self.spatter_latched;
        let quality_fires = c.quality_low && !self.quality_latched;

        let ghost stage = stage_name@;
        let mut alerts: Vec<RaisedAlert> = Vec::new();
        push_when(
            &mut alerts,
            !settling && c.temperature_out_due,
            AlertCode::PlateTempOutOfRange,
            severity_when(c.temperature_far),
        );
        // The first rule appends to an empty sequence, leaving its part alone.
        assert(alerts@ =~= alert_if(
            fires_temperature(stage, *c),
            AlertCode::PlateTempOutOfRange,
            severity_if(c.temperature_far),
        ));
        push_when(
            &mut alerts,
            !settling && c.oxygen_out_due,
            AlertCode::OxygenDrift,
            severity_when(c.oxygen_high),
        );
        push_when(
            &mut alerts,
            recoater_fires,
            AlertCode::RecoaterVibration,
            severity_when(c.vibration_severe),
        );
        push_when(&mut alerts, alignment_fires, AlertCode::TrackAlignmentError, Severity::Warning);
        push_when(
            &mut alerts,
            spatter_fires,
            AlertCode::SpatterBurst,
            severity_when(c.spatter_severe),
        );
        push_when(
            &mut alerts,
            !settling && c.saturation_due,
            AlertCode::ControlSaturation,
            Severity::Warning,
        );
        push_when(&mut alerts, quality_fires, AlertCode::QualityDrop, Severity::Critical);

        self.recoater_latched = latch_update(self.recoater_latched, recoater_fires, c.vibration_calm);
        self.alignment_latched = latch_update(
            self.alignment_latched,
            alignment_fires,
            c.track_error_calm,
        );
        self.spatter_latched = latch_update(self.spatter_latched, spatter_fires, c.spatter_calm);
        self.quality_latched = self.quality_latched || c.quality_low;
        alerts
    }
}

fn is_settling_name(stage_name: &str) -> (settling: bool)
    ensures
        settling == is_settling_stage(stage_name@),
{
    same_text(stage_name, "Inerting") || same_text(stage_name, "Preheat") || same_text(
        stage_name,
        "Cooldown",
    )
}

fn severity_when(critical: bool) -> (severity: Severity)
    ensures
        severity == severity_if(critical),
{
    if critical {
        Severity::Critical
    } else {
        Severity::Warning
    }
}

fn push_when(alerts: &mut Vec<RaisedAlert>, fires: bool, code: AlertCode, severity: Severity)
    ensures
        final(alerts)@ == old(alerts)@ + alert_if(fires, code, severity),
{
    if fires {
        alerts.push(RaisedAlert { code, severity });
    }
    assert(final(alerts)@ =~= old(alerts)@ + alert_if(fires, code, severity));
}

/// A latch after one evaluation: set when its alert fires, released when the
/// reading has settled, kept otherwise.
pub open spec fn latch_after(latched: bool, fires: bool, calm: bool) -> bool {
    if fires {
        true
    } else if calm {
        false
    } else {
        latched
    }
}

fn latch_update(latched: bool, fires: bool, calm: bool) -> (next: bool)
    ensures
        next == latch_after(latched, fires, calm),
{
    if fires {
        true
    } else if calm {
        false
    } else {
        latched
    }
}

/// Whether the rule of `code` fires in one evaluation.
pub open spec fn rule_fires(l: LatchState, stage: Seq<char>, c: AlertConditions, code: AlertCode) -> bool {
    match code {
        AlertCode::PlateTempOutOfRange => fires_temperature(stage, c),
        AlertCode::OxygenDrift => fires_oxygen(stage, c),
        AlertCode::RecoaterVibration => fires_recoater(l, stage, c),
        AlertCode::TrackAlignmentError => fires_alignment(l, stage, c),
        AlertCode::SpatterBurst => fires_spatter(l, stage, c),
        AlertCode::ControlSaturation => fires_saturation(stage, c),
        AlertCode::QualityDrop => fires_quality(l, c),
    }
}

/// Position of each rule in the order of evaluation.
pub open spec fn rule_rank(code: AlertCode) -> int {
    match code {
        AlertCode::PlateTempOutOfRange => 0,
        AlertCode::OxygenDrift => 1,
        AlertCode::RecoaterVibration => 2,
        AlertCode::TrackAlignmentError => 3,
        AlertCode::SpatterBurst => 4,
        AlertCode::ControlSaturation => 5,
        AlertCode::QualityDrop => 6,
    }
}

/// The alerts come in the order of the rules, each code at most once.
pub open spec fn in_rule_order(alerts: Seq<RaisedAlert>) -> bool {
    forall|i: int, j: int|
        0 <= i < j < alerts.len() ==> rule_rank(#[trigger] alerts[i].code) < rule_rank(
            #[trigger] alerts[j].code,
        )
}

proof fn lemma_raises_concat(a: Seq<RaisedAlert>, b: Seq<RaisedAlert>, code: AlertCode)
    ensures
        raises(a + b, code) == (raises(a, code) || raises(b, code)),
{
    if raises(a + b, code) {
        let i = choose|i: int| 0 <= i < (a + b).len() && (#[trigger] (a + b)[i]).code == code;
        if i < a.len() {
            assert(a[i] == (a + b)[i]);
        } else {
            assert(b[i - a.len()] == (a + b)[i]);
        }
    }
    if raises(a, code) {
        let i = choose|i: int| 0 <= i < a.len() && (#[trigger] a[i]).code == code;
        assert((a + b)[i] == a[i]);
    }
    if raises(b, code) {
        let i = choose|i: int| 0 <= i < b.len() && (#[trigger] b[i]).code == code;
        assert((a + b)[a.len() + i] == b[i]);
    }
}

proof fn lemma_raises_single(fires: bool, code: AlertCode, severity: Severity, wanted: AlertCode)
    ensures
        raises(alert_if(fires, code, severity), wanted) == (fires && code == wanted),
{
    if fires && code == wanted {
        assert(alert_if(fires, code, severity)[0].code == wanted);
    }
}

/// An evaluation raises an alert of a given code exactly when the rule of that
/// code fires.
pub proof fn lemma_raises_iff_rule_fires(
    l: LatchState,
    stage: Seq<char>,
    c: AlertConditions,
    code: AlertCode,
)
    ensures
        raises(alerts_for(l, stage, c), code) == rule_fires(l, stage, c, code),
{
    let s0 = alert_if(
        fires_temperature(stage, c),
        AlertCode::PlateTempOutOfRange,
        severity_if(c.temperature_far),
    );
    let s1 = alert_if(fires_oxygen(stage, c), AlertCode::OxygenDrift, severity_if(c.oxygen_high));
    let s2 = alert_if(
        fires_recoater(l, stage, c),
        AlertCode::RecoaterVibration,
        severity_if(c.vibration_severe),
    );
    let s3 = alert_if(fires_alignment(l, stage, c), AlertCode::TrackAlignmentError, Severity::Warning);
    let s4 = alert_if(fires_spatter(l, stage, c), AlertCode::SpatterBurst, severity_if(c.spatter_severe));
    let s5 = alert_if(fires_saturation(stage, c), AlertCode::ControlSaturation, Severity::Warning);
    let s6 = alert_if(fires_quality(l, c), AlertCode::QualityDrop, Severity::Critical);
    lemma_raises_concat(s0, s1, code);
    lemma_raises_concat(s0 + s1, s2, code);
    lemma_raises_concat(s0 + s1 + s2, s3, code);
    lemma_raises_concat(s0 + s1 + s2 + s3, s4, code);
    lemma_raises_concat(s0 + s1 + s2 + s3 + s4, s5, code);
    lemma_raises_concat(s0 + s1 + s2 + s3 + s4 + s5, s6, code);
    lemma_raises_single(fires_temperature(stage, c), AlertCode::PlateTempOutOfRange, severity_if(c.temperature_far), code);
    lemma_raises_single(fires_oxygen(stage, c), AlertCode::OxygenDrift, severity_if(c.oxygen_high), code);
    lemma_raises_single(fires_recoater(l, stage, c), AlertCode::RecoaterVibration, severity_if(c.vibration_severe), code);
    lemma_raises_single(fires_alignment(l, stage, c), AlertCode::TrackAlignmentError, Severity::Warning, code);
    lemma_raises_single(fires_spatter(l, stage, c), AlertCode::SpatterBurst, severity_if(c.spatter_severe), code);
    lemma_raises_single(fires_saturation(stage, c), AlertCode::ControlSaturation, Severity::Warning, code);
    lemma_raises_single(fires_quality(l, c), AlertCode::QualityDrop, Severity::Critical, code);
}

/// While its latch is set, a latched condition (recoater vibration, track
/// alignment, spatter burst, quality drop) raises no alert.
pub proof fn lemma_latched_conditions_stay_silent(
    l: LatchState,
    stage: Seq<char>,
    c: AlertConditions,
)
    ensures
        l.recoater ==> !raises(alerts_for(l, stage, c), AlertCode::RecoaterVibration),
        l.alignment ==> !raises(alerts_for(l, stage, c), AlertCode::TrackAlignmentError),
        l.spatter ==> !raises(alerts_for(l, stage, c), AlertCode::SpatterBurst),
        l.quality ==> !raises(alerts_for(l, stage, c), AlertCode::QualityDrop),
{
    lemma_raises_iff_rule_fires(l, stage, c, AlertCode::RecoaterVibration);
    lemma_raises_iff_rule_fires(l, stage, c, AlertCode::TrackAlignmentError);
    lemma_raises_iff_rule_fires(l, stage, c, AlertCode::SpatterBurst);
    lemma_raises_iff_rule_fires(l, stage, c, AlertCode::QualityDrop);
}

/// Raising a latched alert sets its latch, and a set latch is released only by
/// an evaluation in which its reading has settled; the quality latch is never
/// released.
pub proof fn lemma_latch_hysteresis(l: LatchState, stage: Seq<char>, c: AlertConditions)
    ensures
        raises(alerts_for(l, stage, c), AlertCode::RecoaterVibration) ==> latches_after(l, stage, c).recoater,
        raises(alerts_for(l, stage, c), AlertCode::TrackAlignmentError) ==> latches_after(l, stage, c).alignment,
        raises(alerts_for(l, stage, c), AlertCode::SpatterBurst) ==> latches_after(l, stage, c).spatter,
        raises(alerts_for(l, stage, c), AlertCode::QualityDrop) ==> latches_after(l, stage, c).quality,
        l.recoater && !c.vibration_calm ==> latches_after(l, stage, c).recoater,
        l.alignment && !c.track_error_calm ==> latches_after(l, stage, c).alignment,
        l.spatter && !c.spatter_calm ==> latches_after(l, stage, c).spatter,
        l.quality ==> latches_after(l, stage, c).quality,
{
    lemma_raises_iff_rule_fires(l, stage, c, AlertCode::RecoaterVibration);
    lemma_raises_iff_rule_fires(l, stage, c, AlertCode::TrackAlignmentError);
    lemma_raises_iff_rule_fires(l, stage, c, AlertCode::SpatterBurst);
    lemma_raises_iff_rule_fires(l, stage, c, AlertCode::QualityDrop);
}

/// A quality drop is reported at most once: once an evaluation has raised it,
/// the next evaluation does not, whatever its stage and conditions.
pub proof fn lemma_quality_drop_reported_once(
    l: LatchState,
    first_stage: Seq<char>,
    first: AlertConditions,
    second_stage: Seq<char>,
    second: AlertConditions,
)
    ensures
        raises(alerts_for(l, first_stage, first), AlertCode::QualityDrop) ==> !raises(
            alerts_for(latches_after(l, first_stage, first), second_stage, second),
            AlertCode::QualityDrop,
        ),
{
    lemma_raises_iff_rule_fires(l, first_stage, first, AlertCode::QualityDrop);
    lemma_raises_iff_rule_fires(
        latches_after(l, first_stage, first),
        second_stage,
        second,
        AlertCode::QualityDrop,
    );
}

/// During the settling stages (Inerting, Preheat, Cooldown) no plate
/// temperature, oxygen drift or controller saturation alert is raised.
pub proof fn lemma_settling_stages_silence_timed_alerts(
    l: LatchState,
    stage: Seq<char>,
    c: AlertConditions,
)
    requires
        is_settling_stage(stage),
    ensures
        !raises(alerts_for(l, stage, c), AlertCode::PlateTempOutOfRange),
        !raises(alerts_for(l, stage, c), AlertCode::OxygenDrift),
        !raises(alerts_for(l, stage, c), AlertCode::ControlSaturation),
{
    lemma_raises_iff_rule_fires(l, stage, c, AlertCode::PlateTempOutOfRange);
    lemma_raises_iff_rule_fires(l, stage, c, AlertCode::OxygenDrift);
    lemma_raises_iff_rule_fires(l, stage, c, AlertCode::ControlSaturation);
}

/// The timed alerts follow the stage by name: in Inerting, Preheat and
/// Cooldown an evaluation raises no plate temperature, oxygen drift or
/// controller saturation alert; in every other stage a due temperature timer
/// raises a plate temperature alert, a due oxygen timer an oxygen drift alert
/// and a due saturation timer a controller saturation alert, whatever the
/// latches.
pub proof fn lemma_timed_alerts_by_stage_name(l: LatchState, e: Evaluation)
    ensures
        e.stage == "Inerting"@ || e.stage == "Preheat"@ || e.stage == "Cooldown"@ ==> {
            &&& !raises(alerts_of(l, e), AlertCode::PlateTempOutOfRange)
            &&& !raises(alerts_of(l, e), AlertCode::OxygenDrift)
            &&& !raises(alerts_of(l, e), AlertCode::ControlSaturation)
        },
        e.stage != "Inerting"@ && e.stage != "Preheat"@ && e.stage != "Cooldown"@ ==> {
            &&& (e.conditions.temperature_out_due <==> raises(
                alerts_of(l, e),
                AlertCode::PlateTempOutOfRange,
            ))
            &&& (e.conditions.oxygen_out_due <==> raises(alerts_of(l, e), AlertCode::OxygenDrift))
            &&& (e.conditions.saturation_due <==> raises(
                alerts_of(l, e),
                AlertCode::ControlSaturation,
            ))
        },
{
    let entered_state = entered(l, e);
    lemma_raises_iff_rule_fires(entered_state, e.stage, e.conditions, AlertCode::PlateTempOutOfRange);
    lemma_raises_iff_rule_fires(entered_state, e.stage, e.conditions, AlertCode::OxygenDrift);
    lemma_raises_iff_rule_fires(entered_state, e.stage, e.conditions, AlertCode::ControlSaturation);
}

/// Recoater vibration is reported only during PowderSpread, track alignment
/// and spatter bursts only during LaserScan.
pub proof fn lemma_stage_bound_alerts(l: LatchState, stage: Seq<char>, c: AlertConditions)
    ensures
        raises(alerts_for(l, stage, c), AlertCode::RecoaterVibration) ==> stage == "PowderSpread"@,
        raises(alerts_for(l, stage, c), AlertCode::TrackAlignmentError) ==> stage == "LaserScan"@,
        raises(alerts_for(l, stage, c), AlertCode::SpatterBurst) ==> stage == "LaserScan"@,
{
    lemma_raises_iff_rule_fires(l, stage, c, AlertCode::RecoaterVibration);
    lemma_raises_iff_rule_fires(l, stage, c, AlertCode::TrackAlignmentError);
    lemma_raises_iff_rule_fires(l, stage, c, AlertCode::SpatterBurst);
}

/// `alerts` are in rule order and all of rank below `bound`.
#[verifier::opaque]
spec fn ordered_below(alerts: Seq<RaisedAlert>, bound: int) -> bool {
    &&& in_rule_order(alerts)
    &&& forall|i: int| 0 <= i < alerts.len() ==> rule_rank(#[trigger] alerts[i].code) < bound
}

proof fn lemma_append_in_order(a: Seq<RaisedAlert>, fires: bool, code: AlertCode, severity: Severity)
    requires
        ordered_below(a, rule_rank(code)),
    ensures
        ordered_below(a + alert_if(fires, code, severity), rule_rank(code) + 1),
{
    reveal(ordered_below);
    let b = a + alert_if(fires, code, severity);
    assert forall|i: int, j: int| 0 <= i < j < b.len() implies rule_rank(
        #[trigger] b[i].code,
    ) < rule_rank(#[trigger] b[j].code) by {
        if j < a.len() {
            assert(b[i] == a[i] && b[j] == a[j]);
        } else {
            assert(b[i] == a[i]);
        }
    }
    assert forall|i: int| 0 <= i < b.len() implies rule_rank(#[trigger] b[i].code) < rule_rank(
        code,
    ) + 1 by {
        if i < a.len() {
            assert(b[i] == a[i]);
        }
    }
}

/// One evaluation raises each code at most once, in the order of the rules.
pub proof fn lemma_alerts_in_rule_order(l: LatchState, stage: Seq<char>, c: AlertConditions)
    ensures
        in_rule_order(alerts_for(l, stage, c)),
{
    let e = Seq::<RaisedAlert>::empty();
    let s0 = alert_if(
        fires_temperature(stage, c),
        AlertCode::PlateTempOutOfRange,
        severity_if(c.temperature_far),
    );
    assert(ordered_below(e, 0)) by {
        reveal(ordered_below);
    }
    lemma_append_in_order(e, fires_temperature(stage, c), AlertCode::PlateTempOutOfRange, severity_if(c.temperature_far));
    assert(e + s0 =~= s0);
    let p1 = s0;
    lemma_append_in_order(p1, fires_oxygen(stage, c), AlertCode::OxygenDrift, severity_if(c.oxygen_high));
    let p2 = p1 + alert_if(fires_oxygen(stage, c), AlertCode::OxygenDrift, severity_if(c.oxygen_high));
    lemma_append_in_order(p2, fires_recoater(l, stage, c), AlertCode::RecoaterVibration, severity_if(c.vibration_severe));
    let p3 = p2 + alert_if(fires_recoater(l, stage, c), AlertCode::RecoaterVibration, severity_if(c.vibration_severe));
    lemma_append_in_order(p3, fires_alignment(l, stage, c), AlertCode::TrackAlignmentError, Severity::Warning);
    let p4 = p3 + alert_if(fires_alignment(l, stage, c), AlertCode::TrackAlignmentError, Severity::Warning);
    lemma_append_in_order(p4, fires_spatter(l, stage, c), AlertCode::SpatterBurst, severity_if(c.spatter_severe));
    let p5 = p4 + alert_if(fires_spatter(l, stage, c), AlertCode::SpatterBurst, severity_if(c.spatter_severe));
    lemma_append_in_order(p5, fires_saturation(stage, c), AlertCode::ControlSaturation, Severity::Warning);
    let p6 = p5 + alert_if(fires_saturation(stage, c), AlertCode::ControlSaturation, Severity::Warning);
    lemma_append_in_order(p6, fires_quality(l, c), AlertCode::QualityDrop, Severity::Critical);
    let p7 = p6 + alert_if(fires_quality(l, c), AlertCode::QualityDrop, Severity::Critical);
    assert(p7 == alerts_for(l, stage, c));
    reveal(ordered_below);
}

/// The severity with which the rule of `code` reports under conditions `c`.
pub open spec fn rule_severity(c: AlertConditions, code: AlertCode) -> Severity {
    match code {
        AlertCode::PlateTempOutOfRange => severity_if(c.temperature_far),
        AlertCode::OxygenDrift => severity_if(c.oxygen_high),
        AlertCode::RecoaterVibration => severity_if(c.vibration_severe),
        AlertCode::TrackAlignmentError => Severity::Warning,
        AlertCode::SpatterBurst => severity_if(c.spatter_severe),
        AlertCode::ControlSaturation => Severity::Warning,
        AlertCode::QualityDrop => Severity::Critical,
    }
}

/// Every alert in `alerts` carries the severity of its rule.
pub open spec fn graded_by_rule(alerts: Seq<RaisedAlert>, c: AlertConditions) -> bool {
    forall|i: int|
        0 <= i < alerts.len() ==> (#[trigger] alerts[i]).severity == rule_severity(c, alerts[i].code)
}

proof fn lemma_graded_append(a: Seq<RaisedAlert>, fires: bool, code: AlertCode, c: AlertConditions)
    requires
        graded_by_rule(a, c),
    ensures
        graded_by_rule(a + alert_if(fires, code, rule_severity(c, code)), c),
{
    let b = a + alert_if(fires, code, rule_severity(c, code));
    assert forall|i: int| 0 <= i < b.len() implies (#[trigger] b[i]).severity == rule_severity(
        c,
        b[i].code,
    ) by {
        if i < a.len() {
            assert(b[i] == a[i]);
        }
    }
}

/// Each alert carries the severity of its rule: a quality drop is always
/// critical, track alignment and controller saturation always warnings, and
/// the others critical exactly when their reading is far out of range.
pub proof fn lemma_alert_severities(l: LatchState, stage: Seq<char>, c: AlertConditions)
    ensures
        graded_by_rule(alerts_for(l, stage, c), c),
{
    let e = Seq::<RaisedAlert>::empty();
    let code0 = AlertCode::PlateTempOutOfRange;
    lemma_graded_append(e, fires_temperature(stage, c), code0, c);
    let p1 = alert_if(fires_temperature(stage, c), code0, rule_severity(c, code0));
    assert(e + p1 =~= p1);
    lemma_graded_append(p1, fires_oxygen(stage, c), AlertCode::OxygenDrift, c);
    let p2 = p1 + alert_if(fires_oxygen(stage, c), AlertCode::OxygenDrift, rule_severity(c, AlertCode::OxygenDrift));
    lemma_graded_append(p2, fires_recoater(l, stage, c), AlertCode::RecoaterVibration, c);
    let p3 = p2 + alert_if(fires_recoater(l, stage, c), AlertCode::RecoaterVibration, rule_severity(c, AlertCode::RecoaterVibration));
    lemma_graded_append(p3, fires_alignment(l, stage, c), AlertCode::TrackAlignmentError, c);
    let p4 = p3 + alert_if(fires_alignment(l, stage, c), AlertCode::TrackAlignmentError, rule_severity(c, AlertCode::TrackAlignmentError));
    lemma_graded_append(p4, fires_spatter(l, stage, c), AlertCode::SpatterBurst, c);
    let p5 = p4 + alert_if(fires_spatter(l, stage, c), AlertCode::SpatterBurst, rule_severity(c, AlertCode::SpatterBurst));
    lemma_graded_append(p5, fires_saturation(stage, c), AlertCode::ControlSaturation, c);
    let p6 = p5 + alert_if(fires_saturation(stage, c), AlertCode::ControlSaturation, rule_severity(c, AlertCode::ControlSaturation));
    lemma_graded_append(p6, fires_quality(l, c), AlertCode::QualityDrop, c);
    let p7 = p6 + alert_if(fires_quality(l, c), AlertCode::QualityDrop, rule_severity(c, AlertCode::QualityDrop));
    assert(p7 == alerts_for(l, stage, c));
}

/// The state of a detector that has seen no stage and holds no latch.
pub open spec fn initial_latches() -> LatchState {
    LatchState { stage: None, recoater: false, alignment: false, spatter: false, quality: false }
}

/// One evaluation of the detector: the stage of the tick and what its
/// readings show. It stands for a call of `enter_stage` followed by a call of
/// `raise_alerts` with that stage.
pub struct Evaluation {
    pub stage: Seq<char>,
    pub conditions: AlertConditions,
}

/// The state after `enter_stage` has recorded the stage of `e`.
pub open spec fn entered(l: LatchState, e: Evaluation) -> LatchState {
    LatchState { stage: Some(e.stage), ..l }
}

/// The alerts that evaluation `e` raises from state `l`.
pub open spec fn alerts_of(l: LatchState, e: Evaluation) -> Seq<RaisedAlert> {
    alerts_for(entered(l, e), e.stage, e.conditions)
}

/// The state after evaluation `e` from state `l`.
pub open spec fn evaluated(l: LatchState, e: Evaluation) -> LatchState {
    latches_after(entered(l, e), e.stage, e.conditions)
}

/// The state after the evaluations of `history`, in order, from state `l`.
pub open spec fn after_history(l: LatchState, history: Seq<Evaluation>) -> LatchState
    decreases history.len(),
{
    if history.len() == 0 {
        l
    } else {
        evaluated(after_history(l, history.drop_last()), history.last())
    }
}

/// Whether the `i`-th evaluation of `history`, run from state `l`, raised an
/// alert with `code`.
pub open spec fn raised_in_history(
    l: LatchState,
    history: Seq<Evaluation>,
    i: int,
    code: AlertCode,
) -> bool {
    raises(alerts_of(after_history(l, history.take(i)), history[i]), code)
}

/// The codes whose alerts are latched: recoater vibration, track alignment,
/// spatter burst and quality drop.
pub open spec fn is_latched_code(code: AlertCode) -> bool {
    code == AlertCode::RecoaterVibration || code == AlertCode::TrackAlignmentError || code
        == AlertCode::SpatterBurst || code == AlertCode::QualityDrop
}

/// The latch of a latched code.
pub open spec fn latch_of(l: LatchState, code: AlertCode) -> bool {
    match code {
        AlertCode::RecoaterVibration => l.recoater,
        AlertCode::TrackAlignmentError => l.alignment,
        AlertCode::SpatterBurst => l.spatter,
        AlertCode::QualityDrop => l.quality,
        _ => false,
    }
}

/// The reading that re-arms a latched code: vibration below 1.2 mm/s, track
/// error below 3.0 um, spatter below 25 per second; nothing re-arms the
/// quality drop.
pub open spec fn calm_for(c: AlertConditions, code: AlertCode) -> bool {
    match code {
        AlertCode::RecoaterVibration => c.vibration_calm,
        AlertCode::TrackAlignmentError => c.track_error_calm,
        AlertCode::SpatterBurst => c.spatter_calm,
        _ => false,
    }
}

/// The condition under which a latched code fires when its latch is clear:
/// vibration above 2.4 mm/s during PowderSpread, track error above 4.5 um or
/// spatter above 45 per second during LaserScan, quality below 82.
pub open spec fn trigger_for(e: Evaluation, code: AlertCode) -> bool {
    match code {
        AlertCode::RecoaterVibration => e.stage == "PowderSpread"@ && e.conditions.vibration_high,
        AlertCode::TrackAlignmentError => e.stage == "LaserScan"@
            && e.conditions.track_error_high,
        AlertCode::SpatterBurst => e.stage == "LaserScan"@ && e.conditions.spatter_high,
        AlertCode::QualityDrop => e.conditions.quality_low,
        _ => false,
    }
}

/// Whether the latch of `code` is set after `history` run from `l`, told by
/// the history alone: some evaluation raised the alert and no later one had a
/// re-arming reading.
pub open spec fn latched_by_history(l: LatchState, history: Seq<Evaluation>, code: AlertCode) -> bool {
    exists|i: int|
        0 <= i < history.len() && #[trigger] raised_in_history(l, history, i, code) && forall|j: int|
            i < j < history.len() ==> !calm_for((#[trigger] history[j]).conditions, code)
}

proof fn lemma_latched_step(l: LatchState, e: Evaluation, code: AlertCode)
    requires
        is_latched_code(code),
    ensures
        raises(alerts_of(l, e), code) == (trigger_for(e, code) && !latch_of(l, code)),
        latch_of(evaluated(l, e), code) == latch_after(
            latch_of(l, code),
            raises(alerts_of(l, e), code),
            calm_for(e.conditions, code),
        ),
{
    lemma_raises_iff_rule_fires(entered(l, e), e.stage, e.conditions, code);
}

/// Over a whole history from a clear latch, the latch of a latched code is set
/// exactly when some evaluation raised its alert and no later evaluation had a
/// re-arming reading. Stage changes play no part.
pub proof fn lemma_latch_follows_history(l: LatchState, history: Seq<Evaluation>, code: AlertCode)
    requires
        is_latched_code(code),
        !latch_of(l, code),
    ensures
        latch_of(after_history(l, history), code) == latched_by_history(l, history, code),
    decreases history.len(),
{
    if history.len() == 0 {
        assert(!latched_by_history(l, history, code));
    } else {
        let prior = history.drop_last();
        let e = history.last();
        let n = prior.len() as int;
        lemma_latch_follows_history(l, prior, code);
        let before = after_history(l, prior);
        lemma_latched_step(before, e, code);
        assert(history.take(n) =~= prior);
        assert forall|i: int| 0 <= i < n implies raised_in_history(l, history, i, code)
            == raised_in_history(l, prior, i, code) by {
            assert(history.take(i) =~= prior.take(i));
            assert(history[i] == prior[i]);
        }
        assert(raised_in_history(l, history, n, code) == raises(alerts_of(before, e), code));
        if latch_of(after_history(l, history), code) {
            if raises(alerts_of(before, e), code) {
                assert(raised_in_history(l, history, n, code));
            } else {
                let i = choose|i: int|
                    0 <= i < prior.len() && #[trigger] raised_in_history(l, prior, i, code)
                        && forall|j: int|
                        i < j < prior.len() ==> !calm_for((#[trigger] prior[j]).conditions, code);
                assert(raised_in_history(l, history, i, code));
                assert forall|j: int| i < j < history.len() implies !calm_for(
                    (#[trigger] history[j]).conditions,
                    code,
                ) by {
                    if j < n {
                        assert(history[j] == prior[j]);
                    }
                }
            }
        }
        if latched_by_history(l, history, code) {
            let i = choose|i: int|
                0 <= i < history.len() && #[trigger] raised_in_history(l, history, i, code)
                    && forall|j: int|
                    i < j < history.len() ==> !calm_for((#[trigger] history[j]).conditions, code);
            if i < n {
                assert(!calm_for(history[n].conditions, code));
                assert(raised_in_history(l, prior, i, code));
                assert forall|j: int| i < j < prior.len() implies !calm_for(
                    (#[trigger] prior[j]).conditions,
                    code,
                ) by {
                    assert(history[j] == prior[j]);
                }
                assert(latched_by_history(l, prior, code));
            }
        }
    }
}

/// Over a detector's whole life: an evaluation raises recoater vibration,
/// track alignment, spatter burst or quality drop exactly when its trigger
/// holds and the code is armed, that is, no earlier evaluation raised it, or
/// one that came after the last that did had a re-arming reading. Stage
/// changes do not re-arm a code.
pub proof fn lemma_latched_alert_over_history(
    history: Seq<Evaluation>,
    e: Evaluation,
    code: AlertCode,
)
    requires
        is_latched_code(code),
    ensures
        raises(alerts_of(after_history(initial_latches(), history), e), code) == (trigger_for(
            e,
            code,
        ) && !latched_by_history(initial_latches(), history, code)),
{
    lemma_latch_follows_history(initial_latches(), history, code);
    lemma_latched_step(after_history(initial_latches(), history), e, code);
}

/// A detector raises a quality drop at most once in its life: an evaluation
/// raises it exactly when the quality is low and no earlier evaluation, in
/// whatever stage, raised it.
pub proof fn lemma_quality_drop_once_in_lifetime(history: Seq<Evaluation>, e: Evaluation)
    ensures
        raises(alerts_of(after_history(initial_latches(), history), e), AlertCode::QualityDrop)
            == (e.conditions.quality_low && forall|i: int|
            0 <= i < history.len() ==> !#[trigger] raised_in_history(
                initial_latches(),
                history,
                i,
                AlertCode::QualityDrop,
            )),
{
    lemma_latched_alert_over_history(history, e, AlertCode::QualityDrop);
    let l0 = initial_latches();
    if latched_by_history(l0, history, AlertCode::QualityDrop) {
        let i = choose|i: int|
            0 <= i < history.len() && #[trigger] raised_in_history(
                l0,
                history,
                i,
                AlertCode::QualityDrop,
            ) && forall|j: int|
                i < j < history.len() ==> !calm_for(
                    (#[trigger] history[j]).conditions,
                    AlertCode::QualityDrop,
                );
        assert(raised_in_history(l0, history, i, AlertCode::QualityDrop));
    }
    if exists|i: int|
        0 <= i < history.len() && #[trigger] raised_in_history(
            l0,
            history,
            i,
            AlertCode::QualityDrop,
        ) {
        let i = choose|i: int|
            0 <= i < history.len() && #[trigger] raised_in_history(
                l0,
                history,
                i,
                AlertCode::QualityDrop,
            );
        assert forall|j: int| i < j < history.len() implies !calm_for(
            (#[trigger] history[j]).conditions,
            AlertCode::QualityDrop,
        ) by {}
        assert(latched_by_history(l0, history, AlertCode::QualityDrop));
    }
}

/// The alert record of run `run_id` with identifier `id` and time stamp
/// `timestamp`.
pub fn alert_record(
    id: String,
    timestamp: String,
    run_id: &str,
    severity: &str,
    code: &str,
    message: String,
    stage: &str,
) -> (a: Alert)
    ensures
        a.id@ == id@,
        a.timestamp@ == timestamp@,
        a.run_id@ == run_id@,
        a.severity@ == severity@,
        a.code@ == code@,
        a.message@ == message@,
        a.stage@ == stage@,
{
    Alert {
        id,
        run_id: run_id.to_owned(),
        timestamp,
        severity: severity.to_owned(),
        code: code.to_owned(),
        message,
        stage: stage.to_owned(),
    }
}

/// Builds an alert of run `run_id`, with a fresh random identifier and the
/// current time as its time stamp; `None` where the random source or the
/// clock fails.
pub fn alert(run_id: &str, severity: &str, code: &str, message: String, stage: &str) -> (a:
    Option<Alert>)
    ensures
        a matches Some(a) ==> {
            &&& a.run_id@ == run_id@
            &&& a.severity@ == severity@
            &&& a.code@ == code@
            &&& a.message@ == message@
            &&& a.stage@ == stage@
            &&& is_v4_uuid_text(a.id@)
            &&& ends_with_utc_offset(a.timestamp@)
        },
{
    let id = match random_id() {
        Some(id) => id,
        None => return None,
    };
    let timestamp = match timestamp_now() {
        Some(timestamp) => timestamp,
        None => return None,
    };
    Some(alert_record(id, timestamp, run_id, severity, code, message, stage))
}

} // verus!
