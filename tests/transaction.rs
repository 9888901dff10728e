use output_configuration::config::{ModeSetting, OutputConfig, OutputState, Position, Scale, Transform};
use output_configuration::registry::OutputRegistry;
use output_configuration::request::{ModeConfiguration, OutputConfiguration, OutputMode};
use output_configuration::transaction::{
    apply_configuration, disables_every_output, output_configuration, test_configuration, Action,
    Event, Transaction,
};

fn record(w: i32, h: i32, refresh: u32) -> OutputConfig {
    OutputConfig {
        mode: ModeSetting { width: w, height: h, refresh: Some(refresh) },
        scale: Scale { bits: 1.0f64.to_bits() },
        transform: Transform::Normal,
        position: Position { x: 0, y: 0 },
        vrr: false,
        enabled: OutputState::Enabled,
    }
}

fn enabled(mirroring: Option<usize>) -> OutputConfiguration {
    OutputConfiguration::Enabled {
        mirroring,
        mode: None,
        scale: None,
        transform: None,
        position: None,
        adaptive_sync: None,
    }
}

/// What the collaborators around a transaction saw.
#[derive(Debug, Default)]
struct Trace {
    backend_calls: Vec<bool>,
    resets: usize,
    refreshes: usize,
    persisted: Vec<Vec<OutputConfig>>,
    notifications: usize,
    reset_failed: bool,
}

/// Runs a transaction to its end, answering backend calls from `answers` in order.
fn drive(
    reg: &mut OutputRegistry,
    started: Option<(Transaction, Action)>,
    answers: &[bool],
) -> (bool, Trace) {
    let mut trace = Trace::default();
    let Some((mut t, mut action)) = started else {
        return (false, trace);
    };
    let mut answers = answers.iter();
    loop {
        if let Some(done) = action.outcome() {
            if let Action::Abort { reset_failed } = action {
                trace.reset_failed = reset_failed;
            }
            if done {
                trace.persisted.push(reg.configs.clone());
                trace.notifications += 1;
            }
            return (done, trace);
        }
        let event = match action {
            Action::ApplyBackend { test_only } => {
                trace.backend_calls.push(test_only);
                if *answers.next().unwrap() { Event::BackendAccepted } else { Event::BackendRejected }
            }
            Action::ResetBackend => {
                trace.resets += 1;
                if *answers.next().unwrap() { Event::BackendAccepted } else { Event::BackendRejected }
            }
            Action::Refresh => {
                trace.refreshes += 1;
                Event::Refreshed
            }
            _ => unreachable!(),
        };
        assert!(t.accepts(event));
        action = t.step(reg, event);
    }
}

fn two_outputs() -> OutputRegistry {
    let mut reg = OutputRegistry::new();
    reg.add_output(record(1920, 1080, 60000), true);
    reg.add_output(record(2560, 1440, 144000), true);
    reg
}

#[test]
fn single_output_disable_is_rejected() {
    let mut reg = OutputRegistry::new();
    let x = reg.add_output(record(1920, 1080, 60000), true);
    let before = reg.configs.clone();
    let started = apply_configuration(&mut reg, vec![(x, OutputConfiguration::Disabled)]);
    assert!(started.is_none());
    let (ok, trace) = drive(&mut reg, started, &[]);
    assert!(!ok);
    assert!(trace.backend_calls.is_empty());
    assert_eq!(reg.configs, before);
    assert!(reg.head_enabled(x));
}

#[test]
fn all_disabled_batches_change_nothing() {
    let mut reg = two_outputs();
    let before = reg.configs.clone();
    let batch = vec![(0, OutputConfiguration::Disabled), (1, OutputConfiguration::Disabled)];
    assert!(disables_every_output(&batch));
    assert!(test_configuration(&mut reg, batch).is_none());
    assert!(apply_configuration(&mut reg, vec![]).is_none());
    assert_eq!(reg.configs, before);
    assert_eq!(reg.heads, vec![true, true]);
}

#[test]
fn disabling_one_of_two_outputs_alone_is_still_all_disabled() {
    let mut reg = two_outputs();
    let before = reg.configs.clone();
    let started = apply_configuration(&mut reg, vec![(0, OutputConfiguration::Disabled)]);
    let (ok, trace) = drive(&mut reg, started, &[true]);
    assert!(!ok);
    assert!(trace.backend_calls.is_empty());
    assert_eq!(reg.configs, before);
}

#[test]
fn disabling_one_of_two_outputs() {
    let mut reg = two_outputs();
    let y_before = reg.config(1);
    let started = apply_configuration(
        &mut reg,
        vec![(0, OutputConfiguration::Disabled), (1, enabled(None))],
    );
    let (ok, trace) = drive(&mut reg, started, &[true]);
    assert!(ok);
    assert_eq!(reg.config(0).enabled, OutputState::Disabled);
    assert_eq!(reg.config(0).mode, record(1920, 1080, 60000).mode);
    assert!(!reg.head_enabled(0));
    assert!(reg.head_enabled(1));
    assert_eq!(reg.config(1), y_before);
    assert_eq!(trace.backend_calls, vec![false]);
    assert_eq!(trace.refreshes, 1);
    assert_eq!(trace.persisted.len(), 1);
    assert_eq!(trace.persisted[0].len(), 2);
    assert_eq!(trace.notifications, 1);
}

#[test]
fn mirroring_output_has_its_head_disabled() {
    let mut reg = two_outputs();
    let started = apply_configuration(&mut reg, vec![(0, enabled(Some(1)))]);
    let (ok, _) = drive(&mut reg, started, &[true]);
    assert!(ok);
    assert_eq!(reg.config(0).enabled, OutputState::Mirroring(1));
    assert!(!reg.head_enabled(0));
    assert!(reg.head_enabled(1));
}

#[test]
fn test_mode_success_keeps_changes_and_persists() {
    let mut reg = two_outputs();
    let req = OutputConfiguration::Enabled {
        mirroring: None,
        mode: None,
        scale: Some(Scale { bits: 1.5f64.to_bits() }),
        transform: None,
        position: None,
        adaptive_sync: None,
    };
    let started = test_configuration(&mut reg, vec![(0, req)]);
    let (ok, trace) = drive(&mut reg, started, &[true]);
    assert!(ok);
    assert_eq!(trace.backend_calls, vec![true]);
    assert_eq!(f64::from_bits(reg.config(0).scale.bits), 1.5);
    assert!(reg.head_enabled(0));
    assert_eq!(trace.refreshes, 1);
    assert_eq!(trace.persisted.len(), 1);
    assert_eq!(trace.notifications, 1);
}

#[test]
fn failed_reset_still_rolls_back() {
    let mut reg = two_outputs();
    let before = reg.configs.clone();
    let req = OutputConfiguration::Enabled {
        mirroring: None,
        mode: Some(ModeConfiguration::Custom { width: 800, height: 600, refresh: None }),
        scale: None,
        transform: Some(Transform::Rotated90),
        position: Some(Position { x: 1920, y: 0 }),
        adaptive_sync: Some(true),
    };
    let started = apply_configuration(&mut reg, vec![(1, req), (0, OutputConfiguration::Disabled)]);
    let (ok, trace) = drive(&mut reg, started, &[false, false]);
    assert!(!ok);
    assert_eq!(trace.backend_calls, vec![false]);
    assert_eq!(trace.resets, 1);
    assert!(trace.reset_failed);
    assert_eq!(reg.configs, before);
    assert_eq!(reg.heads, vec![true, true]);
    assert!(trace.persisted.is_empty());
    assert_eq!(trace.notifications, 0);
    assert_eq!(trace.refreshes, 0);
}

#[test]
fn rejected_commit_resets_backend() {
    let mut reg = two_outputs();
    let before = reg.configs.clone();
    let started = output_configuration(&mut reg, false, vec![(0, enabled(Some(1)))]);
    let (ok, trace) = drive(&mut reg, started, &[false, true]);
    assert!(!ok);
    assert_eq!(trace.resets, 1);
    assert!(!trace.reset_failed);
    assert_eq!(reg.configs, before);
}

#[test]
fn rejected_test_rolls_back_without_reset() {
    let mut reg = two_outputs();
    let before = reg.configs.clone();
    let started = test_configuration(&mut reg, vec![(0, OutputConfiguration::Disabled), (1, enabled(None))]);
    let (ok, trace) = drive(&mut reg, started, &[false]);
    assert!(!ok);
    assert_eq!(trace.backend_calls, vec![true]);
    assert_eq!(trace.resets, 0);
    assert_eq!(reg.configs, before);
}

#[test]
fn rollback_with_an_output_named_twice() {
    let mut reg = two_outputs();
    let before = reg.configs.clone();
    let first = OutputConfiguration::Enabled {
        mirroring: None,
        mode: None,
        scale: None,
        transform: None,
        position: Some(Position { x: 5, y: 6 }),
        adaptive_sync: None,
    };
    let started = test_configuration(&mut reg, vec![(0, first), (0, enabled(Some(1)))]);
    assert_eq!(reg.config(0).position, Position { x: 5, y: 6 });
    assert_eq!(reg.config(0).enabled, OutputState::Mirroring(1));
    let (ok, _) = drive(&mut reg, started, &[false]);
    assert!(!ok);
    assert_eq!(reg.configs, before);
}

#[test]
fn accepted_batch_sets_only_requested_fields() {
    let mut reg = two_outputs();
    let req = OutputConfiguration::Enabled {
        mirroring: None,
        mode: None,
        scale: None,
        transform: Some(Transform::Flipped180),
        position: None,
        adaptive_sync: Some(true),
    };
    let started = apply_configuration(&mut reg, vec![(1, req)]);
    let (ok, _) = drive(&mut reg, started, &[true]);
    assert!(ok);
    let mut expected = record(2560, 1440, 144000);
    expected.transform = Transform::Flipped180;
    expected.vrr = true;
    assert_eq!(reg.config(1), expected);
    assert_eq!(reg.config(0), record(1920, 1080, 60000));
}

#[test]
fn disabled_output_is_enabled_again() {
    let mut reg = OutputRegistry::new();
    let mut off = record(1280, 720, 60000);
    off.enabled = OutputState::Disabled;
    reg.add_output(off, false);
    let started = apply_configuration(&mut reg, vec![(0, enabled(None))]);
    let (ok, _) = drive(&mut reg, started, &[true]);
    assert!(ok);
    assert_eq!(reg.config(0).enabled, OutputState::Enabled);
    assert!(reg.head_enabled(0));
}

#[test]
fn applying_twice_equals_applying_once() {
    let batch = vec![
        (
            0,
            OutputConfiguration::Enabled {
                mirroring: None,
                mode: Some(ModeConfiguration::Custom { width: 1024, height: 768, refresh: Some(75000) }),
                scale: Some(Scale { bits: 2.0f64.to_bits() }),
                transform: None,
                position: Some(Position { x: -10, y: 20 }),
                adaptive_sync: None,
            },
        ),
        (1, OutputConfiguration::Disabled),
    ];
    let mut once = two_outputs();
    let started = apply_configuration(&mut once, batch.clone());
    assert!(drive(&mut once, started, &[true]).0);
    let mut twice = two_outputs();
    let started = apply_configuration(&mut twice, batch.clone());
    assert!(drive(&mut twice, started, &[true]).0);
    let started = apply_configuration(&mut twice, batch);
    assert!(drive(&mut twice, started, &[true]).0);
    assert_eq!(once.configs, twice.configs);
    assert_eq!(once.heads, twice.heads);
}

#[test]
fn named_mode_sets_size_and_refresh() {
    let mode = ModeConfiguration::Mode(OutputMode { width: 3840, height: 2160, refresh: 59940 });
    assert_eq!(mode.setting(), ModeSetting { width: 3840, height: 2160, refresh: Some(59940) });
    let mut c = record(1920, 1080, 60000);
    let req = OutputConfiguration::Enabled {
        mirroring: None,
        mode: Some(mode),
        scale: None,
        transform: None,
        position: None,
        adaptive_sync: None,
    };
    req.apply_to(&mut c);
    assert_eq!(c.mode, ModeSetting { width: 3840, height: 2160, refresh: Some(59940) });
}

#[test]
fn custom_mode_without_refresh_clears_refresh() {
    let mut c = record(1920, 1080, 60000);
    let req = OutputConfiguration::Enabled {
        mirroring: None,
        mode: Some(ModeConfiguration::Custom { width: 640, height: 480, refresh: None }),
        scale: None,
        transform: None,
        position: None,
        adaptive_sync: None,
    };
    req.apply_to(&mut c);
    assert_eq!(c.mode, ModeSetting { width: 640, height: 480, refresh: None });
}

#[test]
fn negative_refresh_wraps() {
    let mode = ModeConfiguration::Custom { width: 1, height: 1, refresh: Some(-1) };
    assert_eq!(mode.setting().refresh, Some(u32::MAX));
    let mode = ModeConfiguration::Mode(OutputMode { width: 1, height: 1, refresh: i32::MIN });
    assert_eq!(mode.setting().refresh, Some(0x8000_0000));
}

#[test]
fn head_classification_of_requests() {
    assert!(enabled(None).enables_head());
    assert!(!enabled(Some(3)).enables_head());
    assert!(!OutputConfiguration::Disabled.enables_head());
    assert!(OutputConfiguration::Disabled.is_disabled());
    assert!(!enabled(None).is_disabled());
}

#[test]
fn disabled_then_enabled_in_one_batch_leaves_head_disabled() {
    let mut reg = two_outputs();
    let started = apply_configuration(&mut reg, vec![(0, OutputConfiguration::Disabled), (0, enabled(None))]);
    let (ok, _) = drive(&mut reg, started, &[true]);
    assert!(ok);
    assert_eq!(reg.config(0).enabled, OutputState::Enabled);
    assert!(!reg.head_enabled(0));
}

#[test]
fn unexpected_events_are_not_accepted() {
    let mut reg = two_outputs();
    let (mut t, action) = apply_configuration(&mut reg, vec![(0, enabled(None))]).unwrap();
    assert_eq!(action, Action::ApplyBackend { test_only: false });
    assert!(!t.accepts(Event::Refreshed));
    assert!(t.accepts(Event::BackendAccepted));
    let action = t.step(&mut reg, Event::BackendAccepted);
    assert_eq!(action, Action::Refresh);
    assert!(!t.accepts(Event::BackendAccepted));
    let action = t.step(&mut reg, Event::Refreshed);
    assert_eq!(action, Action::Commit);
    assert!(!t.accepts(Event::Refreshed));
}

#[test]
fn batch_must_name_known_outputs() {
    let reg = two_outputs();
    assert!(reg.names_outputs_of(&vec![(0, enabled(None)), (1, OutputConfiguration::Disabled)]));
    assert!(!reg.names_outputs_of(&vec![(2, enabled(None))]));
    assert_eq!(reg.len(), 2);
}

#[test]
fn outcomes_of_actions() {
    assert_eq!(Action::Commit.outcome(), Some(true));
    assert_eq!(Action::Abort { reset_failed: true }.outcome(), Some(false));
    assert_eq!(Action::Refresh.outcome(), None);
    assert_eq!(Action::ResetBackend.outcome(), None);
    assert_eq!(Action::ApplyBackend { test_only: true }.outcome(), None);
}
