//! The export/unexport lifecycle and the attribute operations, driven
//! against simulated filesystem primitives.

use std::cell::Cell;
use std::cell::RefCell;

use sysfs_pwm::paths::chip_dir_path;
use sysfs_pwm::paths::chip_file_path;
use sysfs_pwm::paths::line_dir_path;
use sysfs_pwm::paths::line_file_path;
use sysfs_pwm::release_outcome;
use sysfs_pwm::Error;
use sysfs_pwm::Polarity;
use sysfs_pwm::Pwm;
use sysfs_pwm::PwmChip;

#[test]
fn paths_follow_the_wire_protocol() {
    assert_eq!(chip_dir_path(0), "/sys/class/pwm/pwmchip0");
    assert_eq!(chip_file_path(0, "npwm"), "/sys/class/pwm/pwmchip0/npwm");
    assert_eq!(chip_file_path(2, "export"), "/sys/class/pwm/pwmchip2/export");
    assert_eq!(line_dir_path(0, 1), "/sys/class/pwm/pwmchip0/pwm1");
    assert_eq!(line_file_path(0, 1, "duty_cycle"), "/sys/class/pwm/pwmchip0/pwm1/duty_cycle");
    assert_eq!(line_file_path(10, 12, "enable"), "/sys/class/pwm/pwmchip10/pwm12/enable");
}

#[test]
fn chip_new_present() {
    let seen = RefCell::new(Vec::new());
    let chip = PwmChip::new(0, |p: String| -> Result<(), String> {
        seen.borrow_mut().push(p);
        Ok(())
    })
    .unwrap();
    assert_eq!(chip.number, 0);
    assert_eq!(*seen.borrow(), vec![String::from("/sys/class/pwm/pwmchip0")]);
}

#[test]
fn chip_new_absent() {
    let e = PwmChip::new(3, |_p: String| -> Result<(), String> {
        Err(String::from("No such file or directory"))
    })
    .unwrap_err();
    assert!(matches!(e, Error::Io(ref m) if m == "No such file or directory"));
}

#[test]
fn pwm_new_present_and_absent() {
    let pwm = Pwm::new(0, 1, |_p: String| -> Result<(), String> { Ok(()) }).unwrap();
    assert_eq!(pwm.chip.number, 0);
    assert_eq!(pwm.number, 1);
    let e = Pwm::new(9, 0, |_p: String| -> Result<(), String> { Err(String::from("gone")) })
        .unwrap_err();
    assert!(matches!(e, Error::Io(_)));
}

#[test]
fn chip_count_reads_npwm() {
    let chip = PwmChip { number: 0 };
    let n = chip
        .count(|p: String| -> Result<String, String> {
            assert_eq!(p, "/sys/class/pwm/pwmchip0/npwm");
            Ok(String::from("2\n"))
        })
        .unwrap();
    assert_eq!(n, 2);
}

#[test]
fn chip_count_failures() {
    let chip = PwmChip { number: 0 };
    let e = chip
        .count(|_p: String| -> Result<String, String> { Err(String::from("denied")) })
        .unwrap_err();
    assert!(matches!(e, Error::Io(ref m) if m == "denied"));
    let e = chip
        .count(|_p: String| -> Result<String, String> { Ok(String::from("many\n")) })
        .unwrap_err();
    assert!(matches!(e, Error::Unexpected(ref raw) if raw == "many\n"));
}

#[test]
fn export_writes_channel_index() {
    let chip = PwmChip { number: 0 };
    let wrote = RefCell::new(Vec::new());
    chip.export(
        1,
        |p: String| -> bool {
            assert_eq!(p, "/sys/class/pwm/pwmchip0/pwm1");
            false
        },
        |p: String, v: String| -> Result<(), String> {
            wrote.borrow_mut().push((p, v));
            Ok(())
        },
    )
    .unwrap();
    assert_eq!(
        *wrote.borrow(),
        vec![(String::from("/sys/class/pwm/pwmchip0/export"), String::from("1"))]
    );
}

#[test]
fn export_already_exported_is_a_no_op() {
    let chip = PwmChip { number: 0 };
    let wrote = Cell::new(false);
    chip.export(
        1,
        |_p: String| -> bool { true },
        |_p: String, _v: String| -> Result<(), String> {
            wrote.set(true);
            Ok(())
        },
    )
    .unwrap();
    assert!(!wrote.get());
}

#[test]
fn export_reports_write_failure() {
    let chip = PwmChip { number: 0 };
    let e = chip
        .export(
            1,
            |_p: String| -> bool { false },
            |_p: String, _v: String| -> Result<(), String> { Err(String::from("busy")) },
        )
        .unwrap_err();
    assert!(matches!(e, Error::Io(ref m) if m == "busy"));
}

#[test]
fn unexport_writes_channel_index() {
    let chip = PwmChip { number: 2 };
    let wrote = RefCell::new(Vec::new());
    chip.unexport(
        4,
        |p: String| -> bool {
            assert_eq!(p, "/sys/class/pwm/pwmchip2/pwm4");
            true
        },
        |p: String, v: String| -> Result<(), String> {
            wrote.borrow_mut().push((p, v));
            Ok(())
        },
    )
    .unwrap();
    assert_eq!(
        *wrote.borrow(),
        vec![(String::from("/sys/class/pwm/pwmchip2/unexport"), String::from("4"))]
    );
}

#[test]
fn unexport_not_exported_is_a_no_op() {
    let chip = PwmChip { number: 0 };
    let wrote = Cell::new(false);
    chip.unexport(
        1,
        |_p: String| -> bool { false },
        |_p: String, _v: String| -> Result<(), String> {
            wrote.set(true);
            Ok(())
        },
    )
    .unwrap();
    assert!(!wrote.get());
}

fn test_pwm() -> Pwm {
    Pwm::new(0, 1, |_p: String| -> Result<(), String> { Ok(()) }).unwrap()
}

#[test]
fn enable_writes_one_or_zero() {
    let pwm = test_pwm();
    let wrote = RefCell::new(Vec::new());
    pwm.enable(true, |p: String, v: String| -> Result<(), String> {
        wrote.borrow_mut().push((p, v));
        Ok(())
    })
    .unwrap();
    pwm.enable(false, |p: String, v: String| -> Result<(), String> {
        wrote.borrow_mut().push((p, v));
        Ok(())
    })
    .unwrap();
    let enable = String::from("/sys/class/pwm/pwmchip0/pwm1/enable");
    assert_eq!(
        *wrote.borrow(),
        vec![(enable.clone(), String::from("1")), (enable, String::from("0"))]
    );
}

#[test]
fn get_enabled_states() {
    let pwm = test_pwm();
    let on = pwm
        .get_enabled(|p: String| -> Result<String, String> {
            assert_eq!(p, "/sys/class/pwm/pwmchip0/pwm1/enable");
            Ok(String::from("1\n"))
        })
        .unwrap();
    assert!(on);
    let off = pwm
        .get_enabled(|_p: String| -> Result<String, String> { Ok(String::from("0")) })
        .unwrap();
    assert!(!off);
    let e = pwm
        .get_enabled(|_p: String| -> Result<String, String> { Err(String::from("denied")) })
        .unwrap_err();
    assert!(matches!(e, Error::Io(_)));
    let e = pwm
        .get_enabled(|_p: String| -> Result<String, String> { Ok(String::from("maybe")) })
        .unwrap_err();
    assert!(matches!(e, Error::Unexpected(_)));
}

#[test]
fn period_and_duty_cycle_reads() {
    let pwm = test_pwm();
    let period = pwm
        .get_period_ns(|p: String| -> Result<String, String> {
            assert_eq!(p, "/sys/class/pwm/pwmchip0/pwm1/period");
            Ok(String::from("20000\n"))
        })
        .unwrap();
    assert_eq!(period, 20000);
    let duty = pwm
        .get_duty_cycle_ns(|p: String| -> Result<String, String> {
            assert_eq!(p, "/sys/class/pwm/pwmchip0/pwm1/duty_cycle");
            Ok(String::from("5000"))
        })
        .unwrap();
    assert_eq!(duty, 5000);
}

#[test]
fn period_and_duty_cycle_writes() {
    let pwm = test_pwm();
    let wrote = RefCell::new(Vec::new());
    pwm.set_period_ns(20000, |p: String, v: String| -> Result<(), String> {
        wrote.borrow_mut().push((p, v));
        Ok(())
    })
    .unwrap();
    pwm.set_duty_cycle_ns(5000, |p: String, v: String| -> Result<(), String> {
        wrote.borrow_mut().push((p, v));
        Ok(())
    })
    .unwrap();
    assert_eq!(
        *wrote.borrow(),
        vec![
            (String::from("/sys/class/pwm/pwmchip0/pwm1/period"), String::from("20000")),
            (String::from("/sys/class/pwm/pwmchip0/pwm1/duty_cycle"), String::from("5000")),
        ]
    );
}

#[test]
fn duty_cycle_write_then_read_round_trip() {
    let pwm = test_pwm();
    let stored = RefCell::new(String::new());
    for v in [0u32, 5000, 20000] {
        pwm.set_duty_cycle_ns(v, |_p: String, t: String| -> Result<(), String> {
            *stored.borrow_mut() = t;
            Ok(())
        })
        .unwrap();
        let back = pwm
            .get_duty_cycle_ns(|_p: String| -> Result<String, String> {
                Ok(stored.borrow().clone())
            })
            .unwrap();
        assert_eq!(back, v);
    }
}

#[test]
fn polarity_write_then_read_round_trip() {
    let pwm = test_pwm();
    for pol in [Polarity::Normal, Polarity::Inverse] {
        let stored = RefCell::new(String::new());
        pwm.set_polarity(pol, |p: String, t: String| -> Result<(), String> {
            assert_eq!(p, "/sys/class/pwm/pwmchip0/pwm1/polarity");
            *stored.borrow_mut() = t;
            Ok(())
        })
        .unwrap();
        let back = pwm
            .get_polarity(|_p: String| -> Result<String, String> { Ok(stored.borrow().clone()) })
            .unwrap();
        assert_eq!(back, pol);
    }
    assert_eq!(
        pwm.get_polarity(|_p: String| -> Result<String, String> {
            Ok(String::from("inversed\n"))
        })
        .unwrap(),
        Polarity::Inverse
    );
}

#[test]
fn capture_reads_the_measured_pair() {
    let pwm = test_pwm();
    let pair = pwm
        .get_capture(|p: String| -> Result<String, String> {
            assert_eq!(p, "/sys/class/pwm/pwmchip0/pwm1/capture");
            Ok(String::from("1000 500"))
        })
        .unwrap();
    assert_eq!(pair, (1000, 500));
    let e = pwm
        .get_capture(|_p: String| -> Result<String, String> { Ok(String::from("1000")) })
        .unwrap_err();
    assert!(matches!(e, Error::Unexpected(_)));
}

#[test]
fn with_exported_brackets_the_work() {
    let pwm = test_pwm();
    let log = RefCell::new(Vec::new());
    let exported = Cell::new(false);
    let probe = |_p: String| -> bool { exported.get() };
    let write = |p: String, v: String| -> Result<(), String> {
        if p.ends_with("/export") {
            exported.set(true);
        }
        if p.ends_with("/unexport") {
            exported.set(false);
        }
        log.borrow_mut().push((p, v));
        Ok(())
    };
    pwm.with_exported(probe, write, || -> Result<(), Error> {
        log.borrow_mut().push((String::from("work"), String::new()));
        Ok(())
    })
    .unwrap();
    assert!(!exported.get());
    assert_eq!(
        *log.borrow(),
        vec![
            (String::from("/sys/class/pwm/pwmchip0/export"), String::from("1")),
            (String::from("work"), String::new()),
            (String::from("/sys/class/pwm/pwmchip0/unexport"), String::from("1")),
        ]
    );
}

#[test]
fn with_exported_releases_after_failed_work() {
    let pwm = test_pwm();
    let exported = Cell::new(false);
    let probe = |_p: String| -> bool { exported.get() };
    let write = |p: String, _v: String| -> Result<(), String> {
        if p.ends_with("/export") {
            exported.set(true);
        }
        if p.ends_with("/unexport") {
            exported.set(false);
        }
        Ok(())
    };
    let e = pwm
        .with_exported(probe, write, || -> Result<(), Error> {
            Err(Error::Unexpected(String::from("work went wrong")))
        })
        .unwrap_err();
    assert!(!exported.get());
    assert!(matches!(e, Error::Unexpected(ref raw) if raw == "work went wrong"));
}

#[test]
fn with_exported_reports_both_failures() {
    let pwm = test_pwm();
    let exported = Cell::new(false);
    let probe = |_p: String| -> bool { exported.get() };
    let write = |p: String, _v: String| -> Result<(), String> {
        if p.ends_with("/export") {
            exported.set(true);
            Ok(())
        } else {
            Err(String::from("stuck"))
        }
    };
    let e = pwm
        .with_exported(probe, write, || -> Result<(), Error> {
            Err(Error::Unexpected(String::from("bad")))
        })
        .unwrap_err();
    assert_eq!(e.message(), "Failed unexporting due to:\nstuck\nwhile handling:\nUnexpected: bad");
    match e {
        Error::Compound(unexp, cause) => {
            assert!(matches!(*unexp, Error::Io(ref m) if m == "stuck"));
            assert!(matches!(*cause, Error::Unexpected(ref raw) if raw == "bad"));
        },
        other => panic!("expected a compound failure, got {:?}", other),
    }
}

#[test]
fn with_exported_stops_when_export_fails() {
    let pwm = test_pwm();
    let ran = Cell::new(false);
    let probe = |_p: String| -> bool { false };
    let write = |_p: String, _v: String| -> Result<(), String> { Err(String::from("no kernel")) };
    let e = pwm
        .with_exported(probe, write, || -> Result<(), Error> {
            ran.set(true);
            Ok(())
        })
        .unwrap_err();
    assert!(!ran.get());
    assert!(matches!(e, Error::Io(ref m) if m == "no kernel"));
}

#[test]
fn release_outcome_composition() {
    assert!(release_outcome(Ok(()), Ok(())).is_ok());
    let e = release_outcome(Ok(()), Err(Error::Io(String::from("late")))).unwrap_err();
    assert!(matches!(e, Error::Io(ref m) if m == "late"));
    let e = release_outcome(Err(Error::Unexpected(String::from("work"))), Ok(())).unwrap_err();
    assert!(matches!(e, Error::Unexpected(ref raw) if raw == "work"));
    let e = release_outcome(
        Err(Error::Unexpected(String::from("work"))),
        Err(Error::Io(String::from("late"))),
    )
    .unwrap_err();
    assert!(matches!(e, Error::Compound(_, _)));
}

#[test]
fn export_action_decides_idempotently() {
    let chip = PwmChip { number: 0 };
    assert!(chip.export_action(1, true).is_none());
    let (p, v) = chip.export_action(1, false).unwrap();
    assert_eq!(p, "/sys/class/pwm/pwmchip0/export");
    assert_eq!(v, "1");
    assert!(chip.unexport_action(1, false).is_none());
    let (p, v) = chip.unexport_action(1, true).unwrap();
    assert_eq!(p, "/sys/class/pwm/pwmchip0/unexport");
    assert_eq!(v, "1");
}
