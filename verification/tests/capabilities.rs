//! What a camera is advertised as able to do.

use neolink::camera::ReadFailure;
use neolink::onvif::capabilities::{
    apply_support, asks_zoom, cached, is_refusal, parse_ptz_mode, ptz_control_ability,
    ptz_preset_write_ability, resolve, run_probe, with_lens, AbilityInfo, AbilityInfoSubModule,
    AbilityInfoToken, CacheEntry, CameraCapabilities, LensRanges, Probe, PtzMode, Support,
    SupportItem,
};

fn probe() -> Probe {
    Probe::default()
}

/// An offline camera must not look like a successfully probed one.
#[test]
fn a_camera_that_answered_nothing_is_not_informative() {
    let mut p = probe();
    // What `run_probe` records when the floodlight read did not get an
    // answer, as opposed to getting a refusal.
    p.floodlight = None;
    assert!(
        !p.is_informative(),
        "a probe with no answers must not be treated as an answer"
    );
}

/// A refusal *is* an answer: the camera replied, and what it said is that
/// it has no floodlight. That is exactly the evidence the probe is for.
#[test]
fn a_refused_floodlight_read_is_informative() {
    let mut p = probe();
    p.floodlight = Some(false);
    assert!(p.is_informative());
    assert!(!resolve(&p).floodlight);

    let mut p = probe();
    p.floodlight = Some(true);
    assert!(p.is_informative());
    assert!(resolve(&p).floodlight);
}

/// Any single answer is enough to key the result to the connection; the
/// floodlight is just the one that is always attempted.
#[test]
fn one_answered_field_is_enough_to_be_informative() {
    for p in [
        Probe {
            support_ptz_control: Some(true),
            ..Default::default()
        },
        Probe {
            ability_control: Some(false),
            ..Default::default()
        },
        Probe {
            zoom_range: Some((0, 100)),
            ..Default::default()
        },
    ] {
        assert!(p.is_informative(), "{p:?}");
    }
    assert!(!Probe::default().is_informative());
}

/// However the floodlight read failed, the *resolved* capability is the
/// same conservative "no floodlight"; only the caching decision changes.
#[test]
fn an_unanswered_floodlight_still_resolves_to_absent() {
    let mut p = probe();
    p.floodlight = None;
    assert!(!resolve(&p).floodlight);
}

/// The whole point of the fallbacks: a camera that says nothing keeps
/// every capability.
#[test]
fn a_silent_camera_keeps_every_capability() {
    let caps = resolve(&probe());
    assert_eq!(
        caps,
        CameraCapabilities {
            pan_tilt: true,
            zoom: true,
            presets: true,
            preset_write: true,
            audio: true,
            led_ctrl: true,
            osd: true,
            // The two exceptions, both deliberate: a floodlight is a
            // physical accessory we probe for rather than a flag a
            // firmware might omit, and a focus motor needs a measured
            // range before we claim it exists.
            floodlight: false,
            focus: false,
        }
    );
    assert!(caps.ptz());
}

#[test]
fn audio_is_denied_by_either_the_device_count_or_the_channel_flag() {
    let mut p = probe();
    apply_support(
        &mut p,
        &Support {
            audio_num: Some(0),
            ..Default::default()
        },
        0,
    );
    assert_eq!(p.support_audio, Some(false));
    assert!(!resolve(&p).audio);

    // A device with audio somewhere still lets the per-channel flag speak
    // for this channel.
    let mut p = probe();
    apply_support(
        &mut p,
        &Support {
            audio_num: Some(4),
            items: vec![SupportItem {
                chn_id: 2,
                no_audio: Some(1),
                ..Default::default()
            }],
            ..Default::default()
        },
        2,
    );
    assert_eq!(
        p.support_audio,
        Some(false),
        "noAudio=1 means no microphone"
    );

    let mut p = probe();
    apply_support(
        &mut p,
        &support_with(SupportItem {
            chn_id: 0,
            no_audio: Some(0),
            ..Default::default()
        }),
        0,
    );
    assert_eq!(p.support_audio, Some(true));
    assert!(resolve(&p).audio);
}

/// The two audio signals are combined, not overwritten. A firmware that
/// reports zero audio channels device-wide *and* `noAudio == 0` on the
/// channel is contradicting itself, and the negative has to win.
#[test]
fn a_contradictory_channel_flag_cannot_restore_audio() {
    let mut p = probe();
    apply_support(
        &mut p,
        &Support {
            audio_num: Some(0),
            items: vec![SupportItem {
                chn_id: 0,
                no_audio: Some(0),
                ..Default::default()
            }],
            ..Default::default()
        },
        0,
    );
    assert_eq!(p.support_audio, Some(false));
    assert!(!resolve(&p).audio);
}

#[test]
fn led_and_osd_flags_are_read_per_channel() {
    let mut p = probe();
    apply_support(
        &mut p,
        &support_with(SupportItem {
            chn_id: 0,
            led_ctrl: Some(0),
            osd_cfg: Some(1),
            ..Default::default()
        }),
        0,
    );
    let caps = resolve(&p);
    assert!(!caps.led_ctrl);
    assert!(caps.osd);
}

/// A floodlight is only advertised once the camera has answered a
/// floodlight read: a dead switch in every client's UI is worse than a
/// missing one.
#[test]
fn the_floodlight_relay_needs_positive_evidence() {
    assert!(!resolve(&probe()).floodlight);
    assert!(
        resolve(&Probe {
            floodlight: Some(true),
            ..probe()
        })
        .floodlight
    );
}

#[test]
fn focus_needs_a_measured_range() {
    assert!(!resolve(&probe()).focus, "unknown is not a focus motor");
    assert!(
        !resolve(&Probe {
            focus_range: Some((100, 100)),
            ..probe()
        })
        .focus,
        "a zero-width range is a fixed lens"
    );
    let caps = resolve(&Probe {
        focus_range: Some((0, 4000)),
        ..probe()
    });
    assert!(caps.focus);
    assert!(caps.imaging());
}

/// Focus rides on the same `control` ability as the motor, so losing that
/// ability has to take focus with it.
#[test]
fn no_control_ability_removes_focus_too() {
    let caps = resolve(&Probe {
        ability_control: Some(false),
        focus_range: Some((0, 4000)),
        ..probe()
    });
    assert!(!caps.focus);
    assert!(!caps.ptz());
}

/// The Imaging service only exists for the controls it can actually offer.
#[test]
fn imaging_needs_something_to_control() {
    let caps = resolve(&Probe {
        support_led_ctrl: Some(false),
        ..probe()
    });
    assert!(!caps.imaging(), "no IR cut filter and no focus motor");
    assert!(caps.relays(), "the siren is still there");
}

#[test]
fn a_measured_zero_width_zoom_range_removes_zoom() {
    let caps = resolve(&Probe {
        zoom_range: Some((1000, 1000)),
        ..probe()
    });
    assert!(!caps.zoom);
    assert!(caps.pan_tilt, "pan/tilt is a separate question");
    assert!(caps.ptz());
}

/// A real range beats `ptzMode`, which some firmwares under-report.
#[test]
fn a_measured_range_overrides_the_mode_string() {
    let caps = resolve(&Probe {
        support_mode: parse_ptz_mode("pt"),
        zoom_range: Some((1000, 3000)),
        ..probe()
    });
    assert!(caps.zoom);

    let caps = resolve(&Probe {
        support_mode: parse_ptz_mode("ptz"),
        zoom_range: Some((0, 0)),
        ..probe()
    });
    assert!(!caps.zoom);
}

#[test]
fn the_mode_string_decides_zoom_when_the_range_is_unknown() {
    let caps = resolve(&Probe {
        support_mode: parse_ptz_mode("pt"),
        ..probe()
    });
    assert!(!caps.zoom);
    assert!(caps.pan_tilt);
}

/// A zoom-only camera (fixed mount, motorised lens) must not advertise a
/// pan/tilt space.
#[test]
fn a_zoom_only_camera_has_no_pan_tilt() {
    let caps = resolve(&Probe {
        support_mode: parse_ptz_mode("z"),
        zoom_range: Some((1000, 3000)),
        ..probe()
    });
    assert!(!caps.pan_tilt);
    assert!(caps.zoom);
    assert!(caps.ptz());
}

/// Without the `control` ability every PTZ call faults, so advertising any
/// of it is a lie regardless of the hardware.
#[test]
fn no_control_ability_removes_all_ptz() {
    let caps = resolve(&Probe {
        ability_control: Some(false),
        support_mode: parse_ptz_mode("ptz"),
        zoom_range: Some((1000, 3000)),
        ..probe()
    });
    assert!(!caps.ptz());
}

#[test]
fn support_can_deny_ptz_outright() {
    let caps = resolve(&Probe {
        support_ptz_control: Some(false),
        ..probe()
    });
    assert!(!caps.ptz());
}

#[test]
fn presets_need_a_motor_to_be_meaningful() {
    let caps = resolve(&Probe {
        support_mode: Some(PtzMode::default()),
        zoom_range: Some((0, 0)),
        ..probe()
    });
    assert!(!caps.presets);
    assert!(!caps.ptz());
}

#[test]
fn presets_can_be_denied_on_a_camera_that_moves() {
    let caps = resolve(&Probe {
        support_presets: Some(false),
        ..probe()
    });
    assert!(!caps.presets);
    assert!(!caps.preset_write, "nothing to write into");
    assert!(caps.pan_tilt);
    assert!(caps.ptz(), "the PTZ service is still worth having");
}

/// A `preset_ro` account can jump to stored positions but not redefine
/// them, and the two must be advertised separately.
#[test]
fn recalling_and_storing_presets_are_separate_permissions() {
    let caps = resolve(&Probe {
        ability_preset_write: Some(false),
        ..probe()
    });
    assert!(caps.presets);
    assert!(!caps.preset_write);
}

#[test]
fn presets_are_writable_when_nothing_says_otherwise() {
    assert!(resolve(&probe()).preset_write);
    assert!(
        resolve(&Probe {
            ability_preset_write: Some(true),
            ..probe()
        })
        .preset_write
    );
}

/// A camera that cannot move at all cannot have a writable preset table
/// either, whatever the ability list says.
#[test]
fn preset_writes_need_a_preset_table() {
    let caps = resolve(&Probe {
        support_presets: Some(false),
        ability_preset_write: Some(true),
        ..probe()
    });
    assert!(!caps.preset_write);
}

#[test]
fn ptz_mode_vocabulary() {
    assert_eq!(
        parse_ptz_mode("pt"),
        Some(PtzMode {
            pan: true,
            tilt: true,
            zoom: false
        })
    );
    assert_eq!(
        parse_ptz_mode("PTZ"),
        Some(PtzMode {
            pan: true,
            tilt: true,
            zoom: true
        })
    );
    assert_eq!(
        parse_ptz_mode(" p "),
        Some(PtzMode {
            pan: true,
            tilt: false,
            zoom: false
        })
    );
    // Unknown vocabulary is unknown, not empty: guessing here would strip
    // capabilities from a camera that has them.
    assert_eq!(parse_ptz_mode(""), None);
    assert_eq!(parse_ptz_mode("3d"), None);
    assert_eq!(parse_ptz_mode("basic"), None);
}

fn support_with(item: SupportItem) -> Support {
    Support {
        items: vec![item],
        ..Default::default()
    }
}

#[test]
fn support_flags_are_read_from_the_matching_channel() {
    let mut p = probe();
    apply_support(
        &mut p,
        &Support {
            ptz_mode: Some("pt".to_string()),
            items: vec![
                SupportItem {
                    chn_id: 0,
                    ptz_control: Some(1),
                    ptz_preset: Some(1),
                    ..Default::default()
                },
                SupportItem {
                    chn_id: 1,
                    ptz_control: Some(0),
                    ptz_preset: Some(0),
                    ..Default::default()
                },
            ],
            ..Default::default()
        },
        1,
    );
    assert_eq!(p.support_ptz_control, Some(false));
    assert_eq!(p.support_presets, Some(false));
    assert_eq!(p.support_mode, parse_ptz_mode("pt"));
}

/// An NVR channel we have no `item` for must not inherit another
/// channel's flags.
#[test]
fn an_unlisted_channel_learns_nothing_channel_specific() {
    let mut p = probe();
    apply_support(
        &mut p,
        &support_with(SupportItem {
            chn_id: 0,
            ptz_control: Some(1),
            ..Default::default()
        }),
        3,
    );
    assert_eq!(p.support_ptz_control, None);
}

#[test]
fn ptz_type_zero_means_no_ptz_hardware() {
    let mut p = probe();
    apply_support(
        &mut p,
        &support_with(SupportItem {
            chn_id: 0,
            ptz_type: Some(0),
            ..Default::default()
        }),
        0,
    );
    assert_eq!(p.support_ptz_control, Some(false));
}

/// `ptzControl` is the explicit flag; `ptzType` is only a fallback, so the
/// two can never contradict each other into a false negative.
#[test]
fn an_explicit_control_flag_wins_over_ptz_type() {
    let mut p = probe();
    apply_support(
        &mut p,
        &support_with(SupportItem {
            chn_id: 0,
            ptz_control: Some(1),
            ptz_type: Some(0),
            ..Default::default()
        }),
        0,
    );
    assert_eq!(p.support_ptz_control, Some(true));
}

fn ability(channel_id: Option<u8>, values: &str) -> AbilityInfo {
    AbilityInfo {
        ptz: Some(AbilityInfoToken {
            sub_module: vec![AbilityInfoSubModule {
                channel_id,
                ability_value: values.to_string(),
            }],
        }),
        ..Default::default()
    }
}

#[test]
fn control_ability_is_found_in_the_ptz_token() {
    assert_eq!(
        ptz_control_ability(&ability(Some(0), "control_rw, preset_rw"), 0),
        Some(true)
    );
    assert_eq!(
        ptz_control_ability(&ability(Some(0), "preset_ro"), 0),
        Some(false)
    );
}

/// Every PTZ call demands `control` read/write, so a read-only
/// `control` grant moves nothing; advertising PTZ for it would be a lie.
#[test]
fn read_only_control_is_not_control() {
    assert_eq!(
        ptz_control_ability(&ability(Some(0), "control_ro, preset_rw"), 0),
        Some(false)
    );
    assert!(!resolve(&Probe {
        ability_control: Some(false),
        ..probe()
    })
    .ptz());
}

#[test]
fn the_preset_ability_carries_its_own_read_write_kind() {
    assert_eq!(
        ptz_preset_write_ability(&ability(Some(0), "control_rw, preset_rw"), 0),
        Some(true)
    );
    assert_eq!(
        ptz_preset_write_ability(&ability(Some(0), "control_rw, preset_ro"), 0),
        Some(false)
    );
}

/// A firmware that enumerates PTZ abilities without naming `preset` is not
/// telling us presets are read-only.
#[test]
fn an_unlisted_preset_ability_is_unknown_not_read_only() {
    assert_eq!(
        ptz_preset_write_ability(&ability(Some(0), "control_rw"), 0),
        None
    );
    assert_eq!(ptz_preset_write_ability(&ability(Some(0), ""), 0), None);
}

/// A camera that lists no PTZ module at all holds no preset ability
/// either, but that is already covered by losing `control`, so the write
/// flag stays unknown rather than pretending to be evidence.
#[test]
fn a_missing_ptz_token_leaves_the_preset_kind_unknown() {
    assert_eq!(
        ptz_preset_write_ability(&AbilityInfo::default(), 0),
        None,
        "no PTZ module means no PTZ at all, decided by `control`"
    );
}

/// An unrecognised suffix proves the ability exists without proving it is
/// writable.
#[test]
fn an_unknown_access_suffix_reads_as_read_only() {
    assert_eq!(
        ptz_preset_write_ability(&ability(Some(0), "preset_wtf"), 0),
        Some(false)
    );
}

/// Duplicated entries resolve to the most permissive one rather than to
/// whichever happened to come last.
#[test]
fn the_strongest_grant_for_an_ability_wins() {
    assert_eq!(
        ptz_preset_write_ability(&ability(Some(0), "preset_ro, preset_rw"), 0),
        Some(true)
    );
    assert_eq!(
        ptz_preset_write_ability(&ability(Some(0), "preset_rw, preset_ro"), 0),
        Some(true)
    );
}

#[test]
fn a_missing_ptz_token_means_no_ptz() {
    assert_eq!(ptz_control_ability(&AbilityInfo::default(), 0), Some(false));
}

/// An ability list we can't parse is not evidence of absence.
#[test]
fn an_empty_ability_list_is_unknown() {
    assert_eq!(ptz_control_ability(&ability(Some(0), ""), 0), None);
}

#[test]
fn abilities_for_another_channel_are_ignored() {
    assert_eq!(
        ptz_control_ability(&ability(Some(2), "control_rw"), 0),
        None
    );
}

/// Firmware that omits the channel on a submodule is answering about the
/// channel we asked for.
#[test]
fn a_channelless_submodule_applies_to_us() {
    assert_eq!(
        ptz_control_ability(&ability(None, "control_rw"), 4),
        Some(true)
    );
}

#[test]
fn a_probe_that_learned_nothing_is_not_informative() {
    assert!(!probe().is_informative());
    assert!(Probe {
        zoom_range: Some((0, 0)),
        ..probe()
    }
    .is_informative());
}

/// Losing a capability takes an answer that denies it.
#[test]
fn a_probe_puts_the_answers_together() {
    let support = Some(support_with(SupportItem { chn_id: 0, led_ctrl: Some(0), ..Default::default() }));
    let abilities = Some(ability(Some(0), "control_rw, preset_ro"));
    let p = run_probe(&support, &abilities, Ok(()), 0);
    assert_eq!(p.support_led_ctrl, Some(false));
    assert_eq!(p.ability_control, Some(true));
    assert_eq!(p.ability_preset_write, Some(false));
    assert_eq!(p.floodlight, Some(true));
    assert!(asks_zoom(&p));

    let p = with_lens(p, Some(LensRanges { zoom: (0, 30), focus: (5, 5) }));
    let caps = resolve(&p);
    assert!(caps.zoom && !caps.focus && !caps.led_ctrl && caps.floodlight);
    assert!(caps.presets && !caps.preset_write);

    assert_eq!(run_probe(&None, &None, Err(ReadFailure::Unavailable), 0).floodlight, Some(false));
    assert!(is_refusal(ReadFailure::Unintelligible));
}

/// What was measured holds for as long as the connection does; what was not is
/// asked for again after a while.
#[test]
fn answers_are_kept_for_the_connection() {
    let measured = CacheEntry::of(&Probe { floodlight: Some(true), ..probe() });
    assert!(measured.is_fresh(true, 1_000_000));
    assert!(!measured.is_fresh(false, 0));
    assert!(cached(Some(measured), true, 1_000_000).is_some());
    assert!(cached(None, true, 0).is_none());

    let silent = CacheEntry::of(&probe());
    assert!(silent.is_fresh(true, 0));
    assert!(!silent.is_fresh(true, 1_000_000));
}
