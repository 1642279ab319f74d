use hall_commutation::hall::Sector;
use hall_commutation::sixstep::{
    bridge_command, bridge_config, six_step_command, BridgeConfig, Interlock, SixStepSequencer,
    DEFAULT_DEAD_TIME_US,
};
use hall_commutation::tracker::sector_distance;
use hall_commutation::waveform::SwitchPair;

const HIGH: SwitchPair = SwitchPair { high: true, low: false };
const LOW: SwitchPair = SwitchPair { high: false, low: true };
const FLOATING: SwitchPair = SwitchPair { high: false, low: false };

fn sector(index: u8) -> Sector {
    Sector::from_index(index).unwrap()
}

fn pairs(config: &BridgeConfig) -> [SwitchPair; 3] {
    [config.u, config.v, config.w]
}

#[test]
fn switch_table_entries() {
    assert_eq!(pairs(&bridge_config(Sector::S0)), [HIGH, LOW, FLOATING]);
    assert_eq!(pairs(&bridge_config(Sector::S1)), [HIGH, FLOATING, LOW]);
    assert_eq!(pairs(&bridge_config(Sector::S2)), [FLOATING, HIGH, LOW]);
    assert_eq!(pairs(&bridge_config(Sector::S3)), [LOW, HIGH, FLOATING]);
    assert_eq!(pairs(&bridge_config(Sector::S4)), [LOW, FLOATING, HIGH]);
    assert_eq!(pairs(&bridge_config(Sector::S5)), [FLOATING, LOW, HIGH]);
}

#[test]
fn every_entry_has_one_high_one_low_and_one_floating_phase() {
    for index in 0u8..6 {
        let config = bridge_config(sector(index));
        let all = pairs(&config);
        assert_eq!(all.iter().filter(|p| p.high).count(), 1);
        assert_eq!(all.iter().filter(|p| p.low).count(), 1);
        assert_eq!(all.iter().filter(|p| !p.high && !p.low).count(), 1);
        assert!(all.iter().all(|p| !(p.high && p.low)));
    }
}

fn shoots_through(from: &BridgeConfig, to: &BridgeConfig) -> bool {
    pairs(from)
        .iter()
        .zip(pairs(to).iter())
        .any(|(a, b)| (a.high && b.low) || (a.low && b.high))
}

#[test]
fn direct_change_is_safe_exactly_between_neighbours() {
    for a in 0u8..6 {
        for b in 0u8..6 {
            let hazard = shoots_through(&bridge_config(sector(a)), &bridge_config(sector(b)));
            assert_eq!(hazard, sector_distance(sector(a), sector(b)) >= 2, "{} to {}", a, b);
        }
    }
}

#[test]
fn neighbouring_entries_hand_over_one_switch() {
    for a in 0u8..6 {
        let b = (a + 1) % 6;
        let from = pairs(&bridge_config(sector(a)));
        let to = pairs(&bridge_config(sector(b)));
        let mut changed = 0;
        for phase in 0..3 {
            if from[phase].high != to[phase].high {
                changed += 1;
            }
            if from[phase].low != to[phase].low {
                changed += 1;
            }
        }
        assert_eq!(changed, 2, "{} to {}", a, b);
    }
}

#[test]
fn six_step_duty_is_zero_or_max_on_the_low_side() {
    let command = six_step_command(Sector::S0, 1250);
    assert_eq!([command.u.duty, command.v.duty, command.w.duty], [0, 1250, 0]);
    assert_eq!([command.u.switches, command.v.switches, command.w.switches], [HIGH, LOW, FLOATING]);
    let command = six_step_command(Sector::S4, 999);
    assert_eq!([command.u.duty, command.v.duty, command.w.duty], [999, 0, 0]);
    assert_eq!([command.u.switches, command.v.switches, command.w.switches], [LOW, FLOATING, HIGH]);
    for index in 0u8..6 {
        let command = six_step_command(sector(index), 1250);
        assert_eq!(command, bridge_command(bridge_config(sector(index)), 1250));
        for drive in [command.u, command.v, command.w] {
            assert_eq!(drive.duty, if drive.switches.low { 1250 } else { 0 });
        }
    }
}

#[test]
fn sequencer_starts_in_state_zero_with_all_outputs_low() {
    assert_eq!(DEFAULT_DEAD_TIME_US, 20);
    let sequencer = SixStepSequencer::new(DEFAULT_DEAD_TIME_US);
    assert_eq!(sequencer.current(), Sector::S0);
    assert!(!sequencer.is_energized());
    assert_eq!(sequencer.dead_time_us(), 20);
    assert_eq!(pairs(&sequencer.config()), [FLOATING, FLOATING, FLOATING]);
}

#[test]
fn first_request_energizes_the_bridge() {
    let mut sequencer = SixStepSequencer::new(20);
    assert_eq!(sequencer.request(Sector::S0), Interlock::Direct);
    assert!(sequencer.is_energized());
    assert_eq!(sequencer.config(), bridge_config(Sector::S0));
}

#[test]
fn adjacent_requests_need_no_dead_time() {
    let mut sequencer = SixStepSequencer::new(20);
    sequencer.request(Sector::S0);
    for next in [1u8, 2, 3, 4, 5, 0, 5, 4, 3, 3, 2, 1, 0] {
        assert_eq!(sequencer.request(sector(next)), Interlock::Direct);
        assert_eq!(sequencer.current(), sector(next));
        assert_eq!(sequencer.config(), bridge_config(sector(next)));
    }
}

#[test]
fn skips_need_an_all_off_interval_of_the_dead_time() {
    let mut sequencer = SixStepSequencer::new(20);
    sequencer.request(Sector::S0);
    assert_eq!(sequencer.request(Sector::S2), Interlock::AllOff { hold_us: 20 });
    assert_eq!(sequencer.current(), Sector::S2);
    assert_eq!(sequencer.request(Sector::S5), Interlock::AllOff { hold_us: 20 });
    assert_eq!(sequencer.request(Sector::S1), Interlock::AllOff { hold_us: 20 });
    assert_eq!(sequencer.request(Sector::S3), Interlock::AllOff { hold_us: 20 });
    assert_eq!(sequencer.request(Sector::S4), Interlock::Direct);
}

#[test]
fn dead_time_is_configurable() {
    let mut sequencer = SixStepSequencer::new(35);
    assert_eq!(sequencer.request(Sector::S3), Interlock::AllOff { hold_us: 35 });
    let mut none = SixStepSequencer::new(0);
    assert_eq!(none.request(Sector::S2), Interlock::AllOff { hold_us: 0 });
}

#[test]
fn dead_time_rule_for_all_pairs_of_states() {
    for from in 0u8..6 {
        for to in 0u8..6 {
            let mut sequencer = SixStepSequencer::new(20);
            sequencer.request(sector(from));
            let interlock = sequencer.request(sector(to));
            let distance = sector_distance(sector(from), sector(to));
            if distance >= 2 {
                assert_eq!(interlock, Interlock::AllOff { hold_us: 20 }, "{} to {}", from, to);
            } else {
                assert_eq!(interlock, Interlock::Direct, "{} to {}", from, to);
            }
            assert_eq!(sequencer.current(), sector(to));
        }
    }
}

#[test]
fn startup_counts_from_state_zero() {
    let mut sequencer = SixStepSequencer::new(20);
    assert_eq!(sequencer.request(Sector::S1), Interlock::Direct);
    let mut sequencer = SixStepSequencer::new(20);
    assert_eq!(sequencer.request(Sector::S5), Interlock::Direct);
    let mut sequencer = SixStepSequencer::new(20);
    assert_eq!(sequencer.request(Sector::S3), Interlock::AllOff { hold_us: 20 });
}
