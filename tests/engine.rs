use rsfsm::blinky::{Blinking, Blinky, BlinkyReport, BlinkyStates, NotBlinking};
use rsfsm::coin_machine::{CoinMachine, CoinMachineStates, CoinReport, Locked, Unlocked};
use rsfsm::simple_coin_machine as simple;
use rsfsm::machine::Transition;

#[test]
fn blinking_light_scenario() {
    let mut fsm = Blinky::new(Transition::to(Blinking { led_on: false }));
    let mut reported = Vec::new();
    for _ in 0..3 {
        fsm.timer_elapsed().unwrap();
        match fsm.current_state() {
            BlinkyStates::BlinkingState(b) => reported.push(b.led_on),
            BlinkyStates::NotBlinkingState(_) => panic!("left the blinking state"),
        }
    }
    assert_eq!(reported, vec![true, false, true]);

    fsm.button_pressed().unwrap();
    let paused = BlinkyStates::NotBlinkingState(NotBlinking { stored_led_state: true });
    assert_eq!(*fsm.current_state(), paused);

    for _ in 0..3 {
        fsm.timer_elapsed().unwrap();
        assert_eq!(*fsm.current_state(), paused);
    }

    fsm.button_pressed().unwrap();
    assert_eq!(*fsm.current_state(), BlinkyStates::BlinkingState(Blinking { led_on: true }));

    fsm.timer_elapsed().unwrap();
    assert_eq!(*fsm.current_state(), BlinkyStates::BlinkingState(Blinking { led_on: false }));
}

#[test]
fn blinky_run_example_reports_each_step() {
    let mut fsm = Blinky::new(Transition::to(Blinking { led_on: false }));
    let reports = rsfsm::blinky::run_example(&mut fsm).unwrap();
    assert_eq!(
        reports,
        vec![
            BlinkyReport::Led(true),
            BlinkyReport::Led(false),
            BlinkyReport::Led(true),
            BlinkyReport::TurningOff,
            BlinkyReport::IgnoredTimer,
            BlinkyReport::IgnoredTimer,
            BlinkyReport::IgnoredTimer,
            BlinkyReport::TurningOn,
            BlinkyReport::Led(false),
            BlinkyReport::Led(true),
            BlinkyReport::Led(false),
        ]
    );
    assert_eq!(*fsm.current_state(), BlinkyStates::BlinkingState(Blinking { led_on: false }));
}

#[test]
fn coin_turnstile_scenario() {
    let mut fsm = CoinMachine::new(Transition::to(Locked { coins: 0 }));
    assert_eq!(*fsm.current_state(), CoinMachineStates::LockedState(Locked { coins: 0 }));

    fsm.push().unwrap();
    assert_eq!(*fsm.current_state(), CoinMachineStates::LockedState(Locked { coins: 0 }));

    fsm.insert_coins(2).unwrap();
    assert_eq!(*fsm.current_state(), CoinMachineStates::LockedState(Locked { coins: 2 }));

    fsm.insert_coins(1).unwrap();
    assert_eq!(*fsm.current_state(), CoinMachineStates::UnlockedState(Unlocked));

    fsm.insert_coins(5).unwrap();
    assert_eq!(*fsm.current_state(), CoinMachineStates::UnlockedState(Unlocked));

    let err = fsm.see_balance().unwrap_err();
    assert_eq!(err.message(), "No balance available");
    assert_eq!(*fsm.current_state(), CoinMachineStates::UnlockedState(Unlocked));

    fsm.push().unwrap();
    assert_eq!(*fsm.current_state(), CoinMachineStates::LockedState(Locked { coins: 0 }));

    fsm.see_balance().unwrap();
    assert_eq!(*fsm.current_state(), CoinMachineStates::LockedState(Locked { coins: 0 }));
}

#[test]
fn coin_count_saturates_instead_of_overflowing() {
    let mut fsm = CoinMachine::new(Transition::to(Locked { coins: 254 }));
    fsm.insert_coins(255).unwrap();
    assert_eq!(*fsm.current_state(), CoinMachineStates::UnlockedState(Unlocked));
}

#[test]
fn coin_machine_run_example_stops_at_balance_error() {
    let mut fsm = CoinMachine::new(Transition::to(Locked { coins: 0 }));
    let mut reports = Vec::new();
    let err = rsfsm::coin_machine::run_example(&mut fsm, &mut reports).unwrap_err();
    assert_eq!(err.message(), "No balance available");
    assert_eq!(
        reports,
        vec![
            CoinReport::PushedWhileLocked,
            CoinReport::PushedWhileLocked,
            CoinReport::Accepted(2),
            CoinReport::Accepted(1),
            CoinReport::Wasted(5),
            CoinReport::Locking,
            CoinReport::PushedWhileLocked,
            CoinReport::Accepted(1),
            CoinReport::Balance(1),
            CoinReport::Accepted(2),
        ]
    );
    assert_eq!(*fsm.current_state(), CoinMachineStates::UnlockedState(Unlocked));
}

#[test]
fn simple_coin_machine_counts_single_coins() {
    let mut fsm = simple::CoinMachine::new(Transition::to(simple::Locked { coins: 0 }));
    fsm.insert_coin().unwrap();
    fsm.insert_coin().unwrap();
    assert_eq!(
        *fsm.current_state(),
        simple::CoinMachineStates::LockedState(simple::Locked { coins: 2 })
    );
    fsm.insert_coin().unwrap();
    assert_eq!(*fsm.current_state(), simple::CoinMachineStates::UnlockedState(simple::Unlocked));
    assert_eq!(fsm.see_balance().unwrap_err().message(), "No balance available");
}

#[test]
fn simple_coin_machine_run_example_stops_at_balance_error() {
    let mut fsm = simple::CoinMachine::new(Transition::to(simple::Locked { coins: 0 }));
    let mut reports = Vec::new();
    let err = rsfsm::simple_coin_machine::run_example(&mut fsm, &mut reports).unwrap_err();
    assert_eq!(err.err, "No balance available");
    assert_eq!(reports.len(), 12);
    assert_eq!(reports[10], simple::CoinReport::Balance(2));
    assert_eq!(reports[5], simple::CoinReport::Wasted(1));
    assert_eq!(*fsm.current_state(), simple::CoinMachineStates::UnlockedState(simple::Unlocked));
}
