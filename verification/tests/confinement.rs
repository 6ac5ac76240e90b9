use joycon2click::confinement::{Confinement, ConfinementStrategy, SelectionError};
use joycon2click::landlock::LandlockConfiner;
use joycon2click::seccomp::{ConfineError, SeccompConfiner};

#[test]
fn exactly_one_strategy_has_to_be_chosen() {
    assert!(matches!(
        ConfinementStrategy::select(false, false, true, 7),
        Err(SelectionError::NoStrategy)
    ));
    assert!(matches!(
        ConfinementStrategy::select(true, true, true, 7),
        Err(SelectionError::BothStrategies)
    ));
    assert!(matches!(
        ConfinementStrategy::select(true, false, true, 7),
        Ok(ConfinementStrategy::Seccomp(_))
    ));
    assert!(matches!(
        ConfinementStrategy::select(false, true, true, 7),
        Ok(ConfinementStrategy::Landlock(_))
    ));
}

#[test]
fn selected_allow_list_is_the_confiner_s() {
    let strategy = ConfinementStrategy::select(true, false, false, 9).unwrap();
    match strategy.confine("x86_64").unwrap() {
        Confinement::Filter(program) => {
            assert_eq!(program, SeccompConfiner::new(false, 9).confine("x86_64").unwrap());
            assert_ne!(program, SeccompConfiner::new(true, 9).confine("x86_64").unwrap());
            assert_ne!(program, SeccompConfiner::new(false, 8).confine("x86_64").unwrap());
        }
        Confinement::Ruleset(_) => panic!("a ruleset where a filter was selected"),
    }
}

#[test]
fn selected_ruleset_is_the_confiner_s() {
    let strategy = ConfinementStrategy::select(false, true, false, 9).unwrap();
    // The ruleset does not depend on the architecture, known or not.
    for arch in ["x86_64", "m68k"] {
        match strategy.confine(arch).unwrap() {
            Confinement::Ruleset(ruleset) => assert_eq!(ruleset, LandlockConfiner::new().confine()),
            Confinement::Filter(_) => panic!("a filter where a ruleset was selected"),
        }
    }
}

#[test]
fn a_filter_fails_closed_on_an_unknown_architecture() {
    let strategy = ConfinementStrategy::select(true, false, false, 9).unwrap();
    assert!(matches!(strategy.confine("m68k"), Err(ConfineError::UnsupportedArchitecture)));
}
