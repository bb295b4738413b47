// The colorization policy: environment-value parsing, precedence of the
// three optional flags, and the manual override.

use colored::control::ShouldColorize;

#[test]
fn clicolor_behavior() {
    // ::normalize_env
    // should return None if the variable is absent or unreadable
    assert_eq!(None, ShouldColorize::normalize_env(None));
    // should return Some(true) if != 0
    assert_eq!(Some(true), ShouldColorize::normalize_env(Some(String::from("1"))));
    // should return Some(false) if == 0
    assert_eq!(Some(false), ShouldColorize::normalize_env(Some(String::from("0"))));

    // constructors: a default one and one over environment values
    let _ = ShouldColorize::default();
    let _ = ShouldColorize::from_env_values(None, None);

    // when only changing clicolors
    // clicolor == false means no colors
    assert_eq!(false, ShouldColorize::new(Some(false), None).should_colorize());
    // clicolor == true means colors !
    assert_eq!(true, ShouldColorize::new(Some(true), None).should_colorize());
    // unset clicolors implies true
    assert_eq!(true, ShouldColorize::default().should_colorize());

    // when using clicolor_force
    // clicolor_force should force to true no matter clicolor
    assert_eq!(true, ShouldColorize::new(Some(false), Some(true)).should_colorize());
    // clicolor_force should force to false no matter clicolor
    assert_eq!(false, ShouldColorize::new(Some(true), Some(false)).should_colorize());

    // using a manual override
    let mut control = ShouldColorize::new(Some(false), None);
    control.set_override(true);
    assert_eq!(true, control.should_colorize());
    let mut control = ShouldColorize::new(Some(true), Some(true));
    control.set_override(false);
    assert_eq!(false, control.should_colorize());

    // ::set_override sets the manual_override property
    let mut control = ShouldColorize::default();
    control.set_override(true);
    assert_eq!(Some(true), control.manual_override);
    control.set_override(false);
    assert_eq!(Some(false), control.manual_override);

    // ::unset_override unsets the manual_override property
    let mut control = ShouldColorize::default();
    control.set_override(true);
    control.unset_override();
    assert_eq!(None, control.manual_override);
}

#[test]
fn override_beats_both_forced_flags() {
    let mut policy = ShouldColorize::new(Some(false), Some(false));
    policy.set_override(true);
    assert_eq!(true, policy.should_colorize());
}

#[test]
fn force_beats_clicolor() {
    assert_eq!(false, ShouldColorize::new(Some(true), Some(false)).should_colorize());
}

#[test]
fn all_unset_defaults_to_true() {
    assert_eq!(true, ShouldColorize::new(None, None).should_colorize());
}

#[test]
fn unset_override_restores_environment_decision() {
    let mut policy = ShouldColorize::new(Some(false), None);
    policy.set_override(true);
    policy.unset_override();
    assert_eq!(false, policy.should_colorize());
}

#[test]
fn normalize_env_empty_string_counts_as_true() {
    assert_eq!(Some(true), ShouldColorize::normalize_env(Some(String::new())));
    assert_eq!(Some(true), ShouldColorize::normalize_env(Some(String::from("00"))));
    assert_eq!(Some(true), ShouldColorize::normalize_env(Some(String::from("false"))));
}

#[test]
fn from_env_values_normalizes_both_variables() {
    let policy = ShouldColorize::from_env_values(Some(String::from("0")), Some(String::from("1")));
    assert_eq!(Some(false), policy.clicolor);
    assert_eq!(Some(true), policy.clicolor_force);
    assert_eq!(None, policy.manual_override);
    assert_eq!(true, policy.should_colorize());
}
