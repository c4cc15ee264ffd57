use wow_alchemy::game_build::{GameBuild, GameBuildSpec};

fn b(major: u32, minor: u32, patch: u32, build: u32) -> GameBuild {
    GameBuild { major, minor, patch, build }
}

#[test]
fn build_parses_dotted_form() {
    assert_eq!(GameBuild::try_from("3.3.5.12340").unwrap(), b(3, 3, 5, 12340));
    assert_eq!(GameBuild::try_from("4.2.0.14333").unwrap(), b(4, 2, 0, 14333));
    assert_eq!(GameBuild::try_from("1.2").unwrap(), b(1, 2, 0, 0));
    assert_eq!(GameBuild::try_from("7").unwrap(), b(7, 0, 0, 0));
}

#[test]
fn build_rejects_malformed_forms() {
    assert!(GameBuild::try_from("").is_err());
    assert!(GameBuild::try_from("1.2.x.4").is_err());
    assert!(GameBuild::try_from("1.2.3.4.5").is_err());
    assert!(GameBuild::try_from("1..3").is_err());
    assert!(GameBuild::try_from("+1.2.3.4").is_err());
    assert!(GameBuild::try_from("99999999999.0.0.0").is_err());
}

#[test]
fn build_round_trips_through_text() {
    let cases = [b(3, 3, 5, 12340), b(0, 0, 0, 0), b(10, 2, 30, 4294967295)];
    for case in cases.iter() {
        let text = case.to_text();
        assert_eq!(GameBuild::try_from(text.as_str()).unwrap(), *case);
    }
    assert_eq!(b(1, 2, 3, 4).to_text(), "1.2.3.4");
}

#[test]
fn build_order_is_lexicographic() {
    let lo = b(3, 3, 5, 12340);
    let hi = b(4, 0, 0, 0);
    assert!(lo.lt(&hi));
    assert!(!hi.lt(&lo));
    assert!(lo.le(&hi));
    assert!(lo.le(&lo));
    assert!(b(3, 3, 5, 12340).lt(&b(3, 3, 5, 12341)));
    assert!(b(3, 3, 4, 99999).lt(&b(3, 3, 5, 0)));
}

#[test]
fn build_spec_contains_target() {
    let single = GameBuildSpec::Single(b(3, 3, 5, 12340));
    assert!(single.matches_build(&b(3, 3, 5, 12340)));
    assert!(!single.matches_build(&b(3, 3, 5, 12341)));

    let range = GameBuildSpec::Range((b(4, 0, 0, 0), b(4, 3, 4, 15595)));
    assert!(range.matches_build(&b(4, 0, 0, 0)));
    assert!(range.matches_build(&b(4, 2, 0, 14333)));
    assert!(range.matches_build(&b(4, 3, 4, 15595)));
    assert!(!range.matches_build(&b(3, 3, 5, 12340)));
    assert!(!range.matches_build(&b(4, 3, 4, 15596)));
}
