use hlshell::color::Color;
use hlshell::status::classify;
use hlshell::status::SELF_RENDERED;

#[test]
fn classify_knows_four_codes() {
    let ok = classify(0).unwrap();
    assert_eq!(ok.code, 0);
    assert_eq!(ok.message, "executed successfully");
    assert_eq!(ok.color, Color::Green);
    let general = classify(2).unwrap();
    assert_eq!(general.code, 2);
    assert_eq!(general.message, "returned general error");
    assert_eq!(general.color, Color::Red);
    let critical = classify(3).unwrap();
    assert_eq!(critical.code, 3);
    assert_eq!(critical.message, "returned critical error");
    assert_eq!(critical.color, Color::Red);
    let user = classify(4).unwrap();
    assert_eq!(user.code, 4);
    assert_eq!(user.message, "returned user error");
    assert_eq!(user.color, Color::Red);
}

#[test]
fn classify_has_no_entry_for_the_self_rendered_code() {
    assert_eq!(SELF_RENDERED, 1);
    assert!(classify(SELF_RENDERED).is_none());
}

#[test]
fn classify_has_no_entry_for_other_codes() {
    for code in [-1, 5, 6, 42, 255, -4, i32::MAX, i32::MIN] {
        assert!(classify(code).is_none());
    }
}

#[test]
fn classify_is_defined_exactly_on_four_codes() {
    for code in -300..300 {
        let defined = code == 0 || code == 2 || code == 3 || code == 4;
        assert_eq!(classify(code).is_some(), defined);
    }
}
