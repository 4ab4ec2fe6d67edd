use void_launcher::animation::{plan_exit, plan_start, ExitPlan, StartKind};

const CSS: &str = ".outline-box { transform: translateY(1px); }\n.x { transform: translateY(1px); }";

#[test]
fn windowed_start_slides_from_height() {
    let p = plan_start("false", "true", CSS, 600, 180).unwrap();
    assert_eq!(p.kind, StartKind::Slide);
    assert_eq!(p.css, ".outline-box { transform: translateY(600px); }\n.x { transform: translateY(600px); }");
}

#[test]
fn fullscreen_start_fades_from_offset() {
    let p = plan_start("true", "yes", CSS, 1000, 300).unwrap();
    assert_eq!(p.kind, StartKind::Fade);
    assert_eq!(p.css, ".outline-box { transform: translateY(300px); }\n.x { transform: translateY(300px); }");
}

#[test]
fn start_without_animation_is_instant() {
    let p = plan_start("true", "false", CSS, -20, 300).unwrap();
    assert_eq!(p.kind, StartKind::Instant);
    assert_eq!(p.css, ".outline-box { transform: translateY(-20px); }\n.x { transform: translateY(-20px); }");
    let p = plan_start("sometimes", "true", CSS, 5, 1).unwrap();
    assert_eq!(p.kind, StartKind::Instant);
}

#[test]
fn start_without_resting_rule_does_nothing() {
    assert!(plan_start("false", "true", ".a { }", 600, 180).is_none());
}

#[test]
fn exit_plans() {
    assert_eq!(plan_exit("true", "false"), ExitPlan::Slide);
    assert_eq!(plan_exit("true", "true"), ExitPlan::Fade);
    assert_eq!(plan_exit("maybe", "maybe"), ExitPlan::Fade);
    assert_eq!(plan_exit("false", "false"), ExitPlan::Quit);
    assert_eq!(plan_exit("false", "true"), ExitPlan::Quit);
}
