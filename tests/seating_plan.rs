use wedding_planner::dependency::Dependency;
use wedding_planner::seating_plan::SeatingPlan;

fn plan() -> SeatingPlan {
    SeatingPlan {
        attendees: vec![Dependency {
            name: "institution".to_string(),
            url: "https://github.com/yellow-bird-consult/institution.git".to_string(),
            branch: "infrastructure".to_string(),
        }],
        venue: "./sandbox/services/".to_string(),
    }
}

#[test]
fn test_create_venue() {
    let seating_plan = plan();
    assert_eq!(
        seating_plan.create_venue(false),
        Some("./sandbox/services/".to_string())
    );
}

#[test]
fn venue_creation_is_idempotent() {
    let seating_plan = plan();
    assert!(seating_plan.create_venue(false).is_some());
    assert_eq!(seating_plan.create_venue(true), None);
    assert_eq!(seating_plan.create_venue(true), None);
}
