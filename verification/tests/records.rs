use urban_dao::ledger::Ledger;
use urban_dao::types::ErrorCode;
use urban_dao::types::GrievanceStatus;
use urban_dao::types::Identity;
use urban_dao::types::ProjectStatus;

fn officer() -> Identity {
    Identity { id: 1 }
}

fn head() -> Identity {
    Identity { id: 2 }
}

fn citizen() -> Identity {
    Identity { id: 3 }
}

fn with_head() -> Ledger {
    let mut l = Ledger::new();
    l.initialize(officer()).unwrap();
    l.assign_admin_head(officer(), head()).unwrap();
    l
}

#[test]
fn file_grievance_starts_pending() {
    let mut l = with_head();
    let id = l.file_grievance(citizen(), b"streetlight out".to_vec(), 42).unwrap();
    assert_eq!(id, 0);
    assert_eq!(l.grievances.len(), 1);
    assert_eq!(l.grievances[0].user, citizen());
    assert_eq!(l.grievances[0].details, b"streetlight out".to_vec());
    assert_eq!(l.grievances[0].status, GrievanceStatus::Pending);
    assert_eq!(l.grievances[0].timestamp, 42);
}

#[test]
fn file_grievance_details_bounded() {
    let mut l = with_head();
    // Exactly at the bound is accepted; one byte over is rejected.
    assert!(l.file_grievance(citizen(), vec![b'x'; 512], 0).is_ok());
    assert_eq!(l.file_grievance(citizen(), vec![b'x'; 513], 0), Err(ErrorCode::StringTooLong));
    assert_eq!(l.grievances.len(), 1);
}

#[test]
fn file_grievance_before_bootstrap_not_found() {
    let mut l = Ledger::new();
    assert_eq!(l.file_grievance(citizen(), b"x".to_vec(), 0), Err(ErrorCode::NotFound));
}

#[test]
fn grievance_transitions_any_direction() {
    let mut l = with_head();
    l.file_grievance(citizen(), b"pothole".to_vec(), 0).unwrap();
    assert_eq!(l.update_grievance_status(head(), 0, GrievanceStatus::Done), Ok(()));
    assert_eq!(l.grievances[0].status, GrievanceStatus::Done);
    // Corrective moves back out of a terminal-looking state are permitted.
    assert_eq!(l.update_grievance_status(head(), 0, GrievanceStatus::Pending), Ok(()));
    assert_eq!(l.update_grievance_status(head(), 0, GrievanceStatus::Rejected), Ok(()));
    assert_eq!(l.update_grievance_status(head(), 0, GrievanceStatus::Accepted), Ok(()));
    assert_eq!(l.grievances[0].status, GrievanceStatus::Accepted);
    // Only the status moved; the rest of the record is untouched.
    assert_eq!(l.grievances[0].details, b"pothole".to_vec());
    assert_eq!(l.grievances[0].user, citizen());
}

#[test]
fn grievance_update_requires_head() {
    let mut l = with_head();
    l.file_grievance(citizen(), b"noise".to_vec(), 0).unwrap();
    assert_eq!(
        l.update_grievance_status(officer(), 0, GrievanceStatus::Done),
        Err(ErrorCode::Unauthorized)
    );
    assert_eq!(
        l.update_grievance_status(citizen(), 0, GrievanceStatus::Done),
        Err(ErrorCode::Unauthorized)
    );
    assert_eq!(l.grievances[0].status, GrievanceStatus::Pending);
}

#[test]
fn grievance_update_missing_not_found() {
    let mut l = with_head();
    assert_eq!(
        l.update_grievance_status(head(), 0, GrievanceStatus::Done),
        Err(ErrorCode::NotFound)
    );
}

#[test]
fn create_project_starts_planning() {
    let mut l = with_head();
    let id = l.create_project(head(), b"Road Repair".to_vec(), b"Main street".to_vec()).unwrap();
    assert_eq!(id, 0);
    assert_eq!(l.projects.len(), 1);
    assert_eq!(l.projects[0].name, b"Road Repair".to_vec());
    assert_eq!(l.projects[0].details, b"Main street".to_vec());
    assert_eq!(l.projects[0].status, ProjectStatus::Planning);
}

#[test]
fn create_project_requires_head() {
    let mut l = with_head();
    assert_eq!(
        l.create_project(officer(), b"Road".to_vec(), b"x".to_vec()),
        Err(ErrorCode::Unauthorized)
    );
    assert_eq!(
        l.create_project(citizen(), b"Road".to_vec(), b"x".to_vec()),
        Err(ErrorCode::Unauthorized)
    );
    assert_eq!(l.projects.len(), 0);
}

#[test]
fn create_project_strings_bounded() {
    let mut l = with_head();
    assert!(l.create_project(head(), vec![b'n'; 256], vec![b'd'; 512]).is_ok());
    assert_eq!(
        l.create_project(head(), vec![b'n'; 257], vec![b'd'; 10]),
        Err(ErrorCode::StringTooLong)
    );
    assert_eq!(
        l.create_project(head(), vec![b'n'; 10], vec![b'd'; 513]),
        Err(ErrorCode::StringTooLong)
    );
    assert_eq!(l.projects.len(), 1);
}

#[test]
fn project_transitions_any_direction() {
    let mut l = with_head();
    l.create_project(head(), b"Park".to_vec(), b"New park".to_vec()).unwrap();
    assert_eq!(l.update_project_status(head(), 0, ProjectStatus::Done), Ok(()));
    assert_eq!(l.update_project_status(head(), 0, ProjectStatus::Planning), Ok(()));
    assert_eq!(l.update_project_status(head(), 0, ProjectStatus::Ongoing), Ok(()));
    assert_eq!(l.projects[0].status, ProjectStatus::Ongoing);
    assert_eq!(
        l.update_project_status(citizen(), 0, ProjectStatus::Done),
        Err(ErrorCode::Unauthorized)
    );
    assert_eq!(l.projects[0].status, ProjectStatus::Ongoing);
}

#[test]
fn feedback_scenario_done_unlocks_and_revert_keeps_it() {
    let mut l = Ledger::new();
    l.initialize(officer()).unwrap();
    l.assign_admin_head(officer(), head()).unwrap();
    let pid = l.create_project(head(), b"Road Repair".to_vec(), b"Fix the road".to_vec()).unwrap();
    // Feedback on a project still in Planning is refused.
    assert_eq!(
        l.give_feedback(citizen(), pid, b"great".to_vec(), true),
        Err(ErrorCode::ProjectNotDone)
    );
    assert_eq!(l.feedbacks.len(), 0);
    l.update_project_status(head(), pid, ProjectStatus::Done).unwrap();
    assert_eq!(l.give_feedback(citizen(), pid, b"great".to_vec(), true), Ok(0));
    assert_eq!(l.feedbacks.len(), 1);
    assert_eq!(l.feedbacks[0].user, citizen());
    assert_eq!(l.feedbacks[0].project, pid);
    assert_eq!(l.feedbacks[0].comment, b"great".to_vec());
    assert!(l.feedbacks[0].satisfied);
    // Reverting the project afterwards leaves the recorded feedback intact.
    l.update_project_status(head(), pid, ProjectStatus::Ongoing).unwrap();
    assert_eq!(l.feedbacks.len(), 1);
    assert_eq!(l.feedbacks[0].comment, b"great".to_vec());
    assert!(l.feedbacks[0].satisfied);
    // And new feedback is locked again.
    assert_eq!(
        l.give_feedback(citizen(), pid, b"more".to_vec(), false),
        Err(ErrorCode::ProjectNotDone)
    );
}

#[test]
fn feedback_comment_bounded() {
    let mut l = with_head();
    let pid = l.create_project(head(), b"P".to_vec(), b"d".to_vec()).unwrap();
    l.update_project_status(head(), pid, ProjectStatus::Done).unwrap();
    assert!(l.give_feedback(citizen(), pid, vec![b'c'; 256], false).is_ok());
    assert_eq!(
        l.give_feedback(officer(), pid, vec![b'c'; 257], false),
        Err(ErrorCode::StringTooLong)
    );
    assert_eq!(l.feedbacks.len(), 1);
}

#[test]
fn feedback_missing_project_not_found() {
    let mut l = with_head();
    assert_eq!(l.give_feedback(citizen(), 0, b"x".to_vec(), true), Err(ErrorCode::NotFound));
}
