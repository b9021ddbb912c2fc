use std::collections::{HashMap, HashSet};

use daily_workspace::error::WorkspaceError;
use daily_workspace::path::{resolve_paths, workspace_root_candidate, DateStamp, Place};
use daily_workspace::provision::{provision_next, provision_start, Action, Outcome, Stage};

/// An in-memory filesystem of places, with operations that fail where asked.
struct Fake {
    present: HashSet<Place>,
    faults: HashMap<Place, String>,
    log: Vec<String>,
}

impl Fake {
    fn new(present: &[Place]) -> Fake {
        Fake { present: present.iter().copied().collect(), faults: HashMap::new(), log: vec![] }
    }

    fn op(&mut self, target: Place, apply: impl FnOnce(&mut HashSet<Place>)) -> Outcome {
        match self.faults.get(&target) {
            Some(m) => Outcome::Failed(m.clone()),
            None => {
                apply(&mut self.present);
                Outcome::Succeeded
            }
        }
    }

    fn run(&mut self) -> Result<(), WorkspaceError> {
        let (mut stage, mut action) = provision_start();
        loop {
            self.log.push(format!("{:?}", action));
            let outcome = match action {
                Action::Finish(r) => return r,
                Action::CheckExists(p) => {
                    if self.present.contains(&p) {
                        Outcome::Present
                    } else {
                        Outcome::Absent
                    }
                }
                Action::CreateDirs(p) => self.op(p, |s| {
                    s.insert(p);
                }),
                Action::CopyInto { .. } => self.op(Place::CopiedTemplate, |s| {
                    s.insert(Place::CopiedTemplate);
                }),
                Action::Rename { from, to } => self.op(to, |s| {
                    s.remove(&from);
                    s.insert(to);
                }),
            };
            assert_ne!(stage, Stage::Finished);
            let next = provision_next(stage, outcome);
            stage = next.0;
            action = next.1;
        }
    }
}

#[test]
fn existing_date_is_left_alone() {
    let mut fs = Fake::new(&[Place::Date]);
    assert!(fs.run().is_ok());
    assert_eq!(fs.log, vec!["CheckExists(Date)", "Finish(Ok(()))"]);
    assert_eq!(fs.present, [Place::Date].into_iter().collect());
}

#[test]
fn second_run_is_a_no_op() {
    let mut fs = Fake::new(&[Place::Template]);
    assert!(fs.run().is_ok());
    let after_first = fs.present.clone();
    assert!(after_first.contains(&Place::Date));
    assert!(!after_first.contains(&Place::CopiedTemplate));
    fs.log.clear();
    assert!(fs.run().is_ok());
    assert_eq!(fs.log, vec!["CheckExists(Date)", "Finish(Ok(()))"]);
    assert_eq!(fs.present, after_first);
}

#[test]
fn provisions_from_template() {
    let mut fs = Fake::new(&[Place::Template]);
    assert!(fs.run().is_ok());
    assert_eq!(
        fs.log,
        vec![
            "CheckExists(Date)",
            "CheckExists(Template)",
            "CreateDirs(Year)",
            "CopyInto { from: Template, into: Year }",
            "Rename { from: CopiedTemplate, to: Date }",
            "Finish(Ok(()))",
        ]
    );
}

#[test]
fn missing_template_fails_without_creating_anything() {
    let mut fs = Fake::new(&[]);
    assert!(matches!(fs.run(), Err(WorkspaceError::TemplateMissing)));
    assert!(fs.present.is_empty());
    assert_eq!(fs.log.len(), 3);
}

#[test]
fn each_failed_operation_is_reported() {
    let mut fs = Fake::new(&[Place::Template]);
    fs.faults.insert(Place::Year, "denied".to_string());
    match fs.run() {
        Err(WorkspaceError::DirectoryCreation(m)) => assert_eq!(m, "denied"),
        other => panic!("unexpected {:?}", other),
    }
    let mut fs = Fake::new(&[Place::Template]);
    fs.faults.insert(Place::CopiedTemplate, "disk full".to_string());
    match fs.run() {
        Err(WorkspaceError::CopyFailed(m)) => assert_eq!(m, "disk full"),
        other => panic!("unexpected {:?}", other),
    }
    let mut fs = Fake::new(&[Place::Template]);
    fs.faults.insert(Place::Date, "exists".to_string());
    match fs.run() {
        Err(WorkspaceError::RenameFailed(m)) => assert_eq!(m, "exists"),
        other => panic!("unexpected {:?}", other),
    }
    assert!(fs.present.contains(&Place::CopiedTemplate));
}

#[test]
fn single_steps() {
    assert!(matches!(provision_start(), (Stage::CheckingDate, Action::CheckExists(Place::Date))));
    assert!(matches!(
        provision_next(Stage::CheckingDate, Outcome::Absent),
        (Stage::CheckingTemplate, Action::CheckExists(Place::Template))
    ));
    assert!(matches!(
        provision_next(Stage::CheckingTemplate, Outcome::Absent),
        (Stage::Finished, Action::Finish(Err(WorkspaceError::TemplateMissing)))
    ));
    assert!(matches!(
        provision_next(Stage::Renaming, Outcome::Succeeded),
        (Stage::Finished, Action::Finish(Ok(())))
    ));
}

#[test]
fn date_command_scenario_march_15_2024() {
    let root = match workspace_root_candidate(Some("/home/u".to_string())) {
        Ok(p) => p,
        Err(e) => panic!("unexpected {:?}", e),
    };
    let stamp = DateStamp { year: "2024".to_string(), month_day: "0315".to_string() };
    let paths = resolve_paths(&root, &stamp);
    let mut fs = Fake::new(&[Place::Template]);
    assert!(fs.run().is_ok());
    assert!(fs.present.contains(&Place::Date));
    let date: std::path::PathBuf = paths.locate(Place::Date).parts.iter().collect();
    assert_eq!(date, std::path::PathBuf::from("/home/u/workspace/daily/2024/0315"));
    let copied: std::path::PathBuf = paths.locate(Place::CopiedTemplate).parts.iter().collect();
    assert_eq!(copied, std::path::PathBuf::from("/home/u/workspace/daily/2024/template"));
}
