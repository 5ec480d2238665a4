use vm_autoscaler::errors::ProvisionError;
use vm_autoscaler::worker::{Worker, WorkerPhase};

#[test]
fn lifecycle_walks_strictly_forward() {
    let mut w = Worker::request(5);
    assert_eq!(w.seq, 5);
    assert_eq!(w.phase, WorkerPhase::Requested);
    w.advance();
    assert_eq!(w.phase, WorkerPhase::Materialized);
    w.advance();
    assert_eq!(w.phase, WorkerPhase::Defined);
    w.advance();
    assert_eq!(w.phase, WorkerPhase::Running);
    w.advance();
    assert_eq!(w.phase, WorkerPhase::Destroying);
    w.advance();
    assert_eq!(w.phase, WorkerPhase::Destroyed);
    assert_eq!(w.seq, 5);
}

#[test]
fn provision_errors_name_their_stage() {
    let disk = ProvisionError::DiskProvision(String::from("image tool exited with status 1"));
    assert_ne!(disk, ProvisionError::TemplateIo);
    assert_ne!(ProvisionError::Definition, ProvisionError::Start);
    assert_ne!(ProvisionError::Start, ProvisionError::RegulationInit);
    match disk {
        ProvisionError::DiskProvision(diag) => {
            assert!(diag.contains("status 1"));
        }
        _ => panic!("wrong variant"),
    }
}
