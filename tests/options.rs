use runner::cli::Args;
use runner::file_type::FileType;
use runner::orchestrator::{Event, Orchestrator, Step};

fn args() -> Args {
    Args {
        path: None,
        runtime: None,
        command: None,
        image: None,
        env: None,
        no_docker: false,
    }
}

#[test]
fn scratch_runtime_defaults_to_typescript() {
    assert_eq!(args().scratch_runtime(), FileType::Typescript);
    let mut a = args();
    a.runtime = Some(FileType::Go);
    assert_eq!(a.scratch_runtime(), FileType::Go);
    assert!(!a.runtime_ignored());
    a.path = Some("main.rs".to_string());
    assert!(a.runtime_ignored());
}

#[test]
fn request_carries_the_options() {
    let mut a = args();
    a.image = Some("node".to_string());
    a.env = Some(vec!["A=1".to_string()]);
    a.command = Some("echo {entrypoint}".to_string());
    let q = a.request(FileType::Node, "x.js", Some("/bin/sh"));
    assert_eq!(q.file_type, FileType::Node);
    assert_eq!(q.path, "x.js");
    assert_eq!(q.image.as_ref().map(|i| i.get_image()).as_deref(), Some("node:latest"));
    assert_eq!(q.env, vec!["A=1"]);
    assert_eq!(q.shell.as_deref(), Some("/bin/sh"));
    let mut o = Orchestrator::new(q);
    assert!(matches!(o.step(Event::Begin), Step::Inspect(ref i) if i == "node:latest"));
    match o.step(Event::Presence(true)) {
        Step::RunContainer(run) => assert_eq!(run.command, "echo /root/app/main.js"),
        _ => panic!("expected a container run"),
    }
    let q = args().request(FileType::Go, "a.go", None);
    assert!(q.env.is_empty() && q.command.is_none() && q.image.is_none() && q.shell.is_none());
}
