use runner::docker::{mount_path, plan_container_run, resolve_image, DockerError, DockerImage};
use runner::file_type::FileType;
use runner::local::{artifact_for, override_invocation, parse_env, split_env_entry, Invocation};
use runner::orchestrator::{
    Event, ExecutionOutcome, ExecutionRequest, Orchestrator, RunError, Stage, Step,
};

fn request(ft: FileType, path: &str) -> ExecutionRequest {
    ExecutionRequest {
        file_type: ft,
        path: path.to_string(),
        command: None,
        image: None,
        env: Vec::new(),
        no_docker: false,
        shell: None,
    }
}

fn spawned(step: Step) -> Invocation {
    match step {
        Step::Spawn(inv) => inv,
        _ => panic!("expected a spawn"),
    }
}

fn finished(step: Step) -> ExecutionOutcome {
    match step {
        Step::Finish(o) => o,
        _ => panic!("expected an outcome"),
    }
}

fn failed(step: Step) -> RunError {
    match step {
        Step::Fail(e) => e,
        _ => panic!("expected a failure"),
    }
}

#[test]
fn override_with_space_splits_into_program_and_args() {
    let inv = override_invocation("node --trace-warnings", "/tmp/x.js", Vec::new()).unwrap();
    assert_eq!(inv.program, "node");
    assert_eq!(inv.args, vec!["--trace-warnings", "/tmp/x.js"]);

    let mut q = request(FileType::Node, "/tmp/x.js");
    q.no_docker = true;
    q.command = Some("node --trace-warnings".to_string());
    let mut o = Orchestrator::new(q);
    let inv = spawned(o.step(Event::Begin));
    assert_eq!(inv.program, "node");
    assert_eq!(inv.args, vec!["--trace-warnings", "/tmp/x.js"]);
    let out = finished(o.step(Event::Exited(300)));
    assert_eq!((out.build_nanos, out.run_nanos, out.image), (0, 300, None));
}

#[test]
fn override_without_space_is_the_program() {
    let inv = override_invocation("deno", "a.ts", Vec::new()).unwrap();
    assert_eq!(inv.program, "deno");
    assert_eq!(inv.args, vec!["a.ts"]);
    assert!(override_invocation("  \t", "a.ts", Vec::new()).is_none());
}

#[test]
fn empty_override_fails() {
    let mut q = request(FileType::Node, "a.js");
    q.no_docker = true;
    q.command = Some("   ".to_string());
    let mut o = Orchestrator::new(q);
    assert!(matches!(failed(o.step(Event::Begin)), RunError::EmptyCommand));
}

#[test]
fn compiled_runtime_builds_then_runs() {
    let mut q = request(FileType::Rust, "/src/hello.rs");
    q.env = vec!["MODE=fast".to_string()];
    let mut o = Orchestrator::new(q);
    match o.step(Event::Begin) {
        Step::Probe(c) => assert_eq!(c, "rustc"),
        _ => panic!("expected a probe"),
    }
    let build = spawned(o.step(Event::ProbeOutcome(true)));
    assert_eq!(build.program, "rustc");
    assert_eq!(build.args, vec!["/src/hello.rs", "-o", "/tmp/hello-runner-build"]);
    assert_eq!(build.env, vec![("MODE".to_string(), "fast".to_string())]);
    assert_eq!(o.stage(), Stage::Building);
    let run = spawned(o.step(Event::Exited(5_000)));
    assert_eq!(run.program, "/tmp/hello-runner-build");
    assert!(run.args.is_empty());
    assert_eq!(run.env, vec![("MODE".to_string(), "fast".to_string())]);
    let out = finished(o.step(Event::Exited(7_000)));
    assert_eq!((out.build_nanos, out.run_nanos, out.image), (5_000, 7_000, None));
    assert_eq!(o.stage(), Stage::Done);
}

#[test]
fn artifact_depends_on_stem_only() {
    assert_eq!(artifact_for("/a/hello.rs").as_deref(), Some("/tmp/hello-runner-build"));
    assert_eq!(artifact_for("b/hello.rs"), artifact_for("/a/hello.rs"));
    assert_eq!(artifact_for("/a/"), None);
}

#[test]
fn compiled_runtime_without_file_name_fails() {
    let mut o = Orchestrator::new(request(FileType::Rust, "src/.."));
    assert!(matches!(o.step(Event::Begin), Step::Probe(_)));
    assert!(matches!(failed(o.step(Event::ProbeOutcome(true))), RunError::InvalidPath));
}

#[test]
fn interpreted_runtime_runs_in_place() {
    let mut q = request(FileType::Go, "main.go");
    q.no_docker = true;
    let mut o = Orchestrator::new(q);
    assert!(matches!(o.step(Event::Begin), Step::Probe(ref c) if c == "go"));
    let inv = spawned(o.step(Event::ProbeOutcome(true)));
    assert_eq!(inv.program, "go");
    assert_eq!(inv.args, vec!["run", "main.go"]);
    let out = finished(o.step(Event::Exited(42)));
    assert_eq!((out.build_nanos, out.run_nanos), (0, 42));
}

#[test]
fn python_falls_back_to_second_binary() {
    let mut o = Orchestrator::new(request(FileType::Python3, "x.py"));
    assert!(matches!(o.step(Event::Begin), Step::Probe(ref c) if c == "python3"));
    assert!(matches!(o.step(Event::ProbeOutcome(false)), Step::Probe(ref c) if c == "python"));
    let inv = spawned(o.step(Event::ProbeOutcome(true)));
    assert_eq!(inv.program, "python");
    assert_eq!(inv.args, vec!["x.py"]);
}

#[test]
fn missing_runtime_is_reported() {
    let mut o = Orchestrator::new(request(FileType::Python3, "x.py"));
    o.step(Event::Begin);
    o.step(Event::ProbeOutcome(false));
    match failed(o.step(Event::ProbeOutcome(false))) {
        RunError::RuntimeNotFound(c) => assert_eq!(c, "python3"),
        e => panic!("unexpected {e:?}"),
    }
    assert!(!RunError::RuntimeNotFound(String::new()).ends_session());
}

#[test]
fn unsupported_fails_before_any_spawn() {
    for no_docker in [false, true] {
        for command in [None, Some("echo hi".to_string())] {
            let mut q = request(FileType::Unsupported, "notes.txt");
            q.no_docker = no_docker;
            q.command = command.clone();
            q.image = Some(DockerImage::new("alpine", "3"));
            let mut o = Orchestrator::new(q);
            assert!(matches!(
                failed(o.step(Event::Begin)),
                RunError::Unsupported(FileType::Unsupported)
            ));
            assert_eq!(o.stage(), Stage::Done);
        }
    }
    let img = DockerImage::new("alpine", "3");
    assert!(matches!(
        plan_container_run(FileType::Unsupported, "notes.txt", None, &img, true),
        Err(DockerError::UnsupportedRuntime(FileType::Unsupported))
    ));
    assert!(matches!(
        resolve_image(FileType::Unsupported, None),
        Err(DockerError::UnsupportedRuntime(FileType::Unsupported))
    ));
    assert!(RunError::Unsupported(FileType::Unsupported).ends_session());
}

#[test]
fn placeholder_is_replaced_in_container_command() {
    let img = DockerImage::parse("python:3");
    let run = plan_container_run(
        FileType::Python3,
        "main.py",
        Some("echo start && {entrypoint} && echo done"),
        &img,
        true,
    )
    .unwrap();
    assert_eq!(run.command, "echo start && /root/app/main.py && echo done");
    assert_eq!(run.volume, "./main.py:/root/app/main.py");
    assert_eq!(run.image, "python:3");
    assert_eq!(
        run.engine_args(),
        vec![
            "run",
            "-v",
            "./main.py:/root/app/main.py",
            "-it",
            "python:3",
            "sh",
            "-c",
            "echo start && /root/app/main.py && echo done"
        ]
    );
}

#[test]
fn container_run_uses_runtime_command_and_mount() {
    let img = DockerImage::alpine("openjdk");
    let run = plan_container_run(FileType::Java, "/home/u/Main.java", None, &img, true).unwrap();
    assert_eq!(run.command, "java /root/app/Main.java && java -cp /root/app Main");
    assert_eq!(run.volume, "/home/u/Main.java:/root/app/Main.java");
    assert_eq!(mount_path("./x.js"), "./x.js");
    assert_eq!(mount_path("x.js"), "./x.js");
    assert_eq!(mount_path(".x.js"), "./.x.js");
}

#[test]
fn absent_image_is_not_installed() {
    let img = DockerImage::alpine("node");
    match plan_container_run(FileType::Node, "a.js", None, &img, false) {
        Err(DockerError::ImageNotInstalled(i)) => assert_eq!(i, "node:alpine"),
        _ => panic!("expected a missing image"),
    }
}

#[test]
fn image_override_wins_over_default() {
    let r = resolve_image(FileType::Node, Some(&DockerImage::parse("node:18"))).unwrap();
    assert_eq!(r.get_image(), "node:18");
    let r = resolve_image(FileType::Node, None).unwrap();
    assert_eq!(r.get_image(), "node:alpine");
    let r = resolve_image(FileType::Python3, Some(&DockerImage::parse("python"))).unwrap();
    assert_eq!(r.get_image(), "python:latest");

    let mut q = request(FileType::Node, "a.js");
    q.image = Some(DockerImage::parse("node:18"));
    let mut o = Orchestrator::new(q);
    assert!(!o.falls_back_to_host());
    assert!(matches!(o.step(Event::Begin), Step::Inspect(ref i) if i == "node:18"));
    match o.step(Event::Presence(true)) {
        Step::RunContainer(run) => {
            assert_eq!(run.image, "node:18");
            assert_eq!(run.command, "node /root/app/main.js");
        }
        _ => panic!("expected a container run"),
    }
    let out = finished(o.step(Event::Exited(9)));
    assert_eq!((out.build_nanos, out.run_nanos), (0, 9));
    assert_eq!(out.image.as_deref(), Some("node:18"));
}

#[test]
fn missing_image_is_pulled_then_run() {
    let mut o = Orchestrator::new(request(FileType::Ruby, "a.rb"));
    assert!(matches!(o.step(Event::Begin), Step::Inspect(ref i) if i == "ruby:alpine"));
    assert!(matches!(o.step(Event::Presence(false)), Step::AskToPull(ref i) if i == "ruby:alpine"));
    assert!(matches!(o.step(Event::Confirmation(true)), Step::Pull(ref i) if i == "ruby:alpine"));
    let next = o.step(Event::PullOutcome { success: true, diagnostics: String::new() });
    assert!(matches!(next, Step::RunContainer(ref r) if r.command == "ruby /root/app/main.rb"));
}

#[test]
fn declined_pull_skips_the_run() {
    let mut o = Orchestrator::new(request(FileType::Ruby, "a.rb"));
    o.step(Event::Begin);
    o.step(Event::Presence(false));
    assert!(matches!(o.step(Event::Confirmation(false)), Step::Skip));
    assert_eq!(o.stage(), Stage::Done);
}

#[test]
fn failed_pull_carries_diagnostics() {
    let mut o = Orchestrator::new(request(FileType::Go, "a.go"));
    o.step(Event::Begin);
    o.step(Event::Presence(false));
    o.step(Event::Confirmation(true));
    let e = failed(o.step(Event::PullOutcome { success: false, diagnostics: "denied".to_string() }));
    match &e {
        RunError::PullFailed { image, diagnostics } => {
            assert_eq!(image, "golang:alpine");
            assert_eq!(diagnostics, "denied");
        }
        _ => panic!("expected a failed pull"),
    }
    assert!(!e.ends_session());
}

#[test]
fn no_docker_runs_on_host() {
    let mut q = request(FileType::Node, "a.js");
    q.no_docker = true;
    let mut o = Orchestrator::new(q);
    assert!(!o.falls_back_to_host());
    assert!(matches!(o.step(Event::Begin), Step::Probe(ref c) if c == "node"));

    let o = Orchestrator::new(request(FileType::Rust, "a.rs"));
    assert!(o.falls_back_to_host());
}

#[test]
fn environment_entries() {
    let (k, v) = split_env_entry("A=b=c").unwrap();
    assert_eq!((k.as_str(), v.as_str()), ("A", "b=c"));
    let (k, v) = split_env_entry("EMPTY=").unwrap();
    assert_eq!((k.as_str(), v.as_str()), ("EMPTY", ""));
    assert!(split_env_entry("NOVALUE").is_none());
    let parsed = parse_env(&vec!["X=1".to_string(), "Y=2".to_string()]).unwrap();
    assert_eq!(
        parsed,
        vec![("X".to_string(), "1".to_string()), ("Y".to_string(), "2".to_string())]
    );
    assert_eq!(parse_env(&vec!["X=1".to_string(), "BAD".to_string(), "ALSO".to_string()]), Err("BAD".to_string()));
}

#[test]
fn malformed_environment_fails() {
    let mut q = request(FileType::Node, "a.js");
    q.no_docker = true;
    q.env = vec!["GOOD=1".to_string(), "BAD".to_string()];
    let mut o = Orchestrator::new(q);
    match failed(o.step(Event::Begin)) {
        RunError::InvalidEnv(e) => assert_eq!(e, "BAD"),
        e => panic!("unexpected {e:?}"),
    }
}

#[test]
fn unexpected_event_fails() {
    let mut o = Orchestrator::new(request(FileType::Go, "a.go"));
    assert!(matches!(failed(o.step(Event::Exited(1))), RunError::UnexpectedEvent));
    assert!(matches!(failed(o.step(Event::Begin)), RunError::UnexpectedEvent));
}

#[test]
fn shell_scripts_use_the_users_shell() {
    let mut q = request(FileType::Shell, "s.sh");
    q.shell = Some("/bin/zsh".to_string());
    let mut o = Orchestrator::new(q);
    assert!(matches!(o.step(Event::Begin), Step::Probe(ref c) if c == "/bin/zsh"));
    let inv = spawned(o.step(Event::ProbeOutcome(true)));
    assert_eq!(inv.program, "/bin/zsh");
    assert_eq!(inv.args, vec!["s.sh"]);
}
