use runner::docker::DockerImage;
use runner::file_type::FileType;
use runner::path::{extension, file_name, file_stem};
use runner::session::{decimal, scratch_file_name};
use runner::text::{replace_text, split_words};

#[test]
fn extensions_resolve_to_runtimes() {
    let cases = [
        ("py", FileType::Python3),
        ("sh", FileType::Shell),
        ("js", FileType::Node),
        ("mjs", FileType::Node),
        ("go", FileType::Go),
        ("ts", FileType::Typescript),
        ("rs", FileType::Rust),
        ("pl", FileType::Perl),
        ("php", FileType::Php),
        ("rb", FileType::Ruby),
        ("c", FileType::C),
        ("cpp", FileType::Cpp),
        ("java", FileType::Java),
        ("swift", FileType::Swift),
        ("scala", FileType::Scala),
        ("cs", FileType::CSharp),
    ];
    for (ext, ft) in cases {
        assert_eq!(FileType::from_extension(ext), ft, "extension {ext}");
    }
}

#[test]
fn unknown_extension_is_unsupported() {
    assert_eq!(FileType::from_extension("kt"), FileType::Unsupported);
    assert_eq!(FileType::from_extension(""), FileType::Unsupported);
    assert_eq!(FileType::from_extension("PY"), FileType::Unsupported);
    let ft = FileType::Unsupported;
    assert!(ft.get_docker_image().is_none());
    assert!(ft.get_docker_entrypoint().is_none());
    assert!(ft.get_docker_command().is_none());
    assert!(ft.probe_candidates(None).is_empty());
    assert_eq!(ft.get_template(), "");
}

#[test]
fn resolution_is_repeatable() {
    for ext in ["py", "rs", "java", "mjs", "unknown"] {
        let a = FileType::from_extension(ext);
        let b = FileType::from_extension(ext);
        assert_eq!(a, b);
        assert_eq!(a.get_docker_command(), b.get_docker_command());
        assert_eq!(a.get_docker_entrypoint(), b.get_docker_entrypoint());
        assert_eq!(
            a.get_docker_image().map(|i| i.get_image()),
            b.get_docker_image().map(|i| i.get_image())
        );
        assert_eq!(a.host_command(None), b.host_command(None));
    }
}

#[test]
fn path_resolves_by_extension() {
    assert_eq!(FileType::from_path("src/main.py"), Some(FileType::Python3));
    assert_eq!(FileType::from_path("/tmp/runner-7.ts"), Some(FileType::Typescript));
    assert_eq!(FileType::from_path("./a.b/Main.java"), Some(FileType::Java));
    assert_eq!(FileType::from_path("notes.txt"), Some(FileType::Unsupported));
    assert_eq!(FileType::from_path("Makefile"), None);
    assert_eq!(FileType::from_path(".bashrc"), None);
    assert_eq!(FileType::from_path("dir.d/"), None);
}

#[test]
fn path_parts() {
    assert_eq!(file_name("/a/b/hello.rs").as_deref(), Some("hello.rs"));
    assert_eq!(file_name("/a/b/..").as_deref(), None);
    assert_eq!(extension("x.tar.gz").as_deref(), Some("gz"));
    assert_eq!(extension("trailing.").as_deref(), Some(""));
    assert_eq!(file_stem("/a/b/hello.rs").as_deref(), Some("hello"));
    assert_eq!(file_stem("x.tar.gz").as_deref(), Some("x.tar"));
    assert_eq!(file_stem(".profile").as_deref(), Some(".profile"));
}

#[test]
fn default_images() {
    let img = |ft: FileType| ft.get_docker_image().map(|i| i.get_image());
    assert_eq!(img(FileType::Node).as_deref(), Some("node:alpine"));
    assert_eq!(img(FileType::Ruby).as_deref(), Some("ruby:alpine"));
    assert_eq!(img(FileType::Go).as_deref(), Some("golang:alpine"));
    assert_eq!(img(FileType::Php).as_deref(), Some("php:alpine"));
    assert_eq!(img(FileType::Perl).as_deref(), Some("perl:latest"));
    assert_eq!(img(FileType::Java).as_deref(), Some("openjdk:alpine"));
    assert_eq!(img(FileType::Python3), None);
    assert_eq!(img(FileType::Rust), None);
    assert!(FileType::Node.has_docker_image());
    assert!(!FileType::Rust.has_docker_image());
}

#[test]
fn entrypoints_and_commands() {
    assert_eq!(FileType::Java.get_docker_entrypoint().as_deref(), Some("Main.java"));
    assert_eq!(FileType::Python.get_docker_entrypoint().as_deref(), Some("main.py"));
    assert_eq!(FileType::Swift.get_docker_entrypoint().as_deref(), Some("main.swift"));
    assert_eq!(
        FileType::Java.get_docker_command().as_deref(),
        Some("java /root/app/Main.java && java -cp /root/app Main")
    );
    assert_eq!(FileType::Node.get_docker_command().as_deref(), Some("node /root/app/main.js"));
    assert_eq!(FileType::Python3.get_docker_command().as_deref(), Some("python3 /root/app/main.py"));
    assert_eq!(FileType::Go.get_docker_command().as_deref(), Some("go run /root/app/main.go"));
    assert_eq!(
        FileType::Typescript.get_docker_command().as_deref(),
        Some("tsc /root/app/main.ts && node /root/app/main.js")
    );
    assert_eq!(
        FileType::Rust.get_docker_command().as_deref(),
        Some("rustc /root/app/main.rs && /root/app/main")
    );
    assert_eq!(
        FileType::C.get_docker_command().as_deref(),
        Some("gcc /root/app/main.c -o /root/app/main && /root/app/main")
    );
    assert_eq!(
        FileType::CSharp.get_docker_command().as_deref(),
        Some("csc /root/app/main.cs && mono /root/app/main.exe")
    );
    assert_eq!(FileType::Swift.get_docker_command(), None);
    assert_eq!(FileType::Scala.get_docker_command(), None);
}

#[test]
fn extensions_and_templates() {
    assert_eq!(FileType::CSharp.get_extension(), "cs");
    assert_eq!(FileType::Unsupported.get_extension(), "unsupported");
    assert!(FileType::Go.get_template().contains("Hello, World from GO!"));
    assert!(FileType::Typescript.get_template().contains("Hello, World from NODE!"));
    assert!(FileType::Python3.get_template().contains("Hello, World from PYTHON!"));
    assert!(FileType::Java.get_template().contains("public class Main"));
}

#[test]
fn host_commands_and_candidates() {
    assert_eq!(FileType::Typescript.host_command(None), "bun");
    assert_eq!(FileType::Java.host_command(None), "javac");
    assert_eq!(FileType::Shell.host_command(None), "/bin/bash");
    assert_eq!(FileType::Shell.host_command(Some("/usr/bin/zsh")), "/usr/bin/zsh");
    assert_eq!(FileType::Python3.probe_candidates(None), vec!["python3", "python"]);
    assert_eq!(FileType::Python.probe_candidates(None), vec!["python3", "python"]);
    assert_eq!(FileType::Go.probe_candidates(None), vec!["go"]);
    assert_eq!(FileType::Go.leading_args(), vec!["run"]);
    assert_eq!(FileType::Typescript.leading_args(), vec!["run"]);
    assert!(FileType::Node.leading_args().is_empty());
    assert!(FileType::Rust.is_compiled());
    assert!(!FileType::Go.is_compiled());
}

#[test]
fn image_references() {
    assert_eq!(DockerImage::new("node", "18").get_image(), "node:18");
    assert_eq!(DockerImage::alpine("ruby").get_image(), "ruby:alpine");
    assert_eq!(DockerImage::latest("perl").get_image(), "perl:latest");
    assert_eq!(DockerImage::parse("node:18").get_image(), "node:18");
    assert_eq!(DockerImage::parse("python").get_image(), "python:latest");
    assert_eq!(DockerImage::parse("a:b:c").get_image(), "a:b");
    assert_eq!(DockerImage::parse("ghcr.io/x/y:1").get_image(), "ghcr.io/x/y:1");
}

#[test]
fn text_operations() {
    assert_eq!(replace_text("a{x}b{x}", "{x}", "-"), "a-b-");
    assert_eq!(replace_text("aaa", "aa", "b"), "ba");
    assert_eq!(replace_text("none", "{x}", "-"), "none");
    assert_eq!(split_words("  node \t--trace-warnings\n x "), vec!["node", "--trace-warnings", "x"]);
    assert!(split_words(" \t ").is_empty());
    assert_eq!(decimal(0), "0");
    assert_eq!(decimal(4294967295), "4294967295");
}

#[test]
fn scratch_file_names() {
    assert_eq!(scratch_file_name(42, FileType::Go), "runner-42.go");
    assert_eq!(scratch_file_name(7, FileType::Typescript), "runner-7.ts");
}
