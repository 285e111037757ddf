//! The runtime registry: what each supported language needs to run.
use vstd::prelude::*;
use crate::docker::{DockerImage, ImageRefView};
use crate::path::{extension, extension_of};
use crate::templates;
use crate::text::same_text;

verus! {

/// A language runtime, identified by the extension of the file it runs.
#[derive(Debug, Clone, Copy, PartialEq, Eq, Structural)]
pub enum FileType {
    Perl,
    Php,
    Ruby,
    C,
    Cpp,
    Python,
    Python3,
    Node,
    Go,
    Typescript,
    CSharp,
    Java,
    Swift,
    Scala,
    Rust,
    Shell,
    Unsupported,
}

/// The canonical extension of files of runtime `ft`.
pub open spec fn extension_spec(ft: FileType) -> Seq<char> {
    match ft {
        FileType::Perl => "pl"@,
        FileType::Python => "py"@,
        FileType::Python3 => "py"@,
        FileType::Node => "js"@,
        FileType::Go => "go"@,
        FileType::Typescript => "ts"@,
        FileType::Rust => "rs"@,
        FileType::Shell => "sh"@,
        FileType::Ruby => "rb"@,
        FileType::Php => "php"@,
        FileType::C => "c"@,
        FileType::Cpp => "cpp"@,
        FileType::Java => "java"@,
        FileType::Swift => "swift"@,
        FileType::Scala => "scala"@,
        FileType::CSharp => "cs"@,
        FileType::Unsupported => "unsupported"@,
    }
}

/// The runtime that files with extension `e` need.
pub open spec fn file_type_of_extension(e: Seq<char>) -> FileType {
    if e == "py"@ {
        FileType::Python3
    } else if e == "sh"@ {
        FileType::Shell
    } else if e == "js"@ || e == "mjs"@ {
        FileType::Node
    } else if e == "go"@ {
        FileType::Go
    } else if e == "ts"@ {
        FileType::Typescript
    } else if e == "rs"@ {
        FileType::Rust
    } else if e == "pl"@ {
        FileType::Perl
    } else if e == "php"@ {
        FileType::Php
    } else if e == "rb"@ {
        FileType::Ruby
    } else if e == "c"@ {
        FileType::C
    } else if e == "cpp"@ {
        FileType::Cpp
    } else if e == "java"@ {
        FileType::Java
    } else if e == "swift"@ {
        FileType::Swift
    } else if e == "scala"@ {
        FileType::Scala
    } else if e == "cs"@ {
        FileType::CSharp
    } else {
        FileType::Unsupported
    }
}

/// The image that runs `ft` in a container by default.
pub open spec fn default_image_spec(ft: FileType) -> Option<ImageRefView> {
    match ft {
        FileType::Node => Some(ImageRefView { repository: "node"@, tag: Some("alpine"@) }),
        FileType::Ruby => Some(ImageRefView { repository: "ruby"@, tag: Some("alpine"@) }),
        FileType::Go => Some(ImageRefView { repository: "golang"@, tag: Some("alpine"@) }),
        FileType::Php => Some(ImageRefView { repository: "php"@, tag: Some("alpine"@) }),
        FileType::Perl => Some(ImageRefView { repository: "perl"@, tag: Some("latest"@) }),
        FileType::Java => Some(ImageRefView { repository: "openjdk"@, tag: Some("alpine"@) }),
        _ => None,
    }
}

/// The file name under which the source is mounted inside a container.
pub open spec fn entrypoint_spec(ft: FileType) -> Option<Seq<char>> {
    match ft {
        FileType::Java => Some("Main."@ + extension_spec(ft)),
        FileType::Unsupported => None,
        _ => Some("main."@ + extension_spec(ft)),
    }
}

/// Where the entrypoint `e` lives inside a container.
pub open spec fn container_path(e: Seq<char>) -> Seq<char> {
    "/root/app/"@ + e
}

/// The shell command that builds and runs `ft`'s entrypoint in a container.
pub open spec fn container_command_spec(ft: FileType) -> Option<Seq<char>> {
    match entrypoint_spec(ft) {
        None => None,
        Some(e) => {
            let p = container_path(e);
            match ft {
                FileType::Java => Some("java "@ + p + " && java -cp /root/app Main"@),
                FileType::Node => Some("node "@ + p),
                FileType::Python => Some("python3 "@ + p),
                FileType::Python3 => Some("python3 "@ + p),
                FileType::Go => Some("go run "@ + p),
                FileType::Typescript => Some("tsc "@ + p + " && node /root/app/main.js"@),
                FileType::Rust => Some("rustc "@ + p + " && /root/app/main"@),
                FileType::Shell => Some("bash "@ + p),
                FileType::Ruby => Some("ruby "@ + p),
                FileType::Php => Some("php "@ + p),
                FileType::Perl => Some("perl "@ + p),
                FileType::C => Some("gcc "@ + p + " -o /root/app/main && /root/app/main"@),
                FileType::Cpp => Some("g++ "@ + p + " -o /root/app/main && /root/app/main"@),
                FileType::CSharp => Some("csc "@ + p + " && mono /root/app/main.exe"@),
                _ => None,
            }
        },
    }
}

/// The starter program for a scratch file of runtime `ft`.
pub open spec fn template_spec(ft: FileType) -> Seq<char> {
    match ft {
        FileType::Java => templates::JAVA@,
        FileType::Swift => templates::SWIFT@,
        FileType::Scala => templates::SCALA@,
        FileType::CSharp => templates::CSHARP@,
        FileType::Php => templates::PHP@,
        FileType::Ruby => templates::RUBY@,
        FileType::C => templates::C@,
        FileType::Cpp => templates::CPP@,
        FileType::Perl => templates::PERL@,
        FileType::Python => templates::PYTHON@,
        FileType::Python3 => templates::PYTHON@,
        FileType::Go => templates::GO@,
        FileType::Typescript => templates::NODE@,
        FileType::Node => templates::NODE@,
        FileType::Rust => templates::RUST@,
        FileType::Shell => templates::BASH@,
        FileType::Unsupported => ""@,
    }
}

/// The host executable of `ft`; a shell script runs under `shell`, or
/// `/bin/bash` when no shell is known.
pub open spec fn host_command_spec(ft: FileType, shell: Option<Seq<char>>) -> Seq<char> {
    match ft {
        FileType::Shell => match shell {
            Some(s) => s,
            None => "/bin/bash"@,
        },
        FileType::Python => "python"@,
        FileType::Python3 => "python3"@,
        FileType::Node => "node"@,
        FileType::Go => "go"@,
        FileType::Typescript => "bun"@,
        FileType::Rust => "rustc"@,
        FileType::Perl => "perl"@,
        FileType::Php => "php"@,
        FileType::Ruby => "ruby"@,
        FileType::C => "gcc"@,
        FileType::Cpp => "g++"@,
        FileType::Java => "javac"@,
        FileType::Swift => "swiftc"@,
        FileType::Scala => "scalac"@,
        FileType::CSharp => "csc"@,
        FileType::Unsupported => "Unsupported"@,
    }
}

/// The executables that may run `ft` on the host, in the order they are
/// tried: `python3` before `python`; none for an unsupported file.
pub open spec fn candidates_spec(ft: FileType, shell: Option<Seq<char>>) -> Seq<Seq<char>> {
    match ft {
        FileType::Python => seq!["python3"@, "python"@],
        FileType::Python3 => seq!["python3"@, "python"@],
        FileType::Unsupported => seq![],
        _ => seq![host_command_spec(ft, shell)],
    }
}

/// Arguments that go before the source path on the host (`go run x.go`).
pub open spec fn leading_args_spec(ft: FileType) -> Seq<Seq<char>> {
    match ft {
        FileType::Go => seq!["run"@],
        FileType::Typescript => seq!["run"@],
        _ => seq![],
    }
}

/// Whether `ft` is built to an artifact first, which then runs on its own.
pub open spec fn is_compiled_spec(ft: FileType) -> bool {
    ft is Rust
}

/// Everything the registry knows of a runtime.
pub struct RuntimeDescriptor {
    pub file_type: FileType,
    pub host_command: Seq<char>,
    pub candidates: Seq<Seq<char>>,
    pub is_compiled: bool,
    pub image: Option<ImageRefView>,
    pub entrypoint: Option<Seq<char>>,
    pub container_command: Option<Seq<char>>,
    pub template: Seq<char>,
}

/// The descriptor of runtime `ft`, for a user whose shell is `shell`.
pub open spec fn descriptor_spec(ft: FileType, shell: Option<Seq<char>>) -> RuntimeDescriptor {
    RuntimeDescriptor {
        file_type: ft,
        host_command: host_command_spec(ft, shell),
        candidates: candidates_spec(ft, shell),
        is_compiled: is_compiled_spec(ft),
        image: default_image_spec(ft),
        entrypoint: entrypoint_spec(ft),
        container_command: container_command_spec(ft),
        template: template_spec(ft),
    }
}

/// The extensions that the registry knows.
pub open spec fn known_extensions() -> Set<Seq<char>> {
    set![
        "py"@, "sh"@, "js"@, "mjs"@, "go"@, "ts"@, "rs"@, "pl"@, "php"@, "rb"@, "c"@, "cpp"@,
        "java"@, "swift"@, "scala"@, "cs"@,
    ]
}

/// Resolution is a pure function of the extension: the same extension always
/// yields the same descriptor.
pub proof fn lemma_resolution_is_pure(e1: Seq<char>, e2: Seq<char>, shell: Option<Seq<char>>)
    requires
        e1 == e2,
    ensures
        file_type_of_extension(e1) == file_type_of_extension(e2),
        descriptor_spec(file_type_of_extension(e1), shell) == descriptor_spec(
            file_type_of_extension(e2),
            shell,
        ),
{
}

/// An extension that the registry does not know resolves to `Unsupported`,
/// whose descriptor offers no executable, no image, no entrypoint and no
/// container command.
pub proof fn lemma_unknown_extension_is_unsupported(e: Seq<char>, shell: Option<Seq<char>>)
    requires
        !known_extensions().contains(e),
    ensures
        file_type_of_extension(e) == FileType::Unsupported,
        descriptor_spec(file_type_of_extension(e), shell).candidates.len() == 0,
        descriptor_spec(file_type_of_extension(e), shell).image is None,
        descriptor_spec(file_type_of_extension(e), shell).entrypoint is None,
        descriptor_spec(file_type_of_extension(e), shell).container_command is None,
{
}

impl FileType {
    /// The canonical extension of this runtime's files.
    pub fn get_extension(&self) -> (r: String)
        ensures
            r@ == extension_spec(*self),
    {
        let e = match self {
            FileType::Perl => "pl",
            FileType::Python => "py",
            FileType::Python3 => "py",
            FileType::Node => "js",
            FileType::Go => "go",
            FileType::Typescript => "ts",
            FileType::Rust => "rs",
            FileType::Shell => "sh",
            FileType::Ruby => "rb",
            FileType::Php => "php",
            FileType::C => "c",
            FileType::Cpp => "cpp",
            FileType::Java => "java",
            FileType::Swift => "swift",
            FileType::Scala => "scala",
            FileType::CSharp => "cs",
            FileType::Unsupported => "unsupported",
        };
        String::from_str(e)
    }

    /// The runtime that files with extension `ext` need; `Unsupported` for
    /// every extension the registry does not know.
    pub fn from_extension(ext: &str) -> (r: FileType)
        ensures
            r == file_type_of_extension(ext@),
    {
        if same_text(ext, "py") {
            FileType::Python3
        } else if same_text(ext, "sh") {
            FileType::Shell
        } else if same_text(ext, "js") || same_text(ext, "mjs") {
            FileType::Node
        } else if same_text(ext, "go") {
            FileType::Go
        } else if same_text(ext, "ts") {
            FileType::Typescript
        } else if same_text(ext, "rs") {
            FileType::Rust
        } else if same_text(ext, "pl") {
            FileType::Perl
        } else if same_text(ext, "php") {
            FileType::Php
        } else if same_text(ext, "rb") {
            FileType::Ruby
        } else if same_text(ext, "c") {
            FileType::C
        } else if same_text(ext, "cpp") {
            FileType::Cpp
        } else if same_text(ext, "java") {
            FileType::Java
        } else if same_text(ext, "swift") {
            FileType::Swift
        } else if same_text(ext, "scala") {
            FileType::Scala
        } else if same_text(ext, "cs") {
            FileType::CSharp
        } else {
            FileType::Unsupported
        }
    }

    /// The runtime for the file at `path`, by its extension; `None` when the
    /// path has no extension.
    pub fn from_path(path: &str) -> (r: Option<FileType>)
        ensures
            r == match extension_of(path@) {
                Some(e) => Some(file_type_of_extension(e)),
                None => None,
            },
    {
        match extension(path) {
            Some(e) => Some(Self::from_extension(e.as_str())),
            None => None,
        }
    }

    /// The image that runs this runtime in a container by default.
    pub fn get_docker_image(&self) -> (r: Option<DockerImage>)
        ensures
            match r {
                Some(i) => default_image_spec(*self) == Some(i@),
                None => default_image_spec(*self) is None,
            },
    {
        match self {
            FileType::Node => Some(DockerImage::alpine("node")),
            FileType::Ruby => Some(DockerImage::alpine("ruby")),
            FileType::Go => Some(DockerImage::alpine("golang")),
            FileType::Php => Some(DockerImage::alpine("php")),
            FileType::Perl => Some(DockerImage::latest("perl")),
            FileType::Java => Some(DockerImage::alpine("openjdk")),
            _ => None,
        }
    }

    /// Whether this runtime has a default container image.
    pub fn has_docker_image(&self) -> (r: bool)
        ensures
            r == default_image_spec(*self) is Some,
    {
        match self {
            FileType::Node | FileType::Ruby | FileType::Go | FileType::Php | FileType::Perl
            | FileType::Java => true,
            _ => false,
        }
    }

    /// The file name of the source inside a container.
    pub fn get_docker_entrypoint(&self) -> (r: Option<String>)
        ensures
            match r {
                Some(e) => entrypoint_spec(*self) == Some(e@),
                None => entrypoint_spec(*self) is None,
            },
    {
        match self {
            FileType::Java => Some(String::from_str("Main.").concat(self.get_extension().as_str())),
            FileType::Unsupported => None,
            _ => Some(String::from_str("main.").concat(self.get_extension().as_str())),
        }
    }

    /// The shell command that builds and runs the entrypoint in a container.
    pub fn get_docker_command(&self) -> (r: Option<String>)
        ensures
            match r {
                Some(c) => container_command_spec(*self) == Some(c@),
                None => container_command_spec(*self) is None,
            },
    {
        let entrypoint = match self.get_docker_entrypoint() {
            Some(e) => e,
            None => return None,
        };
        let p = String::from_str("/root/app/").concat(entrypoint.as_str());
        let p = p.as_str();
        match self {
            FileType::Java => Some(
                String::from_str("java ").concat(p).concat(" && java -cp /root/app Main"),
            ),
            FileType::Node => Some(String::from_str("node ").concat(p)),
            FileType::Python | FileType::Python3 => Some(String::from_str("python3 ").concat(p)),
            FileType::Go => Some(String::from_str("go run ").concat(p)),
            FileType::Typescript => Some(
                String::from_str("tsc ").concat(p).concat(" && node /root/app/main.js"),
            ),
            FileType::Rust => Some(String::from_str("rustc ").concat(p).concat(" && /root/app/main")),
            FileType::Shell => Some(String::from_str("bash ").concat(p)),
            FileType::Ruby => Some(String::from_str("ruby ").concat(p)),
            FileType::Php => Some(String::from_str("php ").concat(p)),
            FileType::Perl => Some(String::from_str("perl ").concat(p)),
            FileType::C => Some(
                String::from_str("gcc ").concat(p).concat(" -o /root/app/main && /root/app/main"),
            ),
            FileType::Cpp => Some(
                String::from_str("g++ ").concat(p).concat(" -o /root/app/main && /root/app/main"),
            ),
            FileType::CSharp => Some(
                String::from_str("csc ").concat(p).concat(" && mono /root/app/main.exe"),
            ),
            _ => None,
        }
    }

    /// The starter program written into a scratch file of this runtime.
    pub fn get_template(&self) -> (r: String)
        ensures
            r@ == template_spec(*self),
    {
        let t = match self {
            FileType::Java => templates::JAVA,
            FileType::Swift => templates::SWIFT,
            FileType::Scala => templates::SCALA,
            FileType::CSharp => templates::CSHARP,
            FileType::Php => templates::PHP,
            FileType::Ruby => templates::RUBY,
            FileType::C => templates::C,
            FileType::Cpp => templates::CPP,
            FileType::Perl => templates::PERL,
            FileType::Python | FileType::Python3 => templates::PYTHON,
            FileType::Go => templates::GO,
            FileType::Typescript | FileType::Node => templates::NODE,
            FileType::Rust => templates::RUST,
            FileType::Shell => templates::BASH,
            FileType::Unsupported => "",
        };
        String::from_str(t)
    }

    /// The host executable of this runtime; `shell` is the user's shell.
    pub fn host_command(&self, shell: Option<&str>) -> (r: String)
        ensures
            r@ == host_command_spec(
                *self,
                match shell {
                    Some(s) => Some(s@),
                    None => None,
                },
            ),
    {
        let c = match self {
            FileType::Shell => match shell {
                Some(s) => s,
                None => "/bin/bash",
            },
            FileType::Python => "python",
            FileType::Python3 => "python3",
            FileType::Node => "node",
            FileType::Go => "go",
            FileType::Typescript => "bun",
            FileType::Rust => "rustc",
            FileType::Perl => "perl",
            FileType::Php => "php",
            FileType::Ruby => "ruby",
            FileType::C => "gcc",
            FileType::Cpp => "g++",
            FileType::Java => "javac",
            FileType::Swift => "swiftc",
            FileType::Scala => "scalac",
            FileType::CSharp => "csc",
            FileType::Unsupported => "Unsupported",
        };
        String::from_str(c)
    }

    /// The host executables to probe for this runtime, in order; the first
    /// that starts is the one to use.
    pub fn probe_candidates(&self, shell: Option<&str>) -> (r: Vec<String>)
        ensures
            r.deep_view() == candidates_spec(
                *self,
                match shell {
                    Some(s) => Some(s@),
                    None => None,
                },
            ),
    {
        let mut r: Vec<String> = Vec::new();
        match self {
            FileType::Python | FileType::Python3 => {
                r.push(String::from_str("python3"));
                r.push(String::from_str("python"));
            },
            FileType::Unsupported => {},
            _ => {
                r.push(self.host_command(shell));
            },
        }
        assert(r.deep_view() =~= candidates_spec(
            *self,
            match shell {
                Some(s) => Some(s@),
                None => None,
            },
        ));
        r
    }

    /// Arguments that go before the source path when running on the host.
    pub fn leading_args(&self) -> (r: Vec<String>)
        ensures
            r.deep_view() == leading_args_spec(*self),
    {
        let mut r: Vec<String> = Vec::new();
        match self {
            FileType::Go | FileType::Typescript => {
                r.push(String::from_str("run"));
            },
            _ => {},
        }
        assert(r.deep_view() =~= leading_args_spec(*self));
        r
    }

    /// Whether this runtime builds an artifact that then runs on its own.
    pub fn is_compiled(&self) -> (r: bool)
        ensures
            r == is_compiled_spec(*self),
    {
        matches!(self, FileType::Rust)
    }
}

} // verus!
