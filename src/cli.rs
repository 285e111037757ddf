//! The options a user starts the runner with, once parsed.
use vstd::prelude::*;
use crate::docker::{opt_view, parse_image_spec, DockerImage};
use crate::file_type::FileType;
use crate::orchestrator::{ExecutionRequest, RequestView};

verus! {

/// The runner's options.
pub struct Args {
    /// The file to watch; a scratch file is created when there is none.
    pub path: Option<String>,
    /// The runtime of the scratch file.
    pub runtime: Option<FileType>,
    /// A command that replaces the runtime's own; in a container,
    /// `{entrypoint}` stands for the source file.
    pub command: Option<String>,
    /// An image that replaces the runtime's default, as `repo[:tag]`.
    pub image: Option<String>,
    /// `KEY=VALUE` entries for the environment of host processes.
    pub env: Option<Vec<String>>,
    /// Run on the host even when the runtime has an image.
    pub no_docker: bool,
}

impl Args {
    /// The runtime of the scratch file: the one asked for, else TypeScript.
    pub fn scratch_runtime(&self) -> (r: FileType)
        ensures
            r == match self.runtime {
                Some(ft) => ft,
                None => FileType::Typescript,
            },
    {
        match self.runtime {
            Some(ft) => ft,
            None => FileType::Typescript,
        }
    }

    /// Whether a runtime was given beside a path, which decides instead.
    pub fn runtime_ignored(&self) -> (r: bool)
        ensures
            r == (self.path is Some && self.runtime is Some),
    {
        self.path.is_some() && self.runtime.is_some()
    }

    /// The request for one run of the file at `path` under runtime `file_type`,
    /// for a user whose shell is `shell`.
    pub fn request(&self, file_type: FileType, path: &str, shell: Option<&str>) -> (r:
        ExecutionRequest)
        ensures
            r@ == (RequestView {
                file_type,
                path: path@,
                command: self.command.deep_view(),
                image: match self.image {
                    Some(i) => Some(parse_image_spec(i@)),
                    None => None,
                },
                env: match self.env {
                    Some(e) => e.deep_view(),
                    None => seq![],
                },
                no_docker: self.no_docker,
                shell: opt_view(shell),
            }),
    {
        let command = match &self.command {
            Some(c) => Some(c.clone()),
            None => None,
        };
        let image = match &self.image {
            Some(i) => Some(DockerImage::parse(i.as_str())),
            None => None,
        };
        let env = match &self.env {
            Some(e) => {
                let v = e.clone();
                assert(v.deep_view() =~= e.deep_view());
                v
            },
            None => {
                let v: Vec<String> = Vec::new();
                assert(v.deep_view() =~= seq![]);
                v
            },
        };
        let shell = match shell {
            Some(s) => Some(String::from_str(s)),
            None => None,
        };
        ExecutionRequest {
            file_type,
            path: String::from_str(path),
            command,
            image,
            env,
            no_docker: self.no_docker,
            shell,
        }
    }
}

} // verus!
