//! Container images and the assembly of a container run.
use vstd::prelude::*;
use crate::file_type::{container_command_spec, container_path, default_image_spec, entrypoint_spec, FileType};
use crate::text::{find_first, first_pos, matches_at, replace_all, replace_text};

verus! {

/// An image reference as the contracts see it.
pub struct ImageRefView {
    pub repository: Seq<char>,
    pub tag: Option<Seq<char>>,
}

impl ImageRefView {
    /// The normalized `repository:tag` text; the tag defaults to `latest`.
    pub open spec fn reference(self) -> Seq<char> {
        self.repository + ":"@ + match self.tag {
            Some(t) => t,
            None => "latest"@,
        }
    }
}

/// What `repo:tag` text denotes: the repository before the first `:`, the tag
/// up to the next `:`; without a `:` the tag is `latest`.
pub open spec fn parse_image_spec(s: Seq<char>) -> ImageRefView {
    let i = first_pos(s, ':');
    if i == s.len() {
        ImageRefView { repository: s, tag: Some("latest"@) }
    } else {
        let rest = s.subrange(i + 1, s.len() as int);
        ImageRefView {
            repository: s.subrange(0, i),
            tag: Some(rest.subrange(0, first_pos(rest, ':'))),
        }
    }
}

/// A container image: a repository and a tag.
#[derive(Debug)]
pub struct DockerImage {
    image: String,
    tag: Option<String>,
}

impl View for DockerImage {
    type V = ImageRefView;

    closed spec fn view(&self) -> ImageRefView {
        ImageRefView {
            repository: self.image@,
            tag: match self.tag {
                Some(t) => Some(t@),
                None => None,
            },
        }
    }
}

impl DockerImage {
    /// The image `image:tag`.
    pub fn new(image: &str, tag: &str) -> (r: Self)
        ensures
            r@ == (ImageRefView { repository: image@, tag: Some(tag@) }),
    {
        DockerImage { image: String::from_str(image), tag: Some(String::from_str(tag)) }
    }

    /// The normalized `repository:tag` reference of this image.
    pub fn get_image(&self) -> (r: String)
        ensures
            r@ == self@.reference(),
    {
        let mut r = self.image.clone();
        r.append(":");
        match &self.tag {
            Some(t) => r.append(t.as_str()),
            None => r.append("latest"),
        }
        r
    }

    /// The `alpine` variant of `image`.
    pub fn alpine(image: &str) -> (r: Self)
        ensures
            r@ == (ImageRefView { repository: image@, tag: Some("alpine"@) }),
    {
        Self::new(image, "alpine")
    }

    /// The `latest` variant of `image`.
    pub fn latest(image: &str) -> (r: Self)
        ensures
            r@ == (ImageRefView { repository: image@, tag: Some("latest"@) }),
    {
        Self::new(image, "latest")
    }

    /// Reads a `repo:tag` reference, as given on the command line.
    pub fn parse(s: &str) -> (r: Self)
        ensures
            r@ == parse_image_spec(s@),
    {
        match find_first(s, ':') {
            None => Self::new(s, "latest"),
            Some(i) => {
                let n = s.unicode_len();
                let rest = s.substring_char(i + 1, n);
                let j = match find_first(rest, ':') {
                    Some(j) => j,
                    None => rest.unicode_len(),
                };
                Self::new(s.substring_char(0, i), rest.substring_char(0, j))
            },
        }
    }

    /// An equal image.
    pub fn duplicate(&self) -> (r: Self)
        ensures
            r@ == self@,
    {
        DockerImage {
            image: self.image.clone(),
            tag: match &self.tag {
                Some(t) => Some(t.clone()),
                None => None,
            },
        }
    }
}

/// Why a container run could not take place.
#[derive(Debug)]
pub enum DockerError {
    /// The runtime has no image, entrypoint or command for containers.
    UnsupportedRuntime(FileType),
    /// The image is unknown to the registry.
    ImageDoesNotExist(String),
    /// The image is not present on this machine; it carries the reference.
    ImageNotInstalled(String),
    /// The container engine could not be started.
    CommandFailed(String),
}

/// The placeholder that a user's container command uses for the source file.
pub const ENTRYPOINT_PLACEHOLDER: &'static str = "{entrypoint}";

/// The image to use: the override when there is one, else the runtime's default.
pub open spec fn resolve_image_spec(ft: FileType, image: Option<ImageRefView>) -> Option<
    ImageRefView,
> {
    match image {
        Some(i) => Some(i),
        None => default_image_spec(ft),
    }
}

/// `p` made explicitly relative (`./p`) unless it starts with `./` or `/`.
pub open spec fn host_mount_path(p: Seq<char>) -> Seq<char> {
    if (p.len() >= 2 && p.subrange(0, 2) == "./"@) || (p.len() >= 1 && p.subrange(0, 1) == "/"@) {
        p
    } else {
        "./"@ + p
    }
}

/// The command run in the container: the user's, with each placeholder
/// replaced by the entrypoint's path, else the runtime's own.
pub open spec fn container_command_for(ft: FileType, command: Option<Seq<char>>) -> Option<
    Seq<char>,
> {
    match entrypoint_spec(ft) {
        None => None,
        Some(e) => match command {
            Some(c) => Some(replace_all(c, ENTRYPOINT_PLACEHOLDER@, container_path(e))),
            None => container_command_spec(ft),
        },
    }
}

/// A container run as the contracts see it.
pub struct ContainerRunView {
    pub image: Seq<char>,
    pub volume: Seq<char>,
    pub command: Seq<char>,
}

/// The container run of `path` under runtime `ft` in `image`; none when the
/// runtime has no entrypoint or no command for containers.
pub open spec fn container_run_spec(
    ft: FileType,
    path: Seq<char>,
    command: Option<Seq<char>>,
    image: ImageRefView,
) -> Option<ContainerRunView> {
    match (entrypoint_spec(ft), container_command_for(ft, command)) {
        (Some(e), Some(c)) => Some(
            ContainerRunView {
                image: image.reference(),
                volume: host_mount_path(path) + ":"@ + container_path(e),
                command: c,
            },
        ),
        _ => None,
    }
}

/// The view of an optional string.
pub open spec fn opt_view(o: Option<&str>) -> Option<Seq<char>> {
    match o {
        Some(s) => Some(s@),
        None => None,
    }
}

/// The view of an optional image.
pub open spec fn opt_image_view(o: Option<&DockerImage>) -> Option<ImageRefView> {
    match o {
        Some(i) => Some(i@),
        None => None,
    }
}

/// A container run, ready for the engine: `docker run -v <volume> -it <image>
/// sh -c <command>`.
pub struct ContainerRun {
    pub image: String,
    pub volume: String,
    pub command: String,
}

impl View for ContainerRun {
    type V = ContainerRunView;

    open spec fn view(&self) -> ContainerRunView {
        ContainerRunView { image: self.image@, volume: self.volume@, command: self.command@ }
    }
}

impl ContainerRun {
    /// The container engine's arguments for this run.
    pub fn engine_args(&self) -> (r: Vec<String>)
        ensures
            r.deep_view() == seq![
                "run"@,
                "-v"@,
                self.volume@,
                "-it"@,
                self.image@,
                "sh"@,
                "-c"@,
                self.command@,
            ],
    {
        let mut r: Vec<String> = Vec::new();
        r.push(String::from_str("run"));
        r.push(String::from_str("-v"));
        r.push(self.volume.clone());
        r.push(String::from_str("-it"));
        r.push(self.image.clone());
        r.push(String::from_str("sh"));
        r.push(String::from_str("-c"));
        r.push(self.command.clone());
        assert(r.deep_view() =~= seq![
            "run"@,
            "-v"@,
            self.volume@,
            "-it"@,
            self.image@,
            "sh"@,
            "-c"@,
            self.command@,
        ]);
        r
    }
}

/// The image for a container run of `ft`: `image` when given, else the
/// runtime's default; an error when neither exists.
pub fn resolve_image(ft: FileType, image: Option<&DockerImage>) -> (r: Result<
    DockerImage,
    DockerError,
>)
    ensures
        match r {
            Ok(i) => resolve_image_spec(ft, opt_image_view(image)) == Some(i@),
            Err(e) => resolve_image_spec(ft, opt_image_view(image)) is None && e
                == DockerError::UnsupportedRuntime(ft),
        },
{
    match image {
        Some(i) => Ok(i.duplicate()),
        None => match ft.get_docker_image() {
            Some(i) => Ok(i),
            None => Err(DockerError::UnsupportedRuntime(ft)),
        },
    }
}

/// `path` as the host side of a bind mount.
pub fn mount_path(path: &str) -> (r: String)
    ensures
        r@ == host_mount_path(path@),
{
    let n = path.unicode_len();
    let dot = matches_at(path, 0, "./");
    let root = matches_at(path, 0, "/");
    proof {
        reveal_strlit("./");
        reveal_strlit("/");
    }
    if dot || root {
        String::from_str(path)
    } else {
        String::from_str("./").concat(path)
    }
}

/// Assembles the container run of `path` under runtime `ft` in `image`,
/// given whether the image is present on this machine.
pub fn plan_container_run(
    ft: FileType,
    path: &str,
    command: Option<&str>,
    image: &DockerImage,
    image_present: bool,
) -> (r: Result<ContainerRun, DockerError>)
    ensures
        !image_present ==> (r matches Err(DockerError::ImageNotInstalled(s)) && s@
            == image@.reference()),
        image_present ==> match r {
            Ok(run) => container_run_spec(ft, path@, opt_view(command), image@) == Some(run@),
            Err(e) => container_run_spec(ft, path@, opt_view(command), image@) is None && e
                == DockerError::UnsupportedRuntime(ft),
        },
{
    if !image_present {
        return Err(DockerError::ImageNotInstalled(image.get_image()));
    }
    let entrypoint = match ft.get_docker_entrypoint() {
        Some(e) => e,
        None => return Err(DockerError::UnsupportedRuntime(ft)),
    };
    let inside = String::from_str("/root/app/").concat(entrypoint.as_str());
    let cmd = match command {
        Some(c) => {
            proof {
                reveal_strlit("{entrypoint}");
            }
            replace_text(c, ENTRYPOINT_PLACEHOLDER, inside.as_str())
        },
        None => match ft.get_docker_command() {
            Some(c) => c,
            None => return Err(DockerError::UnsupportedRuntime(ft)),
        },
    };
    let volume = mount_path(path).concat(":").concat(inside.as_str());
    Ok(ContainerRun { image: image.get_image(), volume, command: cmd })
}

} // verus!
