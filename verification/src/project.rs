use crate::scene_manager::SceneManager;
use vstd::prelude::*;
use vstd::string::*;

verus! {

/// What a project says of itself in its project file.
#[derive(Debug, PartialEq, Eq)]
pub struct ProjectMetadata {
    pub project_name: String,
    pub version: String,
    pub project_path: String,
}

/// What a `ProjectMetadata` stands for.
pub struct ProjectMetadataView {
    pub project_name: Seq<char>,
    pub version: Seq<char>,
    pub project_path: Seq<char>,
}

impl View for ProjectMetadata {
    type V = ProjectMetadataView;

    open spec fn view(&self) -> ProjectMetadataView {
        ProjectMetadataView {
            project_name: self.project_name@,
            version: self.version@,
            project_path: self.project_path@,
        }
    }
}

impl Clone for ProjectMetadata {
    fn clone(&self) -> (r: Self)
        ensures
            r@ == self@,
    {
        ProjectMetadata {
            project_name: self.project_name.clone(),
            version: self.version.clone(),
            project_path: self.project_path.clone(),
        }
    }
}

/// A project as it comes from storage.
#[derive(Debug)]
pub struct LoadedProject {
    pub metadata: ProjectMetadata,
    pub scene_manager: SceneManager,
}

/// What has to be on disk for a new project: the folders, in the order in
/// which they are made, and the project file with what it says.
#[derive(Debug, PartialEq, Eq)]
pub struct ProjectLayout {
    pub base_path: String,
    pub folders: Vec<String>,
    pub project_file: String,
    pub metadata: ProjectMetadata,
}

/// What a `ProjectLayout` stands for.
pub struct ProjectLayoutView {
    pub base_path: Seq<char>,
    pub folders: Seq<Seq<char>>,
    pub project_file: Seq<char>,
    pub metadata: ProjectMetadataView,
}

impl View for ProjectLayout {
    type V = ProjectLayoutView;

    open spec fn view(&self) -> ProjectLayoutView {
        ProjectLayoutView {
            base_path: self.base_path@,
            folders: crate::text::text_views(self.folders@),
            project_file: self.project_file@,
            metadata: self.metadata@,
        }
    }
}

/// The version that a new project starts with.
pub open spec fn initial_version() -> Seq<char> {
    "1.0.0"@
}

/// The folder of the project `project_name` below `project_path`.
pub open spec fn project_base(project_name: Seq<char>, project_path: Seq<char>) -> Seq<char> {
    project_path + "/"@ + project_name
}

/// The folders of a project, the folder of the project first and each folder
/// after the one it lies in.
pub open spec fn project_folders(base: Seq<char>) -> Seq<Seq<char>> {
    seq![
        base,
        base + "/assets"@,
        base + "/assets/images"@,
        base + "/assets/sounds"@,
        base + "/assets/fonts"@,
        base + "/assets/videos"@,
        base + "/entities"@,
        base + "/scripts"@,
        base + "/scenes"@,
    ]
}

/// The layout of the new project `project_name` below `project_path`.
pub open spec fn project_layout(project_name: Seq<char>, project_path: Seq<char>) -> ProjectLayoutView {
    let base = project_base(project_name, project_path);
    ProjectLayoutView {
        base_path: base,
        folders: project_folders(base),
        project_file: base + "/project.json"@,
        metadata: ProjectMetadataView {
            project_name,
            version: initial_version(),
            project_path: base,
        },
    }
}

/// A text with another one behind it.
fn with_suffix(base: &str, suffix: &str) -> (r: String)
    ensures
        r@ == base@ + suffix@,
{
    base.to_owned().concat(suffix)
}

/// The one who lays out the files of a project.
#[derive(Clone, Copy, Debug, PartialEq, Eq, Structural)]
pub struct FileManagement;

impl FileManagement {
    /// Lays out the new project `project_name` below `project_path`: says
    /// which folders to make and what to write to the project file. Nothing
    /// is written here.
    pub fn create_project(project_name: &str, project_path: &str) -> (layout: ProjectLayout)
        ensures
            layout@ == project_layout(project_name@, project_path@),
    {
        let base_path = with_suffix(with_suffix(project_path, "/").as_str(), project_name);
        let base = base_path.as_str();
        let mut folders: Vec<String> = Vec::new();
        folders.push(base.to_owned());
        folders.push(with_suffix(base, "/assets"));
        folders.push(with_suffix(base, "/assets/images"));
        folders.push(with_suffix(base, "/assets/sounds"));
        folders.push(with_suffix(base, "/assets/fonts"));
        folders.push(with_suffix(base, "/assets/videos"));
        folders.push(with_suffix(base, "/entities"));
        folders.push(with_suffix(base, "/scripts"));
        folders.push(with_suffix(base, "/scenes"));
        let project_file = with_suffix(base, "/project.json");
        let metadata = ProjectMetadata {
            project_name: project_name.to_owned(),
            version: "1.0.0".to_owned(),
            project_path: base.to_owned(),
        };
        let layout = ProjectLayout { base_path: base.to_owned(), folders, project_file, metadata };
        proof {
            assert(layout@.folders =~= project_folders(base@));
        }
        layout
    }
}

} // verus!
