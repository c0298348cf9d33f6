//! Projects: the collections that tasks belong to.

use crate::calendar::now;
use crate::calendar::Timestamp;
use crate::error::TaskError;
use crate::ids::fresh_id;
use crate::store::lists_exactly;
use crate::store::sorted_by;
use crate::store::Record;
use crate::store::Selector;
use crate::store::Store;
use crate::task::clone_opt_string;
use crate::task::opt_wf;
use crate::task::Task;
use crate::task_repository::TaskOrder;
use crate::task_repository::TaskRepository;
use vstd::prelude::*;

verus! {

/// A project. `archived_at_utc` is `None` while it is active.
#[derive(Clone, Debug)]
pub struct Project {
    pub id: u128,
    pub title: String,
    pub emoji: Option<String>,
    pub color: Option<String>,
    pub description: Option<String>,
    pub created_at_utc: Timestamp,
    pub updated_at_utc: Timestamp,
    pub archived_at_utc: Option<Timestamp>,
    pub is_favorite: bool,
}

impl Project {
    /// Every instant the project carries is a real one.
    pub open spec fn wf(self) -> bool {
        &&& self.created_at_utc.wf()
        &&& self.updated_at_utc.wf()
        &&& opt_wf(self.archived_at_utc)
    }

    /// A new active project with identifier `id`, not a favorite, created
    /// and updated at `at`.
    pub fn new_with_id(
        id: u128,
        at: Timestamp,
        title: String,
        emoji: Option<String>,
        color: Option<String>,
        description: Option<String>,
    ) -> (r: Project)
        ensures
            r == (Project {
                id,
                title,
                emoji,
                color,
                description,
                created_at_utc: at,
                updated_at_utc: at,
                archived_at_utc: None,
                is_favorite: false,
            }),
    {
        Project {
            id,
            title,
            emoji,
            color,
            description,
            created_at_utc: at,
            updated_at_utc: at,
            archived_at_utc: None,
            is_favorite: false,
        }
    }

    /// A new active project with a fresh identifier, created now.
    pub fn new(
        title: String,
        emoji: Option<String>,
        color: Option<String>,
        description: Option<String>,
    ) -> (r: Project)
        ensures
            r.title == title,
            r.emoji == emoji,
            r.color == color,
            r.description == description,
            r.archived_at_utc is None,
            !r.is_favorite,
            r.created_at_utc.wf(),
            r.updated_at_utc == r.created_at_utc,
    {
        let at = now();
        Project::new_with_id(fresh_id(), at, title, emoji, color, description)
    }

    /// An equal project, owned separately.
    pub fn duplicate(&self) -> (r: Project)
        ensures
            r == *self,
    {
        Project {
            id: self.id,
            title: self.title.clone(),
            emoji: clone_opt_string(&self.emoji),
            color: clone_opt_string(&self.color),
            description: clone_opt_string(&self.description),
            created_at_utc: self.created_at_utc,
            updated_at_utc: self.updated_at_utc,
            archived_at_utc: self.archived_at_utc,
            is_favorite: self.is_favorite,
        }
    }
}

impl Record for Project {
    open spec fn key(&self) -> u128 {
        self.id
    }

    fn id(&self) -> (r: u128) {
        self.id
    }

    fn duplicate(&self) -> (r: Project) {
        Project::duplicate(self)
    }
}

/// Which projects a query selects.
#[derive(Clone, Copy, Debug, PartialEq, Eq, Structural)]
pub enum ProjectFilter {
    All,
    NotArchived,
    Favorites,
}

impl Selector<Project> for ProjectFilter {
    open spec fn selects(&self, p: Project) -> bool {
        match *self {
            ProjectFilter::All => true,
            ProjectFilter::NotArchived => p.archived_at_utc is None,
            ProjectFilter::Favorites => p.is_favorite,
        }
    }

    fn test(&self, p: &Project) -> (b: bool) {
        match self {
            ProjectFilter::All => true,
            ProjectFilter::NotArchived => p.archived_at_utc.is_none(),
            ProjectFilter::Favorites => p.is_favorite,
        }
    }
}

/// Every stored project is filed under its identifier and carries real
/// instants.
pub open spec fn project_map_wf(m: Map<u128, Project>) -> bool {
    forall|k: u128| #[trigger] m.contains_key(k) ==> m[k].id == k && m[k].wf()
}

/// The stored project that task `t` belongs to, if it has one and it is
/// stored.
pub open spec fn project_of(m: Map<u128, Project>, t: Task) -> Option<Project> {
    match t.project_id {
        Some(p) => if m.contains_key(p) {
            Some(m[p])
        } else {
            None
        },
        None => None,
    }
}

/// The projects of a store, keyed by identifier.
pub struct ProjectRepository {
    store: Store<Project>,
}

impl View for ProjectRepository {
    type V = Map<u128, Project>;

    closed spec fn view(&self) -> Map<u128, Project> {
        self.store@
    }
}

impl ProjectRepository {
    pub closed spec fn store_ok(&self) -> bool {
        self.store.wf()
    }

    pub open spec fn wf(&self) -> bool {
        self.store_ok() && project_map_wf(self@)
    }

    /// An empty store.
    pub fn new() -> (r: Self)
        ensures
            r.wf(),
            r@ == Map::<u128, Project>::empty(),
    {
        ProjectRepository { store: Store::new() }
    }

    /// Whether a project with identifier `id` is stored.
    pub fn contains(&self, id: u128) -> (r: bool)
        requires
            self.wf(),
        ensures
            r == self@.contains_key(id),
    {
        self.store.contains(id)
    }

    /// The project with identifier `id`, if it is stored.
    pub fn find_by_id(&self, id: u128) -> (r: Option<Project>)
        requires
            self.wf(),
        ensures
            r is Some <==> self@.contains_key(id),
            r matches Some(p) ==> p == self@[id],
    {
        self.store.get(id)
    }

    /// Stores `project`: inserted where its identifier is new, otherwise
    /// replacing the stored project but for its creation time, which stays.
    pub fn save(&mut self, project: Project)
        requires
            old(self).wf(),
            project.wf(),
        ensures
            final(self).wf(),
            final(self)@ == old(self)@.insert(
                project.id,
                Project {
                    created_at_utc: if old(self)@.contains_key(project.id) {
                        old(self)@[project.id].created_at_utc
                    } else {
                        project.created_at_utc
                    },
                    ..project
                },
            ),
    {
        let mut project = project;
        if let Some(stored) = self.store.get(project.id) {
            project.created_at_utc = stored.created_at_utc;
        }
        self.store.put(project);
    }

    /// The project of each of `tasks`, in their order.
    pub fn load_projects_for_tasks(&self, tasks: &Vec<Task>) -> (r: Vec<Option<Project>>)
        requires
            self.wf(),
        ensures
            r@.len() == tasks@.len(),
            forall|i: int| 0 <= i < tasks@.len() ==> #[trigger] r@[i] == project_of(self@, tasks@[i]),
    {
        let mut r: Vec<Option<Project>> = Vec::new();
        let mut i: usize = 0;
        while i < tasks.len()
            invariant
                self.wf(),
                i <= tasks@.len(),
                r@.len() == i,
                forall|j: int| 0 <= j < i ==> #[trigger] r@[j] == project_of(self@, tasks@[j]),
            decreases tasks@.len() - i,
        {
            let project = match tasks[i].project_id {
                Some(p) => self.find_by_id(p),
                None => None,
            };
            r.push(project);
            i = i + 1;
        }
        r
    }

    /// Every project.
    pub fn find_all(&self) -> (r: Vec<Project>)
        requires
            self.wf(),
        ensures
            lists_exactly(r@, self@, |p: Project| true),
    {
        let filter = ProjectFilter::All;
        let r = self.store.find_matching(&filter);
        assert((|p: Project| filter.selects(p)) =~= (|p: Project| true));
        r
    }

    /// The projects not archived.
    pub fn find_not_archived(&self) -> (r: Vec<Project>)
        requires
            self.wf(),
        ensures
            lists_exactly(r@, self@, |p: Project| p.archived_at_utc is None),
    {
        let filter = ProjectFilter::NotArchived;
        let r = self.store.find_matching(&filter);
        assert((|p: Project| filter.selects(p)) =~= (|p: Project| p.archived_at_utc is None));
        r
    }

    /// The favorite projects.
    pub fn find_favorites(&self) -> (r: Vec<Project>)
        requires
            self.wf(),
        ensures
            lists_exactly(r@, self@, |p: Project| p.is_favorite),
    {
        let filter = ProjectFilter::Favorites;
        let r = self.store.find_matching(&filter);
        assert((|p: Project| filter.selects(p)) =~= (|p: Project| p.is_favorite));
        r
    }
}

/// Edits of a stored project.
#[derive(Clone, Debug)]
pub enum ProjectEdit {
    Archive,
    AddFavorite,
    RemoveFavorite,
    Details {
        title: String,
        emoji: Option<String>,
        color: Option<String>,
        description: Option<String>,
    },
}

/// What `edit` at `at` makes of `p`.
pub open spec fn edited(p: Project, edit: ProjectEdit, at: Timestamp) -> Project {
    match edit {
        ProjectEdit::Archive => Project { archived_at_utc: Some(at), updated_at_utc: at, ..p },
        ProjectEdit::AddFavorite => Project { is_favorite: true, updated_at_utc: at, ..p },
        ProjectEdit::RemoveFavorite => Project { is_favorite: false, updated_at_utc: at, ..p },
        ProjectEdit::Details { title, emoji, color, description } => Project {
            title,
            emoji,
            color,
            description,
            updated_at_utc: at,
            ..p
        },
    }
}

/// The outcome of applying `edit` at `at` to project `project_id`.
pub open spec fn project_edited(
    old: Map<u128, Project>,
    project_id: u128,
    edit: ProjectEdit,
    at: Timestamp,
    new: Map<u128, Project>,
    r: Result<Project, TaskError>,
) -> bool {
    if old.contains_key(project_id) {
        let p = edited(old[project_id], edit, at);
        r == Ok::<Project, TaskError>(p) && new == old.insert(project_id, p)
    } else {
        r == Err::<Project, TaskError>(TaskError::ProjectNotFound) && new == old
    }
}

/// A project and its open tasks.
#[derive(Clone, Debug)]
pub struct ProjectDetail {
    pub project: Project,
    pub tasks: Vec<Task>,
}

/// `r` holds exactly the open tasks of `m` in project `project_id`.
pub open spec fn lists_open_tasks_of(r: Seq<Task>, m: Map<u128, Task>, project_id: u128) -> bool {
    lists_exactly(r, m, |t: Task| t.project_id == Some(project_id) && t.completed_at_utc is None)
}

/// The outcome of creating a project at `at` with identifier `new_id`:
/// `DuplicateId` where the identifier is taken, otherwise a new active
/// project, not a favorite, stored and returned.
pub open spec fn project_creation(
    old: Map<u128, Project>,
    title: String,
    emoji: Option<String>,
    color: Option<String>,
    description: Option<String>,
    at: Timestamp,
    new_id: u128,
    new: Map<u128, Project>,
    r: Result<Project, TaskError>,
) -> bool {
    if old.contains_key(new_id) {
        r == Err::<Project, TaskError>(TaskError::DuplicateId) && new == old
    } else {
        let p = Project {
            id: new_id,
            title,
            emoji,
            color,
            description,
            created_at_utc: at,
            updated_at_utc: at,
            archived_at_utc: None,
            is_favorite: false,
        };
        r == Ok::<Project, TaskError>(p) && new == old.insert(new_id, p)
    }
}

/// Orchestrates the projects of a store.
pub struct ProjectsManager;

impl ProjectsManager {
    /// Stores a new project with identifier `new_id`, created at `at`;
    /// `DuplicateId` where the identifier is taken.
    pub fn create_project_at(
        project_repository: &mut ProjectRepository,
        title: String,
        emoji: Option<String>,
        color: Option<String>,
        description: Option<String>,
        at: Timestamp,
        new_id: u128,
    ) -> (r: Result<Project, TaskError>)
        requires
            old(project_repository).wf(),
            at.wf(),
        ensures
            final(project_repository).wf(),
            project_creation(
                old(project_repository)@,
                title,
                emoji,
                color,
                description,
                at,
                new_id,
                final(project_repository)@,
                r,
            ),
    {
        if project_repository.contains(new_id) {
            return Err(TaskError::DuplicateId);
        }
        let project = Project::new_with_id(new_id, at, title, emoji, color, description);
        project_repository.save(project.duplicate());
        Ok(project)
    }

    /// Stores a new project created now with a fresh identifier.
    pub fn create_project(
        project_repository: &mut ProjectRepository,
        title: String,
        emoji: Option<String>,
        color: Option<String>,
        description: Option<String>,
    ) -> (r: Result<Project, TaskError>)
        requires
            old(project_repository).wf(),
        ensures
            final(project_repository).wf(),
            exists|at: Timestamp, new_id: u128|
                at.wf() && #[trigger] project_creation(
                    old(project_repository)@,
                    title,
                    emoji,
                    color,
                    description,
                    at,
                    new_id,
                    final(project_repository)@,
                    r,
                ),
            r is Err ==> r == Err::<Project, TaskError>(TaskError::DuplicateId) && final(project_repository)@ == old(project_repository)@
                && exists|k: u128| #[trigger] old(project_repository)@.contains_key(k),
            r matches Ok(p) ==> {
                &&& !old(project_repository)@.contains_key(p.id)
                &&& p.title == title
                &&& p.emoji == emoji
                &&& p.color == color
                &&& p.description == description
                &&& p.created_at_utc.wf()
                &&& p.updated_at_utc == p.created_at_utc
                &&& p.archived_at_utc is None
                &&& !p.is_favorite
                &&& final(project_repository)@ == old(project_repository)@.insert(p.id, p)
            },
    {
        let at = now();
        ProjectsManager::create_project_at(project_repository, title, emoji, color, description, at, fresh_id())
    }

    /// Applies `edit` at `at` to project `project_id`; see
    /// [`project_edited`].
    pub fn edit_project_at(
        project_repository: &mut ProjectRepository,
        project_id: u128,
        edit: ProjectEdit,
        at: Timestamp,
    ) -> (r: Result<Project, TaskError>)
        requires
            old(project_repository).wf(),
            at.wf(),
        ensures
            final(project_repository).wf(),
            project_edited(old(project_repository)@, project_id, edit, at, final(project_repository)@, r),
    {
        let mut project = match project_repository.find_by_id(project_id) {
            Some(p) => p,
            None => return Err(TaskError::ProjectNotFound),
        };
        match edit {
            ProjectEdit::Archive => project.archived_at_utc = Some(at),
            ProjectEdit::AddFavorite => project.is_favorite = true,
            ProjectEdit::RemoveFavorite => project.is_favorite = false,
            ProjectEdit::Details { title, emoji, color, description } => {
                project.title = title;
                project.emoji = emoji;
                project.color = color;
                project.description = description;
            },
        }
        project.updated_at_utc = at;
        project_repository.save(project.duplicate());
        Ok(project)
    }

    /// Applies `edit` now to project `project_id`; the outcome is that of
    /// [`ProjectsManager::edit_project_at`] for some instant.
    pub fn edit_project(
        project_repository: &mut ProjectRepository,
        project_id: u128,
        edit: ProjectEdit,
    ) -> (r: Result<Project, TaskError>)
        requires
            old(project_repository).wf(),
        ensures
            final(project_repository).wf(),
            exists|at: Timestamp|
                at.wf() && #[trigger] project_edited(old(project_repository)@, project_id, edit, at, final(project_repository)@, r),
    {
        let at = now();
        ProjectsManager::edit_project_at(project_repository, project_id, edit, at)
    }

    /// Replaces the title, emoji, colour and description of project
    /// `project_id` now.
    pub fn update_project(
        project_repository: &mut ProjectRepository,
        project_id: u128,
        new_title: String,
        new_emoji: Option<String>,
        new_color: Option<String>,
        new_description: Option<String>,
    ) -> (r: Result<Project, TaskError>)
        requires
            old(project_repository).wf(),
        ensures
            final(project_repository).wf(),
            exists|at: Timestamp|
                at.wf() && #[trigger] project_edited(
                    old(project_repository)@,
                    project_id,
                    ProjectEdit::Details {
                        title: new_title,
                        emoji: new_emoji,
                        color: new_color,
                        description: new_description,
                    },
                    at,
                    final(project_repository)@,
                    r,
                ),
    {
        ProjectsManager::edit_project(
            project_repository,
            project_id,
            ProjectEdit::Details {
                title: new_title,
                emoji: new_emoji,
                color: new_color,
                description: new_description,
            },
        )
    }

    /// Archives project `project_id` now.
    pub fn archive_project(project_repository: &mut ProjectRepository, project_id: u128) -> (r:
        Result<Project, TaskError>)
        requires
            old(project_repository).wf(),
        ensures
            final(project_repository).wf(),
            exists|at: Timestamp|
                at.wf() && #[trigger] project_edited(old(project_repository)@, project_id, ProjectEdit::Archive, at, final(project_repository)@, r),
    {
        ProjectsManager::edit_project(project_repository, project_id, ProjectEdit::Archive)
    }

    /// Marks project `project_id` as a favorite now.
    pub fn add_favorite(project_repository: &mut ProjectRepository, project_id: u128) -> (r:
        Result<Project, TaskError>)
        requires
            old(project_repository).wf(),
        ensures
            final(project_repository).wf(),
            exists|at: Timestamp|
                at.wf() && #[trigger] project_edited(old(project_repository)@, project_id, ProjectEdit::AddFavorite, at, final(project_repository)@, r),
    {
        ProjectsManager::edit_project(project_repository, project_id, ProjectEdit::AddFavorite)
    }

    /// Takes project `project_id` off the favorites now.
    pub fn remove_favorite(project_repository: &mut ProjectRepository, project_id: u128) -> (r:
        Result<Project, TaskError>)
        requires
            old(project_repository).wf(),
        ensures
            final(project_repository).wf(),
            exists|at: Timestamp|
                at.wf() && #[trigger] project_edited(old(project_repository)@, project_id, ProjectEdit::RemoveFavorite, at, final(project_repository)@, r),
    {
        ProjectsManager::edit_project(project_repository, project_id, ProjectEdit::RemoveFavorite)
    }

    /// All projects, or those not archived.
    pub fn load_all(project_repository: &ProjectRepository, show_archived_projects: bool) -> (r: Vec<Project>)
        requires
            project_repository.wf(),
        ensures
            show_archived_projects ==> lists_exactly(r@, project_repository@, |p: Project| true),
            !show_archived_projects ==> lists_exactly(r@, project_repository@, |p: Project| p.archived_at_utc is None),
    {
        if show_archived_projects {
            project_repository.find_all()
        } else {
            project_repository.find_not_archived()
        }
    }

    /// The favorite projects.
    pub fn load_favorites(project_repository: &ProjectRepository) -> (r: Vec<Project>)
        requires
            project_repository.wf(),
        ensures
            lists_exactly(r@, project_repository@, |p: Project| p.is_favorite),
    {
        project_repository.find_favorites()
    }

    /// Project `project_id` with its open tasks, most recently updated
    /// first; `ProjectNotFound` where it is not stored.
    pub fn load_project_detail(
        project_repository: &ProjectRepository,
        task_repository: &TaskRepository,
        project_id: u128,
    ) -> (r: Result<ProjectDetail, TaskError>)
        requires
            project_repository.wf(),
            task_repository.wf(),
        ensures
            !project_repository@.contains_key(project_id) ==> (r matches Err(e) && e
                == TaskError::ProjectNotFound),
            project_repository@.contains_key(project_id) ==> (r matches Ok(d) && d.project
                == project_repository@[project_id] && lists_open_tasks_of(d.tasks@, task_repository@, project_id)
                && sorted_by(d.tasks@, TaskOrder::RecentlyUpdatedFirst)),
    {
        let project = match project_repository.find_by_id(project_id) {
            Some(p) => p,
            None => return Err(TaskError::ProjectNotFound),
        };
        let tasks = task_repository.find_by_project(project_id, false);
        assert((|t: Task| t.project_id == Some(project_id) && (false || t.completed_at_utc is None)) =~= (|
            t: Task,
        | t.project_id == Some(project_id) && t.completed_at_utc is None));
        Ok(ProjectDetail { project, tasks })
    }

    /// The number of open tasks in project `project_id`.
    pub fn count_open_tasks(task_repository: &TaskRepository, project_id: u128) -> (r: usize)
        requires
            task_repository.wf(),
        ensures
            exists|l: Seq<Task>| #[trigger] lists_open_tasks_of(l, task_repository@, project_id) && r == l.len(),
    {
        let tasks = task_repository.find_by_project(project_id, false);
        assert((|t: Task| t.project_id == Some(project_id) && (false || t.completed_at_utc is None)) =~= (|
            t: Task,
        | t.project_id == Some(project_id) && t.completed_at_utc is None));
        assert(lists_open_tasks_of(tasks@, task_repository@, project_id));
        tasks.len()
    }
}

} // verus!
