//! Repositories as the service describes them.
use crate::common::Date;
use crate::models::common::user::User;
use vstd::prelude::*;

verus! {

/// Who may see a repository.
#[derive(Debug, Clone, Copy, PartialEq, Eq, Structural)]
pub enum Visibility {
    Public,
    Private,
    Internal,
}

/// Whether a feature is switched on.
#[derive(Debug, Clone, Copy, PartialEq, Eq, Structural)]
pub enum Status {
    Enabled,
    Disabled,
}

impl Status {
    /// The status that a switch stands for: enabled when it is on.
    pub open spec fn of(status: bool) -> Status {
        if status {
            Status::Enabled
        } else {
            Status::Disabled
        }
    }
}

impl Default for Status {
    fn default() -> (status: Status)
        ensures
            status == Status::Disabled,
    {
        Status::Disabled
    }
}

impl From<bool> for Status {
    fn from(status: bool) -> (made: Status) {
        if status {
            Status::Enabled
        } else {
            Status::Disabled
        }
    }
}

impl vstd::std_specs::convert::FromSpecImpl<bool> for Status {
    open spec fn obeys_from_spec() -> bool {
        true
    }

    open spec fn from_spec(status: bool) -> Status {
        Status::of(status)
    }
}

/// The security features of a repository.
#[derive(Debug, Clone, Copy, PartialEq, Eq, Structural)]
pub struct Security {
    pub advanced_security: Status,
    pub secret_scanning_push_protection: Status,
    pub secret_scanning: Status,
}

impl Default for Security {
    fn default() -> (security: Security)
        ensures
            security == (Security {
                advanced_security: Status::Disabled,
                secret_scanning_push_protection: Status::Disabled,
                secret_scanning: Status::Disabled,
            }),
    {
        Security::new()
    }
}

impl Security {
    /// Every feature switched off.
    pub fn new() -> (security: Security)
        ensures
            security == (Security {
                advanced_security: Status::Disabled,
                secret_scanning_push_protection: Status::Disabled,
                secret_scanning: Status::Disabled,
            }),
    {
        Security {
            advanced_security: Status::Disabled,
            secret_scanning_push_protection: Status::Disabled,
            secret_scanning: Status::Disabled,
        }
    }

    pub fn with_advanced_security(self, status: bool) -> (security: Security)
        ensures
            security == (Security { advanced_security: Status::of(status), ..self }),
    {
        Security { advanced_security: Status::from(status), ..self }
    }

    pub fn with_secret_scanning_push_protection(self, status: bool) -> (security: Security)
        ensures
            security == (Security { secret_scanning_push_protection: Status::of(status), ..self }),
    {
        Security { secret_scanning_push_protection: Status::from(status), ..self }
    }

    pub fn with_secret_scanning(self, status: bool) -> (security: Security)
        ensures
            security == (Security { secret_scanning: Status::of(status), ..self }),
    {
        Security { secret_scanning: Status::from(status), ..self }
    }
}

/// What the service tells of a repository, and what can be changed of it.
#[derive(Debug, PartialEq, Eq)]
pub struct Repository {
    pub name: String,
    pub description: String,
    pub homepage: String,
    pub owner: User,
    pub default_branch: String,
    pub visibility: Visibility,
    pub template: bool,
    pub private: bool,
    pub issues: bool,
    pub projects: bool,
    pub wiki: bool,
    pub downloads: bool,
    pub security: Option<Security>,
    pub forking: bool,
    pub signoff: bool,
    pub archived: bool,
    pub date_created: Option<Date>,
    pub date_updated: Option<Date>,
    pub date_pushed: Option<Date>,
}

impl Clone for Repository {
    fn clone(&self) -> (repository: Repository)
        ensures
            repository == *self,
    {
        Repository {
            name: self.name.clone(),
            description: self.description.clone(),
            homepage: self.homepage.clone(),
            owner: self.owner.clone(),
            default_branch: self.default_branch.clone(),
            visibility: self.visibility,
            template: self.template,
            private: self.private,
            issues: self.issues,
            projects: self.projects,
            wiki: self.wiki,
            downloads: self.downloads,
            security: self.security,
            forking: self.forking,
            signoff: self.signoff,
            archived: self.archived,
            date_created: self.date_created,
            date_updated: self.date_updated,
            date_pushed: self.date_pushed,
        }
    }
}

impl Repository {
    pub fn with_name(self, name: String) -> (repository: Repository)
        ensures
            repository == (Repository { name, ..self }),
    {
        Repository { name, ..self }
    }

    pub fn get_name(&self) -> (name: String)
        ensures
            name == self.name,
    {
        self.name.clone()
    }

    pub fn with_description(self, description: String) -> (repository: Repository)
        ensures
            repository == (Repository { description, ..self }),
    {
        Repository { description, ..self }
    }

    pub fn get_description(&self) -> (description: String)
        ensures
            description == self.description,
    {
        self.description.clone()
    }

    pub fn with_homepage(self, homepage: String) -> (repository: Repository)
        ensures
            repository == (Repository { homepage, ..self }),
    {
        Repository { homepage, ..self }
    }

    pub fn get_homepage(&self) -> (homepage: String)
        ensures
            homepage == self.homepage,
    {
        self.homepage.clone()
    }

    pub fn get_owner(&self) -> (owner: User)
        ensures
            owner == self.owner,
    {
        self.owner.clone()
    }

    pub fn with_default_branch(self, default_branch: String) -> (repository: Repository)
        ensures
            repository == (Repository { default_branch, ..self }),
    {
        Repository { default_branch, ..self }
    }

    pub fn get_default_branch(&self) -> (default_branch: String)
        ensures
            default_branch == self.default_branch,
    {
        self.default_branch.clone()
    }

    pub fn set_default_branch(&mut self, default_branch: String)
        ensures
            *final(self) == (Repository { default_branch, ..*old(self) }),
    {
        self.default_branch = default_branch;
    }

    pub fn with_visibility(self, visibility: Visibility) -> (repository: Repository)
        ensures
            repository == (Repository { visibility, ..self }),
    {
        Repository { visibility, ..self }
    }

    pub fn get_visibility(&self) -> (visibility: Visibility)
        ensures
            visibility == self.visibility,
    {
        self.visibility
    }

    pub fn set_visibility(&mut self, visibility: Visibility)
        ensures
            *final(self) == (Repository { visibility, ..*old(self) }),
    {
        self.visibility = visibility;
    }

    pub fn with_template(self, template: bool) -> (repository: Repository)
        ensures
            repository == (Repository { template, ..self }),
    {
        Repository { template, ..self }
    }

    pub fn has_template(&self) -> (template: bool)
        ensures
            template == self.template,
    {
        self.template
    }

    pub fn set_template(&mut self, template: bool)
        ensures
            *final(self) == (Repository { template, ..*old(self) }),
    {
        self.template = template;
    }

    pub fn with_private(self, private: bool) -> (repository: Repository)
        ensures
            repository == (Repository { private, ..self }),
    {
        Repository { private, ..self }
    }

    pub fn has_private(&self) -> (private: bool)
        ensures
            private == self.private,
    {
        self.private
    }

    pub fn set_private(&mut self, private: bool)
        ensures
            *final(self) == (Repository { private, ..*old(self) }),
    {
        self.private = private;
    }

    pub fn with_issues(self, issues: bool) -> (repository: Repository)
        ensures
            repository == (Repository { issues, ..self }),
    {
        Repository { issues, ..self }
    }

    pub fn has_issues(&self) -> (issues: bool)
        ensures
            issues == self.issues,
    {
        self.issues
    }

    pub fn set_issues(&mut self, issues: bool)
        ensures
            *final(self) == (Repository { issues, ..*old(self) }),
    {
        self.issues = issues;
    }

    pub fn with_projects(self, projects: bool) -> (repository: Repository)
        ensures
            repository == (Repository { projects, ..self }),
    {
        Repository { projects, ..self }
    }

    pub fn has_projects(&self) -> (projects: bool)
        ensures
            projects == self.projects,
    {
        self.projects
    }

    pub fn set_projects(&mut self, projects: bool)
        ensures
            *final(self) == (Repository { projects, ..*old(self) }),
    {
        self.projects = projects;
    }

    pub fn with_wiki(self, wiki: bool) -> (repository: Repository)
        ensures
            repository == (Repository { wiki, ..self }),
    {
        Repository { wiki, ..self }
    }

    pub fn has_wiki(&self) -> (wiki: bool)
        ensures
            wiki == self.wiki,
    {
        self.wiki
    }

    pub fn set_wiki(&mut self, wiki: bool)
        ensures
            *final(self) == (Repository { wiki, ..*old(self) }),
    {
        self.wiki = wiki;
    }

    pub fn with_downloads(self, downloads: bool) -> (repository: Repository)
        ensures
            repository == (Repository { downloads, ..self }),
    {
        Repository { downloads, ..self }
    }

    pub fn has_downloads(&self) -> (downloads: bool)
        ensures
            downloads == self.downloads,
    {
        self.downloads
    }

    pub fn set_downloads(&mut self, downloads: bool)
        ensures
            *final(self) == (Repository { downloads, ..*old(self) }),
    {
        self.downloads = downloads;
    }

    pub fn with_security(self, security: Option<Security>) -> (repository: Repository)
        ensures
            repository == (Repository { security, ..self }),
    {
        Repository { security, ..self }
    }

    pub fn get_security(&self) -> (security: Option<Security>)
        ensures
            security == self.security,
    {
        self.security
    }

    pub fn set_security(&mut self, security: Option<Security>)
        ensures
            *final(self) == (Repository { security, ..*old(self) }),
    {
        self.security = security;
    }

    pub fn with_forking(self, forking: bool) -> (repository: Repository)
        ensures
            repository == (Repository { forking, ..self }),
    {
        Repository { forking, ..self }
    }

    pub fn has_forking(&self) -> (forking: bool)
        ensures
            forking == self.forking,
    {
        self.forking
    }

    pub fn set_forking(&mut self, forking: bool)
        ensures
            *final(self) == (Repository { forking, ..*old(self) }),
    {
        self.forking = forking;
    }

    pub fn with_signoff(self, signoff: bool) -> (repository: Repository)
        ensures
            repository == (Repository { signoff, ..self }),
    {
        Repository { signoff, ..self }
    }

    pub fn has_signoff(&self) -> (signoff: bool)
        ensures
            signoff == self.signoff,
    {
        self.signoff
    }

    pub fn set_signoff(&mut self, signoff: bool)
        ensures
            *final(self) == (Repository { signoff, ..*old(self) }),
    {
        self.signoff = signoff;
    }

    pub fn with_archived(self, archived: bool) -> (repository: Repository)
        ensures
            repository == (Repository { archived, ..self }),
    {
        Repository { archived, ..self }
    }

    pub fn has_archived(&self) -> (archived: bool)
        ensures
            archived == self.archived,
    {
        self.archived
    }

    pub fn set_archived(&mut self, archived: bool)
        ensures
            *final(self) == (Repository { archived, ..*old(self) }),
    {
        self.archived = archived;
    }

    pub fn get_date_created(&self) -> (date_created: Option<Date>)
        ensures
            date_created == self.date_created,
    {
        self.date_created
    }

    pub fn get_date_updated(&self) -> (date_updated: Option<Date>)
        ensures
            date_updated == self.date_updated,
    {
        self.date_updated
    }

    pub fn get_date_pushed(&self) -> (date_pushed: Option<Date>)
        ensures
            date_pushed == self.date_pushed,
    {
        self.date_pushed
    }

    /// The name, as the repository is shown.
    pub fn to_string(&self) -> (text: String)
        ensures
            text == self.name,
    {
        self.name.clone()
    }
}

} // verus!
