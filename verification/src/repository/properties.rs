//! The properties of a repository that can be read and changed.
use crate::common::Date;
use crate::models::common::user::User;
use crate::client::ClientError;
use crate::repository::HandleRepositoryError;
use vstd::prelude::*;

verus! {

/// Who may see a repository.
#[derive(Debug, Clone, Copy, PartialEq, Eq, Structural)]
pub enum Visibility {
    Public,
    Private,
    Internal,
}

/// Whether a feature is switched on.
#[derive(Debug, Clone, Copy, PartialEq, Eq, Structural)]
pub enum Status {
    Enabled,
    Disabled,
}

impl Status {
    /// The status that a switch stands for: enabled when it is on.
    pub open spec fn of(status: bool) -> Status {
        if status {
            Status::Enabled
        } else {
            Status::Disabled
        }
    }
}

impl Default for Status {
    fn default() -> (status: Status)
        ensures
            status == Status::Disabled,
    {
        Status::Disabled
    }
}

impl From<bool> for Status {
    fn from(status: bool) -> (made: Status) {
        if status {
            Status::Enabled
        } else {
            Status::Disabled
        }
    }
}

impl vstd::std_specs::convert::FromSpecImpl<bool> for Status {
    open spec fn obeys_from_spec() -> bool {
        true
    }

    open spec fn from_spec(status: bool) -> Status {
        Status::of(status)
    }
}

/// The security features of a repository.
#[derive(Debug, Clone, Copy, PartialEq, Eq, Structural)]
pub struct SecurityProperties {
    pub advanced_security: Status,
    pub secret_scanning_push_protection: Status,
    pub secret_scanning: Status,
}

impl Default for SecurityProperties {
    fn default() -> (security: SecurityProperties)
        ensures
            security == (SecurityProperties {
                advanced_security: Status::Disabled,
                secret_scanning_push_protection: Status::Disabled,
                secret_scanning: Status::Disabled,
            }),
    {
        SecurityProperties::new()
    }
}

impl SecurityProperties {
    /// Every feature switched off.
    pub fn new() -> (security: SecurityProperties)
        ensures
            security == (SecurityProperties {
                advanced_security: Status::Disabled,
                secret_scanning_push_protection: Status::Disabled,
                secret_scanning: Status::Disabled,
            }),
    {
        SecurityProperties {
            advanced_security: Status::Disabled,
            secret_scanning_push_protection: Status::Disabled,
            secret_scanning: Status::Disabled,
        }
    }

    pub fn with_advanced_security(self, status: bool) -> (security: SecurityProperties)
        ensures
            security == (SecurityProperties { advanced_security: Status::of(status), ..self }),
    {
        SecurityProperties { advanced_security: Status::from(status), ..self }
    }

    pub fn with_secret_scanning_push_protection(self, status: bool) -> (security: SecurityProperties)
        ensures
            security == (SecurityProperties { secret_scanning_push_protection: Status::of(status), ..self }),
    {
        SecurityProperties { secret_scanning_push_protection: Status::from(status), ..self }
    }

    pub fn with_secret_scanning(self, status: bool) -> (security: SecurityProperties)
        ensures
            security == (SecurityProperties { secret_scanning: Status::of(status), ..self }),
    {
        SecurityProperties { secret_scanning: Status::from(status), ..self }
    }
}

/// What the service tells of a repository, and what can be changed of it.
#[derive(Debug, PartialEq, Eq)]
pub struct RepositoryProperties {
    pub name: String,
    pub description: String,
    pub homepage: String,
    pub owner: User,
    pub default_branch: String,
    pub visibility: Visibility,
    pub template: bool,
    pub private: bool,
    pub issues: bool,
    pub projects: bool,
    pub wiki: bool,
    pub downloads: bool,
    pub security: Option<SecurityProperties>,
    pub forking: bool,
    pub signoff: bool,
    pub archived: bool,
    pub date_created: Option<Date>,
    pub date_updated: Option<Date>,
    pub date_pushed: Option<Date>,
}

impl Clone for RepositoryProperties {
    fn clone(&self) -> (repository: RepositoryProperties)
        ensures
            repository == *self,
    {
        RepositoryProperties {
            name: self.name.clone(),
            description: self.description.clone(),
            homepage: self.homepage.clone(),
            owner: self.owner.clone(),
            default_branch: self.default_branch.clone(),
            visibility: self.visibility,
            template: self.template,
            private: self.private,
            issues: self.issues,
            projects: self.projects,
            wiki: self.wiki,
            downloads: self.downloads,
            security: self.security,
            forking: self.forking,
            signoff: self.signoff,
            archived: self.archived,
            date_created: self.date_created,
            date_updated: self.date_updated,
            date_pushed: self.date_pushed,
        }
    }
}

impl RepositoryProperties {
    /// The properties of a repository, as the service answered.
    pub fn build_from(answer: Result<RepositoryProperties, ClientError>) -> (properties: Result<
        RepositoryProperties,
        HandleRepositoryError,
    >)
        ensures
            properties == match answer {
                Ok(found) => Ok::<RepositoryProperties, HandleRepositoryError>(found),
                Err(error) => Err(HandleRepositoryError::Client(error)),
            },
    {
        match answer {
            Ok(found) => Ok(found),
            Err(error) => Err(HandleRepositoryError::Client(error)),
        }
    }

    pub fn with_name(self, name: String) -> (repository: RepositoryProperties)
        ensures
            repository == (RepositoryProperties { name, ..self }),
    {
        RepositoryProperties { name, ..self }
    }

    pub fn get_name(&self) -> (name: String)
        ensures
            name == self.name,
    {
        self.name.clone()
    }

    pub fn with_description(self, description: String) -> (repository: RepositoryProperties)
        ensures
            repository == (RepositoryProperties { description, ..self }),
    {
        RepositoryProperties { description, ..self }
    }

    pub fn get_description(&self) -> (description: String)
        ensures
            description == self.description,
    {
        self.description.clone()
    }

    pub fn with_homepage(self, homepage: String) -> (repository: RepositoryProperties)
        ensures
            repository == (RepositoryProperties { homepage, ..self }),
    {
        RepositoryProperties { homepage, ..self }
    }

    pub fn get_homepage(&self) -> (homepage: String)
        ensures
            homepage == self.homepage,
    {
        self.homepage.clone()
    }

    pub fn get_owner(&self) -> (owner: User)
        ensures
            owner == self.owner,
    {
        self.owner.clone()
    }

    pub fn with_default_branch(self, default_branch: String) -> (repository: RepositoryProperties)
        ensures
            repository == (RepositoryProperties { default_branch, ..self }),
    {
        RepositoryProperties { default_branch, ..self }
    }

    pub fn get_default_branch(&self) -> (default_branch: String)
        ensures
            default_branch == self.default_branch,
    {
        self.default_branch.clone()
    }

    pub fn set_default_branch(&mut self, default_branch: String)
        ensures
            *final(self) == (RepositoryProperties { default_branch, ..*old(self) }),
    {
        self.default_branch = default_branch;
    }

    pub fn with_visibility(self, visibility: Visibility) -> (repository: RepositoryProperties)
        ensures
            repository == (RepositoryProperties { visibility, ..self }),
    {
        RepositoryProperties { visibility, ..self }
    }

    pub fn get_visibility(&self) -> (visibility: Visibility)
        ensures
            visibility == self.visibility,
    {
        self.visibility
    }

    pub fn set_visibility(&mut self, visibility: Visibility)
        ensures
            *final(self) == (RepositoryProperties { visibility, ..*old(self) }),
    {
        self.visibility = visibility;
    }

    pub fn with_template(self, template: bool) -> (repository: RepositoryProperties)
        ensures
            repository == (RepositoryProperties { template, ..self }),
    {
        RepositoryProperties { template, ..self }
    }

    pub fn has_template(&self) -> (template: bool)
        ensures
            template == self.template,
    {
        self.template
    }

    pub fn set_template(&mut self, template: bool)
        ensures
            *final(self) == (RepositoryProperties { template, ..*old(self) }),
    {
        self.template = template;
    }

    pub fn with_private(self, private: bool) -> (repository: RepositoryProperties)
        ensures
            repository == (RepositoryProperties { private, ..self }),
    {
        RepositoryProperties { private, ..self }
    }

    pub fn has_private(&self) -> (private: bool)
        ensures
            private == self.private,
    {
        self.private
    }

    pub fn set_private(&mut self, private: bool)
        ensures
            *final(self) == (RepositoryProperties { private, ..*old(self) }),
    {
        self.private = private;
    }

    pub fn with_issues(self, issues: bool) -> (repository: RepositoryProperties)
        ensures
            repository == (RepositoryProperties { issues, ..self }),
    {
        RepositoryProperties { issues, ..self }
    }

    pub fn has_issues(&self) -> (issues: bool)
        ensures
            issues == self.issues,
    {
        self.issues
    }

    pub fn set_issues(&mut self, issues: bool)
        ensures
            *final(self) == (RepositoryProperties { issues, ..*old(self) }),
    {
        self.issues = issues;
    }

    pub fn with_projects(self, projects: bool) -> (repository: RepositoryProperties)
        ensures
            repository == (RepositoryProperties { projects, ..self }),
    {
        RepositoryProperties { projects, ..self }
    }

    pub fn has_projects(&self) -> (projects: bool)
        ensures
            projects == self.projects,
    {
        self.projects
    }

    pub fn set_projects(&mut self, projects: bool)
        ensures
            *final(self) == (RepositoryProperties { projects, ..*old(self) }),
    {
        self.projects = projects;
    }

    pub fn with_wiki(self, wiki: bool) -> (repository: RepositoryProperties)
        ensures
            repository == (RepositoryProperties { wiki, ..self }),
    {
        RepositoryProperties { wiki, ..self }
    }

    pub fn has_wiki(&self) -> (wiki: bool)
        ensures
            wiki == self.wiki,
    {
        self.wiki
    }

    pub fn set_wiki(&mut self, wiki: bool)
        ensures
            *final(self) == (RepositoryProperties { wiki, ..*old(self) }),
    {
        self.wiki = wiki;
    }

    pub fn with_downloads(self, downloads: bool) -> (repository: RepositoryProperties)
        ensures
            repository == (RepositoryProperties { downloads, ..self }),
    {
        RepositoryProperties { downloads, ..self }
    }

    pub fn has_downloads(&self) -> (downloads: bool)
        ensures
            downloads == self.downloads,
    {
        self.downloads
    }

    pub fn set_downloads(&mut self, downloads: bool)
        ensures
            *final(self) == (RepositoryProperties { downloads, ..*old(self) }),
    {
        self.downloads = downloads;
    }

    pub fn with_security(self, security: Option<SecurityProperties>) -> (repository: RepositoryProperties)
        ensures
            repository == (RepositoryProperties { security, ..self }),
    {
        RepositoryProperties { security, ..self }
    }

    pub fn get_security(&self) -> (security: Option<SecurityProperties>)
        ensures
            security == self.security,
    {
        self.security
    }

    pub fn set_security(&mut self, security: Option<SecurityProperties>)
        ensures
            *final(self) == (RepositoryProperties { security, ..*old(self) }),
    {
        self.security = security;
    }

    pub fn with_forking(self, forking: bool) -> (repository: RepositoryProperties)
        ensures
            repository == (RepositoryProperties { forking, ..self }),
    {
        RepositoryProperties { forking, ..self }
    }

    pub fn has_forking(&self) -> (forking: bool)
        ensures
            forking == self.forking,
    {
        self.forking
    }

    pub fn set_forking(&mut self, forking: bool)
        ensures
            *final(self) == (RepositoryProperties { forking, ..*old(self) }),
    {
        self.forking = forking;
    }

    pub fn with_signoff(self, signoff: bool) -> (repository: RepositoryProperties)
        ensures
            repository == (RepositoryProperties { signoff, ..self }),
    {
        RepositoryProperties { signoff, ..self }
    }

    pub fn has_signoff(&self) -> (signoff: bool)
        ensures
            signoff == self.signoff,
    {
        self.signoff
    }

    pub fn set_signoff(&mut self, signoff: bool)
        ensures
            *final(self) == (RepositoryProperties { signoff, ..*old(self) }),
    {
        self.signoff = signoff;
    }

    pub fn with_archived(self, archived: bool) -> (repository: RepositoryProperties)
        ensures
            repository == (RepositoryProperties { archived, ..self }),
    {
        RepositoryProperties { archived, ..self }
    }

    pub fn has_archived(&self) -> (archived: bool)
        ensures
            archived == self.archived,
    {
        self.archived
    }

    pub fn set_archived(&mut self, archived: bool)
        ensures
            *final(self) == (RepositoryProperties { archived, ..*old(self) }),
    {
        self.archived = archived;
    }

    pub fn get_date_created(&self) -> (date_created: Option<Date>)
        ensures
            date_created == self.date_created,
    {
        self.date_created
    }

    pub fn get_date_updated(&self) -> (date_updated: Option<Date>)
        ensures
            date_updated == self.date_updated,
    {
        self.date_updated
    }

    pub fn get_date_pushed(&self) -> (date_pushed: Option<Date>)
        ensures
            date_pushed == self.date_pushed,
    {
        self.date_pushed
    }

    /// The name, as the repository is shown.
    pub fn to_string(&self) -> (text: String)
        ensures
            text == self.name,
    {
        self.name.clone()
    }
}

} // verus!
