use vstd::prelude::*;
use crate::object_id::RecordId;
use crate::schema::{merged, Patch, Schema};

verus! {

/// A portfolio detail.
#[derive(Clone, Debug, PartialEq, Eq)]
pub struct Detail {
    pub id: Option<RecordId>,
    pub name: String,
    pub description: String,
    pub image: String,
}

/// A partial update of a `Detail`.
#[derive(Clone, Debug, PartialEq, Eq)]
pub struct DetailUpdate {
    pub name: Option<String>,
    pub description: Option<String>,
    pub image: Option<String>,
}

impl Schema for Detail {
    open spec fn spec_id(&self) -> Option<RecordId> {
        self.id
    }

    open spec fn spec_with_id(self, id: Option<RecordId>) -> Detail {
        Detail { id, ..self }
    }

    fn without_id(self) -> (r: Detail) {
        Detail { id: None, name: self.name, description: self.description, image: self.image }
    }
}

impl Patch<Detail> for DetailUpdate {
    open spec fn spec_is_empty(&self) -> bool {
        self.name.is_none() && self.description.is_none() && self.image.is_none()
    }

    open spec fn spec_apply(self, r: Detail) -> Detail {
        Detail {
            id: r.id,
            name: merged(self.name, r.name),
            description: merged(self.description, r.description),
            image: merged(self.image, r.image),
        }
    }

    fn is_empty(&self) -> (b: bool) {
        self.name.is_none() && self.description.is_none() && self.image.is_none()
    }

}

/// A technology of the stack, with its category.
#[derive(Clone, Debug, PartialEq, Eq)]
pub struct TechStack {
    pub id: Option<RecordId>,
    pub name: String,
    pub category: String,
}

/// A partial update of a `TechStack`.
#[derive(Clone, Debug, PartialEq, Eq)]
pub struct TechStackUpdate {
    pub name: Option<String>,
    pub category: Option<String>,
}

impl Schema for TechStack {
    open spec fn spec_id(&self) -> Option<RecordId> {
        self.id
    }

    open spec fn spec_with_id(self, id: Option<RecordId>) -> TechStack {
        TechStack { id, ..self }
    }

    fn without_id(self) -> (r: TechStack) {
        TechStack { id: None, name: self.name, category: self.category }
    }
}

impl Patch<TechStack> for TechStackUpdate {
    open spec fn spec_is_empty(&self) -> bool {
        self.name.is_none() && self.category.is_none()
    }

    open spec fn spec_apply(self, r: TechStack) -> TechStack {
        TechStack {
            id: r.id,
            name: merged(self.name, r.name),
            category: merged(self.category, r.category),
        }
    }

    fn is_empty(&self) -> (b: bool) {
        self.name.is_none() && self.category.is_none()
    }

}

/// A project, with the technologies it used.
#[derive(Clone, Debug, PartialEq, Eq)]
pub struct Project {
    pub id: Option<RecordId>,
    pub name: String,
    pub company: String,
    pub repo: String,
    pub url: String,
    pub tech_stack: Vec<String>,
}

/// A partial update of a `Project`.
#[derive(Clone, Debug, PartialEq, Eq)]
pub struct ProjectUpdate {
    pub name: Option<String>,
    pub company: Option<String>,
    pub repo: Option<String>,
    pub url: Option<String>,
    pub tech_stack: Option<Vec<String>>,
}

impl Schema for Project {
    open spec fn spec_id(&self) -> Option<RecordId> {
        self.id
    }

    open spec fn spec_with_id(self, id: Option<RecordId>) -> Project {
        Project { id, ..self }
    }

    fn without_id(self) -> (r: Project) {
        Project {
            id: None,
            name: self.name,
            company: self.company,
            repo: self.repo,
            url: self.url,
            tech_stack: self.tech_stack,
        }
    }
}

impl Patch<Project> for ProjectUpdate {
    open spec fn spec_is_empty(&self) -> bool {
        self.name.is_none() && self.company.is_none() && self.repo.is_none() && self.url.is_none()
            && self.tech_stack.is_none()
    }

    open spec fn spec_apply(self, r: Project) -> Project {
        Project {
            id: r.id,
            name: merged(self.name, r.name),
            company: merged(self.company, r.company),
            repo: merged(self.repo, r.repo),
            url: merged(self.url, r.url),
            tech_stack: merged(self.tech_stack, r.tech_stack),
        }
    }

    fn is_empty(&self) -> (b: bool) {
        self.name.is_none() && self.company.is_none() && self.repo.is_none() && self.url.is_none()
            && self.tech_stack.is_none()
    }

}

/// A position held, with its period and the technologies it used.
#[derive(Clone, Debug, PartialEq, Eq)]
pub struct Experience {
    pub id: Option<RecordId>,
    pub role: String,
    pub company: String,
    pub description: String,
    pub start: String,
    pub end: String,
    pub tech_stacks: Vec<String>,
}

/// A partial update of an `Experience`.
#[derive(Clone, Debug, PartialEq, Eq)]
pub struct ExperienceUpdate {
    pub role: Option<String>,
    pub company: Option<String>,
    pub description: Option<String>,
    pub start: Option<String>,
    pub end: Option<String>,
    pub tech_stacks: Option<Vec<String>>,
}

impl Schema for Experience {
    open spec fn spec_id(&self) -> Option<RecordId> {
        self.id
    }

    open spec fn spec_with_id(self, id: Option<RecordId>) -> Experience {
        Experience { id, ..self }
    }

    fn without_id(self) -> (r: Experience) {
        Experience {
            id: None,
            role: self.role,
            company: self.company,
            description: self.description,
            start: self.start,
            end: self.end,
            tech_stacks: self.tech_stacks,
        }
    }
}

impl Patch<Experience> for ExperienceUpdate {
    open spec fn spec_is_empty(&self) -> bool {
        self.role.is_none() && self.company.is_none() && self.description.is_none()
            && self.start.is_none() && self.end.is_none() && self.tech_stacks.is_none()
    }

    open spec fn spec_apply(self, r: Experience) -> Experience {
        Experience {
            id: r.id,
            role: merged(self.role, r.role),
            company: merged(self.company, r.company),
            description: merged(self.description, r.description),
            start: merged(self.start, r.start),
            end: merged(self.end, r.end),
            tech_stacks: merged(self.tech_stacks, r.tech_stacks),
        }
    }

    fn is_empty(&self) -> (b: bool) {
        self.role.is_none() && self.company.is_none() && self.description.is_none()
            && self.start.is_none() && self.end.is_none() && self.tech_stacks.is_none()
    }

}

/// An account: its email and the digest of its password.
#[derive(Clone, Debug, PartialEq, Eq)]
pub struct User {
    pub id: Option<RecordId>,
    pub email: String,
    pub password: String,
}

/// A partial update of a `User`; the password changes only through its own
/// operation.
#[derive(Clone, Debug, PartialEq, Eq)]
pub struct UserUpdate {
    pub email: Option<String>,
}

/// A password change: the current password and the one to replace it.
#[derive(Clone, Debug, PartialEq, Eq)]
pub struct PasswordUpdate {
    pub old_password: String,
    pub new_password: String,
}

impl Schema for User {
    open spec fn spec_id(&self) -> Option<RecordId> {
        self.id
    }

    open spec fn spec_with_id(self, id: Option<RecordId>) -> User {
        User { id, ..self }
    }

    fn without_id(self) -> (r: User) {
        User { id: None, email: self.email, password: self.password }
    }
}

impl Patch<User> for UserUpdate {
    open spec fn spec_is_empty(&self) -> bool {
        self.email.is_none()
    }

    open spec fn spec_apply(self, r: User) -> User {
        User { id: r.id, email: merged(self.email, r.email), password: r.password }
    }

    fn is_empty(&self) -> (b: bool) {
        self.email.is_none()
    }

}

} // verus!
