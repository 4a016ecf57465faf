use vstd::prelude::*;

use super::project::{Project, ProjectView};
use super::validation::{
    lemma_validate_accepts_exactly_valid_projects, valid_project, validate, validation_result,
    ValidationError,
};

verus! {

/// What a project store holds: the project that plays now and the one staged for the next
/// bar boundary.
pub struct StoreView {
    pub active: Option<ProjectView>,
    pub pending: Option<ProjectView>,
}

impl StoreView {
    /// The empty store.
    pub open spec fn empty() -> StoreView {
        StoreView { active: None, pending: None }
    }

    /// Staging `p`: it replaces any staged project when it validates; otherwise nothing changes.
    pub open spec fn set_pending(self, p: ProjectView) -> StoreView {
        if validation_result(p) is Ok {
            StoreView { active: self.active, pending: Some(p) }
        } else {
            self
        }
    }

    /// Committing at a bar boundary: a staged project becomes the active one.
    pub open spec fn commit(self) -> StoreView {
        if self.pending is Some {
            StoreView { active: self.pending, pending: None }
        } else {
            self
        }
    }

    /// Every project the store holds obeys the field rules.
    pub open spec fn well_formed(self) -> bool {
        &&& (self.active matches Some(p) ==> valid_project(p))
        &&& (self.pending matches Some(p) ==> valid_project(p))
    }
}

/// The active project and the project staged to replace it at the next bar boundary.
pub struct ProjectStore {
    active: Option<Project>,
    pending: Option<Project>,
}

impl View for ProjectStore {
    type V = StoreView;

    closed spec fn view(&self) -> StoreView {
        StoreView {
            active: match self.active {
                Some(p) => Some(p@),
                None => None,
            },
            pending: match self.pending {
                Some(p) => Some(p@),
                None => None,
            },
        }
    }
}

impl ProjectStore {
    /// Both projects of every store obey the field rules.
    #[verifier::type_invariant]
    pub open spec fn inv(self) -> bool {
        self@.well_formed()
    }

    /// An empty store.
    pub fn new() -> (s: ProjectStore)
        ensures
            s@ == StoreView::empty(),
    {
        ProjectStore { active: None, pending: None }
    }

    /// The project that plays now, if any.
    pub fn active(&self) -> (r: Option<&Project>)
        ensures
            match r {
                Some(p) => self@.active == Some(p@),
                None => self@.active is None,
            },
    {
        self.active.as_ref()
    }

    /// The project staged for the next bar boundary, if any.
    pub fn pending(&self) -> (r: Option<&Project>)
        ensures
            match r {
                Some(p) => self@.pending == Some(p@),
                None => self@.pending is None,
            },
    {
        self.pending.as_ref()
    }

    /// Validates `project` and, when it obeys the rules, stages it (replacing any staged
    /// project); a rejected project leaves the store as it was.
    pub fn set_pending(&mut self, project: Project) -> (r: Result<(), ValidationError>)
        ensures
            r == validation_result(project@),
            final(self)@ == old(self)@.set_pending(project@),
    {
        proof {
            use_type_invariant(&*self);
        }
        match validate(&project) {
            Ok(()) => {
                proof {
                    lemma_validate_accepts_exactly_valid_projects(project@);
                }
                self.pending = Some(project);
                Ok(())
            },
            Err(e) => Err(e),
        }
    }

    /// Promotes the staged project to active; returns whether there was one to promote.
    pub fn commit_pending(&mut self) -> (r: bool)
        ensures
            r == (old(self)@.pending is Some),
            final(self)@ == old(self)@.commit(),
    {
        proof {
            use_type_invariant(&*self);
        }
        if self.pending.is_some() {
            let mut p: Option<Project> = None;
            std::mem::swap(&mut p, &mut self.pending);
            self.active = p;
            true
        } else {
            false
        }
    }

    /// Drops both the active and the staged project.
    pub fn clear(&mut self)
        ensures
            final(self)@ == StoreView::empty(),
    {
        proof {
            use_type_invariant(&*self);
        }
        self.pending = None;
        self.active = None;
    }
}

/// A project staged by `set_pending` becomes the active project at the next commit, and
/// nothing stays staged.
pub proof fn law_commit_activates_staged_project(s: StoreView, p: ProjectView)
    requires
        validation_result(p) is Ok,
    ensures
        s.set_pending(p).commit().active == Some(p),
        s.set_pending(p).commit().pending is None,
{
}

/// Staging twice before a commit keeps only the later project.
pub proof fn law_later_staging_wins(s: StoreView, p1: ProjectView, p2: ProjectView)
    requires
        validation_result(p2) is Ok,
    ensures
        s.set_pending(p1).set_pending(p2).commit().active == Some(p2),
{
}

/// A rejected project changes nothing: not the active project, not the staged one.
pub proof fn law_rejected_project_changes_nothing(s: StoreView, p: ProjectView)
    requires
        validation_result(p) is Err,
    ensures
        s.set_pending(p) == s,
{
}

/// Committing with nothing staged changes nothing; committing twice is committing once.
pub proof fn law_commit_idempotent(s: StoreView)
    ensures
        s.pending is None ==> s.commit() == s,
        s.commit().commit() == s.commit(),
{
}

/// Staging never touches the active project until the commit.
pub proof fn law_staging_keeps_active(s: StoreView, p: ProjectView)
    ensures
        s.set_pending(p).active == s.active,
{
}

/// Every operation keeps the store's projects within the field rules.
pub proof fn law_operations_keep_store_well_formed(s: StoreView, p: ProjectView)
    requires
        s.well_formed(),
    ensures
        s.set_pending(p).well_formed(),
        s.commit().well_formed(),
        StoreView::empty().well_formed(),
{
    lemma_validate_accepts_exactly_valid_projects(p);
}

} // verus!
