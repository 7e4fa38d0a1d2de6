//! The containers that every installation has, and what may be done to a
//! profile.

use vstd::prelude::*;
use crate::text::same_text;

verus! {

/// The containers that every installation has.
#[derive(Debug, Clone, Copy, PartialEq, Eq)]
pub enum DefaultContainer {
    Personal,
    Work,
    Shopping,
    Banking,
}

impl DefaultContainer {
    /// The name of the container's profile.
    pub open spec fn id(self) -> Seq<char> {
        match self {
            DefaultContainer::Personal => "personal"@,
            DefaultContainer::Work => "work"@,
            DefaultContainer::Shopping => "shopping"@,
            DefaultContainer::Banking => "banking"@,
        }
    }

    /// The default container with the profile name `name`, if there is one.
    pub open spec fn named(name: Seq<char>) -> Option<DefaultContainer> {
        if name == DefaultContainer::Personal.id() {
            Some(DefaultContainer::Personal)
        } else if name == DefaultContainer::Work.id() {
            Some(DefaultContainer::Work)
        } else if name == DefaultContainer::Shopping.id() {
            Some(DefaultContainer::Shopping)
        } else if name == DefaultContainer::Banking.id() {
            Some(DefaultContainer::Banking)
        } else {
            None
        }
    }

    /// The default container with the profile name `name`, if there is one.
    pub fn from_id(name: &str) -> (container: Option<DefaultContainer>)
        ensures
            container == DefaultContainer::named(name@),
    {
        if same_text(name, "personal") {
            Some(DefaultContainer::Personal)
        } else if same_text(name, "work") {
            Some(DefaultContainer::Work)
        } else if same_text(name, "shopping") {
            Some(DefaultContainer::Shopping)
        } else if same_text(name, "banking") {
            Some(DefaultContainer::Banking)
        } else {
            None
        }
    }

    /// The name of the container's profile.
    pub fn profile_name(&self) -> (name: &'static str)
        ensures
            name@ == self.id(),
    {
        match self {
            DefaultContainer::Personal => "personal",
            DefaultContainer::Work => "work",
            DefaultContainer::Shopping => "shopping",
            DefaultContainer::Banking => "banking",
        }
    }

    /// The name that the container is shown under.
    pub fn display_name(&self) -> (name: &'static str)
        ensures
            name@ == match self {
                DefaultContainer::Personal => "Personal"@,
                DefaultContainer::Work => "Work"@,
                DefaultContainer::Shopping => "Shopping"@,
                DefaultContainer::Banking => "Banking"@,
            },
    {
        match self {
            DefaultContainer::Personal => "Personal",
            DefaultContainer::Work => "Work",
            DefaultContainer::Shopping => "Shopping",
            DefaultContainer::Banking => "Banking",
        }
    }

    /// The colour of the container's indicator, as CSS.
    pub fn color(&self) -> (css: &'static str)
        ensures
            css@ == match self {
                DefaultContainer::Personal => "#33d17a"@,
                DefaultContainer::Work => "#3584e4"@,
                DefaultContainer::Shopping => "#ff7800"@,
                DefaultContainer::Banking => "#9141ac"@,
            },
    {
        match self {
            DefaultContainer::Personal => "#33d17a",
            DefaultContainer::Work => "#3584e4",
            DefaultContainer::Shopping => "#ff7800",
            DefaultContainer::Banking => "#9141ac",
        }
    }
}

/// Why a profile is not deleted.
#[derive(Debug, Clone, Copy, PartialEq, Eq)]
pub enum DeleteRefusal {
    /// It is one of the default containers.
    DefaultContainer,
    /// It is loaded: tabs may be using it.
    Loaded,
    /// There is no such profile.
    NotFound,
}

/// Whether the profile `name` may be deleted, and if not, why: a default
/// container may not, nor a loaded profile, nor one that does not exist; the
/// first of these that holds is the reason.
pub open spec fn delete_verdict(name: Seq<char>, is_loaded: bool, exists: bool) -> Result<
    (),
    DeleteRefusal,
> {
    if DefaultContainer::named(name) is Some {
        Err(DeleteRefusal::DefaultContainer)
    } else if is_loaded {
        Err(DeleteRefusal::Loaded)
    } else if !exists {
        Err(DeleteRefusal::NotFound)
    } else {
        Ok(())
    }
}

/// Whether the profile `name` may be deleted, and if not, why.
pub fn check_delete(name: &str, is_loaded: bool, exists: bool) -> (verdict: Result<(), DeleteRefusal>)
    ensures
        verdict == delete_verdict(name@, is_loaded, exists),
{
    if DefaultContainer::from_id(name).is_some() {
        Err(DeleteRefusal::DefaultContainer)
    } else if is_loaded {
        Err(DeleteRefusal::Loaded)
    } else if !exists {
        Err(DeleteRefusal::NotFound)
    } else {
        Ok(())
    }
}

} // verus!
