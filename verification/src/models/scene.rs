//! Scenes: the status of a scene and the requests that create and edit one.

use vstd::prelude::*;

verus! {

/// Processing status of a scene.
#[derive(Debug, Clone)]
pub enum SceneStatus {
    /// Initial state: photos uploaded but not processed.
    Pending,
    /// The NeRF model is being trained.
    Training,
    /// The model is trained and ready for rendering.
    Ready,
    /// Processing failed, with the reason.
    Error(String),
}

impl Default for SceneStatus {
    fn default() -> (s: Self)
        ensures
            s is Pending,
    {
        SceneStatus::Pending
    }
}

impl SceneStatus {
    /// The status's name as stored and sent: the variant's name in lower case.
    pub open spec fn label(&self) -> Seq<char> {
        match self {
            SceneStatus::Pending => "pending"@,
            SceneStatus::Training => "training"@,
            SceneStatus::Ready => "ready"@,
            SceneStatus::Error(_) => "error"@,
        }
    }

    /// The status's name in lower case (`pending`, `training`, `ready`, `error`).
    pub fn to_string(&self) -> (s: String)
        ensures
            s@ == self.label(),
    {
        match self {
            SceneStatus::Pending => String::from_str("pending"),
            SceneStatus::Training => String::from_str("training"),
            SceneStatus::Ready => String::from_str("ready"),
            SceneStatus::Error(_) => String::from_str("error"),
        }
    }

    /// Reads a stored status name back; `error` comes back as an error with an
    /// empty reason, and any other text is refused.
    pub fn from_label(text: &str) -> (s: Option<SceneStatus>)
        ensures
            text@ == "pending"@ <==> s matches Some(SceneStatus::Pending),
            text@ == "training"@ <==> s matches Some(SceneStatus::Training),
            text@ == "ready"@ <==> s matches Some(SceneStatus::Ready),
            text@ == "error"@ <==> s matches Some(SceneStatus::Error(_)),
            s matches Some(SceneStatus::Error(m)) ==> m@.len() == 0,
            s matches Some(st) ==> st.label() == text@,
            forall|st: SceneStatus| #[trigger] st.label() == text@ ==> (s matches Some(back)
                && same_variant(back, st)),
    {
        let t = String::from_str(text);
        let pending = String::from_str("pending");
        let training = String::from_str("training");
        let ready = String::from_str("ready");
        let error = String::from_str("error");
        proof {
            reveal_strlit("pending");
            reveal_strlit("training");
            reveal_strlit("ready");
            reveal_strlit("error");
        }
        assert(pending@.len() == 7 && training@.len() == 8 && ready@.len() == 5 && error@.len()
            == 5);
        assert(ready@[0] == 'r' && error@[0] == 'e');
        if t == pending {
            Some(SceneStatus::Pending)
        } else if t == training {
            Some(SceneStatus::Training)
        } else if t == ready {
            Some(SceneStatus::Ready)
        } else if t == error {
            Some(SceneStatus::Error(String::new()))
        } else {
            None
        }
    }
}

/// Whether two statuses are the same variant (ignoring an error's reason).
pub open spec fn same_variant(a: SceneStatus, b: SceneStatus) -> bool {
    match (a, b) {
        (SceneStatus::Pending, SceneStatus::Pending) => true,
        (SceneStatus::Training, SceneStatus::Training) => true,
        (SceneStatus::Ready, SceneStatus::Ready) => true,
        (SceneStatus::Error(_), SceneStatus::Error(_)) => true,
        _ => false,
    }
}

/// Request to create a scene.
#[derive(Debug)]
pub struct CreateSceneRequest {
    pub name: String,
    pub description: Option<String>,
}

/// Request to edit a scene: each field given replaces the scene's.
#[derive(Debug)]
pub struct UpdateSceneRequest {
    pub name: Option<String>,
    pub description: Option<String>,
}

pub open spec fn opt_string_view(s: Option<String>) -> Option<Seq<char>> {
    match s {
        Some(t) => Some(t@),
        None => None,
    }
}

impl UpdateSceneRequest {
    /// The name a scene named `name` has after the update.
    pub open spec fn updated_name(&self, name: Seq<char>) -> Seq<char> {
        match self.name {
            Some(n) => n@,
            None => name,
        }
    }

    /// The description a scene described by `description` has after the update.
    pub open spec fn updated_description(&self, description: Option<Seq<char>>) -> Option<
        Seq<char>,
    > {
        match self.description {
            Some(d) => Some(d@),
            None => description,
        }
    }

    /// Whether the update touches the scene (and so refreshes its update time).
    pub open spec fn changes_anything(&self) -> bool {
        self.name is Some || self.description is Some
    }

    /// Applies the update to a scene's name and description; returns whether
    /// anything was written.
    pub fn apply_to(&self, name: &mut String, description: &mut Option<String>) -> (changed: bool)
        ensures
            final(name)@ == self.updated_name(old(name)@),
            opt_string_view(*final(description)) == self.updated_description(
                opt_string_view(*old(description)),
            ),
            changed == self.changes_anything(),
            self.name matches Some(n) ==> final(name)@ == n@,
            self.name is None ==> final(name)@ == old(name)@,
            self.description matches Some(d) ==> (*final(description) matches Some(fd) && fd@
                == d@),
            self.description is None ==> opt_string_view(*final(description)) == opt_string_view(
                *old(description),
            ),
            changed == (self.name is Some || self.description is Some),
    {
        let mut changed = false;
        match &self.name {
            Some(n) => {
                *name = n.clone();
                changed = true;
            },
            None => {},
        }
        match &self.description {
            Some(d) => {
                *description = Some(d.clone());
                changed = true;
            },
            None => {},
        }
        changed
    }
}

/// Applying the same update twice leaves the scene as applying it once.
pub proof fn lemma_update_idempotent(
    req: UpdateSceneRequest,
    name: Seq<char>,
    description: Option<Seq<char>>,
)
    ensures
        req.updated_name(req.updated_name(name)) == req.updated_name(name),
        req.updated_description(req.updated_description(description)) == req.updated_description(
            description,
        ),
{
}

/// A field given in an update replaces the scene's, whatever it was; a field
/// not given is kept.
pub proof fn lemma_update_replaces_given_fields(
    req: UpdateSceneRequest,
    name: Seq<char>,
    description: Option<Seq<char>>,
)
    ensures
        req.name matches Some(n) ==> req.updated_name(name) == n@,
        req.name is None ==> req.updated_name(name) == name,
        req.description matches Some(d) ==> req.updated_description(description) == Some(d@),
        req.description is None ==> req.updated_description(description) == description,
        req.changes_anything() <==> (req.name is Some || req.description is Some),
{
}

/// An update that gives no field leaves the scene as it was.
pub proof fn lemma_empty_update_changes_nothing(
    req: UpdateSceneRequest,
    name: Seq<char>,
    description: Option<Seq<char>>,
)
    requires
        req.name is None,
        req.description is None,
    ensures
        req.updated_name(name) == name,
        req.updated_description(description) == description,
        !req.changes_anything(),
{
}

} // verus!
