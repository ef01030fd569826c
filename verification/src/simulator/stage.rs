use vstd::prelude::*;

verus! {

/// Compares two strings by their characters.
pub fn same_text(a: &str, b: &str) -> (same: bool)
    ensures
        same == (a@ == b@),
{
    a.to_owned() == b.to_owned()
}

/// Remembers the name of the recipe stage that was seen last, so that the
/// simulator and the anomaly detector can tell when a new stage begins.
#[derive(Debug, Clone)]
pub struct StageWatch {
    current: Option<String>,
}

impl View for StageWatch {
    type V = Option<Seq<char>>;

    closed spec fn view(&self) -> Option<Seq<char>> {
        match self.current {
            Some(name) => Some(name@),
            None => None,
        }
    }
}

impl StageWatch {
    /// A watch that has seen no stage yet.
    pub fn new() -> (watch: Self)
        ensures
            watch@ == None::<Seq<char>>,
    {
        StageWatch { current: None }
    }

    /// The name of the stage seen last, if any.
    pub fn current(&self) -> (name: Option<&str>)
        ensures
            match name {
                Some(n) => self@ == Some(n@),
                None => self@ == None::<Seq<char>>,
            },
    {
        match &self.current {
            Some(name) => Some(name.as_str()),
            None => None,
        }
    }

    /// Whether observing `name` now would count as a new stage.
    pub fn differs_from(&self, name: &str) -> (differs: bool)
        ensures
            differs == stage_changes(self@, name@),
    {
        match &self.current {
            Some(previous) => !same_text(previous.as_str(), name),
            None => true,
        }
    }

    /// Records `name` as the current stage and reports whether it differs
    /// from the stage seen before (a first stage always counts as a change).
    pub fn observe(&mut self, name: &str) -> (changed: bool)
        ensures
            changed == stage_changes(old(self)@, name@),
            final(self)@ == Some(name@),
    {
        let changed = self.differs_from(name);
        if changed {
            self.current = Some(name.to_owned());
        }
        changed
    }
}

/// Whether observing the stage `name` after `last` counts as a new stage.
pub open spec fn stage_changes(last: Option<Seq<char>>, name: Seq<char>) -> bool {
    last != Some(name)
}

/// A stage is new exactly when its name differs from the one seen last: the
/// first stage is always new, a different name is always new, and the same
/// name again is never new.
pub proof fn lemma_new_stage_iff_name_differs(last: Option<Seq<char>>, name: Seq<char>)
    ensures
        last is None ==> stage_changes(last, name),
        last matches Some(previous) ==> (stage_changes(last, name) <==> previous != name),
{
}

/// Observing the same stage twice in a row never reports a change the second
/// time.
pub proof fn lemma_repeat_observation_is_no_change(name: Seq<char>)
    ensures
        !stage_changes(Some(name), name),
{
}

} // verus!
