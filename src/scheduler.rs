use std::collections::HashSet;
use vstd::prelude::*;

verus! {

broadcast use vstd::std_specs::hash::group_hash_axioms;

/// What the shaping engine answered to one layout request of an entity.
pub enum LayoutOutcome<S> {
    /// A font that the text names is not loaded yet: try again next frame.
    FontNotFound,
    /// A rasterised glyph fits in no atlas.
    FailedToAddGlyph,
    /// The layout succeeded. Holds what was read back from the engine for the
    /// entity right after the call (its size, descaled to entity-local units),
    /// or `None` where the engine holds no layout for it.
    Laid(Option<S>),
}

/// The conditions under which a layout pass cannot go on.
#[derive(Clone, Copy, Debug, PartialEq, Eq, Structural)]
pub enum LayoutError {
    /// The shaping engine could not place a glyph in any atlas.
    FailedToAddGlyph,
    /// A layout reported as done could not be read back.
    MissingLayout,
}

/// Whether an entity's layout must be recomputed this frame: its text
/// changed, the display scale factor changed, or an earlier attempt is
/// waiting for a font.
pub open spec fn needs_layout_spec(pending: Set<u64>, id: u64, text_changed: bool, factor_changed: bool) -> bool {
    factor_changed || text_changed || pending.contains(id)
}

/// The set of entities waiting for a font, once `outcome` is known for `id`.
pub open spec fn pending_after<S>(pending: Set<u64>, id: u64, outcome: LayoutOutcome<S>) -> Set<u64> {
    match outcome {
        LayoutOutcome::FontNotFound => pending.insert(id),
        LayoutOutcome::Laid(Some(_)) => pending.remove(id),
        _ => pending,
    }
}

/// The entity's computed size, once `outcome` is known: the new size on
/// success, the previous one otherwise.
pub open spec fn size_after<S>(size: S, outcome: LayoutOutcome<S>) -> S {
    match outcome {
        LayoutOutcome::Laid(Some(s)) => s,
        _ => size,
    }
}

/// How the pass goes on once `outcome` is known.
pub open spec fn result_of<S>(outcome: LayoutOutcome<S>) -> Result<(), LayoutError> {
    match outcome {
        LayoutOutcome::FontNotFound => Ok(()),
        LayoutOutcome::FailedToAddGlyph => Err(LayoutError::FailedToAddGlyph),
        LayoutOutcome::Laid(None) => Err(LayoutError::MissingLayout),
        LayoutOutcome::Laid(Some(_)) => Ok(()),
    }
}

/// The layout scheduler's state across frames: the entities whose last
/// layout attempt failed for want of a font. Each entity is held at most once.
pub struct LayoutScheduler {
    retry: HashSet<u64>,
}

impl View for LayoutScheduler {
    type V = Set<u64>;

    closed spec fn view(&self) -> Set<u64> {
        self.retry@
    }
}

impl LayoutScheduler {
    /// A scheduler with no entity waiting.
    pub fn new() -> (r: LayoutScheduler)
        ensures
            r@ == Set::<u64>::empty(),
    {
        LayoutScheduler { retry: HashSet::new() }
    }

    /// Whether `id` waits for a font.
    pub fn is_pending(&self, id: u64) -> (r: bool)
        ensures
            r == self@.contains(id),
    {
        self.retry.contains(&id)
    }

    /// Whether the layout of `id` must be recomputed this frame.
    pub fn needs_layout(&self, id: u64, text_changed: bool, factor_changed: bool) -> (r: bool)
        ensures
            r == needs_layout_spec(self@, id, text_changed, factor_changed),
    {
        factor_changed || text_changed || self.is_pending(id)
    }

    /// Takes in the shaping engine's answer for `id`: a missing font puts the
    /// entity in the retry set and keeps its size; a success takes it out and
    /// stores the new size; the two failures leave both as they were and are
    /// returned.
    pub fn record_outcome<S>(&mut self, id: u64, size: &mut S, outcome: LayoutOutcome<S>) -> (r: Result<(), LayoutError>)
        ensures
            final(self)@ == pending_after(old(self)@, id, outcome),
            *final(size) == size_after(*old(size), outcome),
            r == result_of(outcome),
    {
        match outcome {
            LayoutOutcome::FontNotFound => {
                self.retry.insert(id);
                Ok(())
            },
            LayoutOutcome::FailedToAddGlyph => Err(LayoutError::FailedToAddGlyph),
            LayoutOutcome::Laid(None) => Err(LayoutError::MissingLayout),
            LayoutOutcome::Laid(Some(s)) => {
                self.retry.remove(&id);
                *size = s;
                Ok(())
            },
        }
    }
}

} // verus!
