use vstd::prelude::*;

verus! {

/// A single-slot cache for a rendered chart, emptied by `invalidate` and
/// filled on the next draw.
pub struct ChartCache<T> {
    slot: Option<T>,
}

/// The slot after an invalidation: empty, whatever it held.
pub open spec fn cleared<T>(slot: Option<T>) -> Option<T> {
    None
}

/// The slot after a draw that would render `image`: kept if filled, else
/// filled with `image`.
pub open spec fn filled<T>(slot: Option<T>, image: T) -> Option<T> {
    match slot {
        Some(v) => Some(v),
        None => Some(image),
    }
}

impl<T> View for ChartCache<T> {
    type V = Option<T>;

    closed spec fn view(&self) -> Option<T> {
        self.slot
    }
}

impl<T> ChartCache<T> {
    pub fn new() -> (r: ChartCache<T>)
        ensures
            r@ is None,
    {
        ChartCache { slot: None }
    }

    /// Drops the cached image, if any.
    pub fn invalidate(&mut self)
        ensures
            final(self)@ == cleared(old(self)@),
    {
        self.slot = None;
    }

    pub fn is_cached(&self) -> (r: bool)
        ensures
            r == self@ is Some,
    {
        self.slot.is_some()
    }

    /// Stores `image` unless an image is already cached.
    pub fn fill(&mut self, image: T)
        ensures
            final(self)@ == filled(old(self)@, image),
    {
        if self.slot.is_none() {
            self.slot = Some(image);
        }
    }

    /// The cached image, if any.
    pub fn get(&self) -> (r: Option<&T>)
        ensures
            r == match self@ {
                Some(v) => Some(&v),
                None => None::<&T>,
            },
    {
        match &self.slot {
            Some(v) => Some(v),
            None => None,
        }
    }
}

/// Invalidating twice and then drawing leaves the same image as
/// invalidating once and then drawing.
pub proof fn lemma_invalidate_idempotent<T>(slot: Option<T>, image: T)
    ensures
        cleared(cleared(slot)) == cleared(slot),
        filled(cleared(cleared(slot)), image) == filled(cleared(slot), image),
        filled(cleared(slot), image) == Some(image),
{
}

} // verus!
