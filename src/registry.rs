//! The content registry: definitions that addons register, keyed by a
//! globally unique id and kept in insertion order.
use vstd::prelude::*;

verus! {

/// A piece of game content that an addon can register.
#[derive(Clone, Debug)]
pub enum ContentDefinition {
    Addon { id: String, description: String },
    Entity { id: String, icon: char },
    Melee { id: String },
    Decoration { id: String, icon: char, description: String },
}

/// Why a registration was refused.
#[derive(PartialEq, Eq, Structural, Clone, Copy, Debug)]
pub enum RegistryError {
    /// The definition is malformed: its id is empty.
    InvalidDefinition,
    /// A definition with the same id is already registered.
    Duplicate,
}

/// The id of a definition.
pub open spec fn def_id(d: ContentDefinition) -> Seq<char> {
    match d {
        ContentDefinition::Addon { id, .. } => id@,
        ContentDefinition::Entity { id, .. } => id@,
        ContentDefinition::Melee { id } => id@,
        ContentDefinition::Decoration { id, .. } => id@,
    }
}

/// Whether some definition in `defs` has the id `id`.
pub open spec fn has_id(defs: Seq<ContentDefinition>, id: Seq<char>) -> bool {
    exists|k: int| 0 <= k < defs.len() && #[trigger] def_id(defs[k]) == id
}

/// No two definitions share an id.
pub open spec fn ids_unique(defs: Seq<ContentDefinition>) -> bool {
    forall|i: int, j: int|
        0 <= i < defs.len() && 0 <= j < defs.len() && i != j ==> def_id(#[trigger] defs[i]) != def_id(
            #[trigger] defs[j],
        )
}

/// The answer to registering `d` on top of `defs`.
pub open spec fn register_outcome(defs: Seq<ContentDefinition>, d: ContentDefinition) -> Result<
    (),
    RegistryError,
> {
    if def_id(d).len() == 0 {
        Err(RegistryError::InvalidDefinition)
    } else if has_id(defs, def_id(d)) {
        Err(RegistryError::Duplicate)
    } else {
        Ok(())
    }
}

/// The definitions after registering `d`: appended if accepted, unchanged
/// otherwise.
pub open spec fn registered(defs: Seq<ContentDefinition>, d: ContentDefinition) -> Seq<
    ContentDefinition,
> {
    if register_outcome(defs, d) is Ok {
        defs.push(d)
    } else {
        defs
    }
}

/// The definition with id `id`, if any.
pub open spec fn lookup_spec(defs: Seq<ContentDefinition>, id: Seq<char>) -> Option<
    ContentDefinition,
> {
    if has_id(defs, id) {
        Some(defs[choose|k: int| 0 <= k < defs.len() && #[trigger] def_id(defs[k]) == id])
    } else {
        None
    }
}

/// Once a definition is registered, a second one with the same id is
/// refused as a duplicate, the registry stays as it was, and looking the id
/// up still gives the first definition.
pub proof fn lemma_duplicate_keeps_first(
    defs: Seq<ContentDefinition>,
    first: ContentDefinition,
    second: ContentDefinition,
)
    requires
        ids_unique(defs),
        register_outcome(defs, first) is Ok,
        def_id(second) == def_id(first),
    ensures
        register_outcome(registered(defs, first), second) == Err::<(), RegistryError>(
            RegistryError::Duplicate,
        ),
        registered(registered(defs, first), second) == registered(defs, first),
        lookup_spec(registered(defs, first), def_id(first)) == Some(first),
{
    let s1 = registered(defs, first);
    let last = defs.len() as int;
    assert(def_id(s1[last]) == def_id(first));
    assert(has_id(s1, def_id(second)));
    let c = choose|c: int| 0 <= c < s1.len() && #[trigger] def_id(s1[c]) == def_id(first);
    if c < last {
        assert(def_id(defs[c]) == def_id(first));
        assert(has_id(defs, def_id(first)));
    }
}

impl ContentDefinition {
    /// The definition's id.
    pub fn id(&self) -> (r: &String)
        ensures
            r@ == def_id(*self),
    {
        match self {
            ContentDefinition::Addon { id, .. } => id,
            ContentDefinition::Entity { id, .. } => id,
            ContentDefinition::Melee { id } => id,
            ContentDefinition::Decoration { id, .. } => id,
        }
    }
}

/// Every content definition registered so far.
pub struct ContentRegistry {
    defs: Vec<ContentDefinition>,
}

impl View for ContentRegistry {
    type V = Seq<ContentDefinition>;

    closed spec fn view(&self) -> Seq<ContentDefinition> {
        self.defs@
    }
}

impl ContentRegistry {
    /// The registry's invariant: ids are unique.
    pub open spec fn wf(&self) -> bool {
        ids_unique(self@)
    }

    /// An empty registry.
    pub fn new() -> (r: ContentRegistry)
        ensures
            r.wf(),
            r@ == Seq::<ContentDefinition>::empty(),
    {
        ContentRegistry { defs: Vec::new() }
    }

    /// Position of the definition with id `id`, if any.
    fn position_of(&self, id: &String) -> (r: Option<usize>)
        requires
            self.wf(),
        ensures
            match r {
                Some(k) => k < self@.len() && def_id(self@[k as int]) == id@,
                None => !has_id(self@, id@),
            },
    {
        let mut k: usize = 0;
        while k < self.defs.len()
            invariant
                k <= self.defs@.len(),
                forall|j: int| 0 <= j < k ==> def_id(#[trigger] self.defs@[j]) != id@,
            decreases self.defs@.len() - k,
        {
            if self.defs[k].id().eq(id) {
                return Some(k);
            }
            k += 1;
        }
        None
    }

    /// Registers `d`. An empty id is refused as malformed, an id that is
    /// already present as a duplicate; in either case the registry is left
    /// as it was. Otherwise `d` is appended.
    pub fn register(&mut self, d: ContentDefinition) -> (r: Result<(), RegistryError>)
        requires
            old(self).wf(),
        ensures
            final(self).wf(),
            r == register_outcome(old(self)@, d),
            final(self)@ == registered(old(self)@, d),
    {
        if d.id().as_str().is_empty() {
            return Err(RegistryError::InvalidDefinition);
        }
        match self.position_of(d.id()) {
            Some(_) => Err(RegistryError::Duplicate),
            None => {
                self.defs.push(d);
                Ok(())
            },
        }
    }

    /// The definition registered under `id`, if any.
    pub fn lookup(&self, id: &String) -> (r: Option<&ContentDefinition>)
        requires
            self.wf(),
        ensures
            match r {
                Some(d) => lookup_spec(self@, id@) == Some(*d),
                None => lookup_spec(self@, id@) is None,
            },
    {
        match self.position_of(id) {
            Some(k) => {
                proof {
                    let c = choose|c: int| 0 <= c < self@.len() && #[trigger] def_id(self@[c]) == id@;
                    assert(c == k as int);
                }
                Some(&self.defs[k])
            },
            None => None,
        }
    }

    /// Every definition, in the order it was registered.
    pub fn list(&self) -> (r: &Vec<ContentDefinition>)
        ensures
            r@ == self@,
    {
        &self.defs
    }
}

} // verus!
