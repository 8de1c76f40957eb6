//! The hierarchy of bodies, and the composition of their world transforms
//! along it.
use vstd::prelude::*;

verus! {

/// Why a request to the scene was turned down.
#[derive(Clone, Copy, Debug, PartialEq, Eq, Structural)]
pub enum SceneError {
    /// The named parent is not a registered body.
    InvalidParent,
    /// Following parents from the body would never reach a root.
    CycleDetected,
    /// The named body is not registered.
    UnknownBody,
}

/// One body: what the caller says of it, and the body it orbits, if any.
/// Bodies are named by the order of their registration, starting at zero.
pub struct Body<P> {
    pub parameters: P,
    pub parent: Option<usize>,
}

/// `parent` names no body, or one of the registered bodies.
pub open spec fn parent_is_registered<P>(bodies: Seq<Body<P>>, parent: Option<usize>) -> bool {
    match parent {
        Some(p) => p < bodies.len(),
        None => true,
    }
}

/// Every body's parent was registered before the body itself.
pub open spec fn rooted<P>(bodies: Seq<Body<P>>) -> bool {
    forall|id: int|
        0 <= id < bodies.len() ==> match (#[trigger] bodies[id]).parent {
            Some(p) => p < id,
            None => true,
        }
}

/// The body at which the chain of parents that starts at body `id` ends.
pub open spec fn root_of<P>(bodies: Seq<Body<P>>, id: int) -> int
    decreases id,
{
    if 0 <= id < bodies.len() {
        match bodies[id].parent {
            Some(p) => if p < id {
                root_of(bodies, p as int)
            } else {
                id
            },
            None => id,
        }
    } else {
        id
    }
}

/// Body `id` got the world transform that `local` gives for its parameters
/// and the world transform that `worlds` holds for its parent.
pub open spec fn composed<P, T, F: Fn(&P, Option<&T>) -> T>(
    bodies: Seq<Body<P>>,
    local: F,
    worlds: Seq<T>,
    id: int,
) -> bool {
    match bodies[id].parent {
        Some(p) => call_ensures(
            local,
            (&bodies[id].parameters, Some(&worlds[p as int])),
            worlds[id],
        ),
        None => call_ensures(local, (&bodies[id].parameters, None::<&T>), worlds[id]),
    }
}

/// `worlds` holds, for each body, a world transform that `local` gives for
/// the body's parameters and the world transform that `worlds` holds for its
/// parent.
pub open spec fn is_update_of<P, T, F: Fn(&P, Option<&T>) -> T>(
    bodies: Seq<Body<P>>,
    local: F,
    worlds: Seq<T>,
) -> bool {
    &&& worlds.len() == bodies.len()
    &&& forall|id: int| 0 <= id < bodies.len() ==> #[trigger] composed(bodies, local, worlds, id)
}

/// `local` gives one transform only for given parameters and a given parent
/// transform.
pub open spec fn is_deterministic<P, T, F: Fn(&P, Option<&T>) -> T>(local: F) -> bool {
    forall|parameters: &P, parent: Option<&T>, first: T, second: T|
        #![trigger call_ensures(local, (parameters, parent), first), call_ensures(local, (parameters, parent), second)]
        call_ensures(local, (parameters, parent), first) && call_ensures(
            local,
            (parameters, parent),
            second,
        ) ==> first == second
}

/// No chain of parents loops: from every body it ends at a root, which was
/// registered no later than the body.
pub proof fn lemma_chain_ends_at_root<P>(bodies: Seq<Body<P>>, id: int)
    requires
        rooted(bodies),
        0 <= id < bodies.len(),
    ensures
        0 <= root_of(bodies, id) <= id,
        bodies[root_of(bodies, id)].parent is None,
    decreases id,
{
    match bodies[id].parent {
        Some(p) => {
            lemma_chain_ends_at_root(bodies, p as int);
        },
        None => {},
    }
}

/// The world transforms depend on the hierarchy, the parameters and `local`
/// alone: two updates of one scene with one deterministic `local` agree, so
/// nothing of an earlier update lives on in a later one.
pub proof fn lemma_update_is_determined<P, T, F: Fn(&P, Option<&T>) -> T>(
    bodies: Seq<Body<P>>,
    local: F,
    first: Seq<T>,
    second: Seq<T>,
)
    requires
        rooted(bodies),
        is_deterministic(local),
        is_update_of(bodies, local, first),
        is_update_of(bodies, local, second),
    ensures
        first == second,
{
    assert forall|id: int| 0 <= id < bodies.len() implies first[id] == second[id] by {
        lemma_updates_agree(bodies, local, first, second, id);
    }
    assert(first =~= second);
}

/// Two updates with one deterministic `local` agree on body `id`.
proof fn lemma_updates_agree<P, T, F: Fn(&P, Option<&T>) -> T>(
    bodies: Seq<Body<P>>,
    local: F,
    first: Seq<T>,
    second: Seq<T>,
    id: int,
)
    requires
        rooted(bodies),
        is_deterministic(local),
        is_update_of(bodies, local, first),
        is_update_of(bodies, local, second),
        0 <= id < bodies.len(),
    ensures
        first[id] == second[id],
    decreases id,
{
    match bodies[id].parent {
        Some(p) => {
            lemma_updates_agree(bodies, local, first, second, p as int);
        },
        None => {},
    }
    assert(composed(bodies, local, first, id));
    assert(composed(bodies, local, second, id));
}

/// A set of bodies in which every body is either a root or orbits a body
/// registered before it.
pub struct Solar<P> {
    bodies: Vec<Body<P>>,
}

impl<P> View for Solar<P> {
    type V = Seq<Body<P>>;

    /// The bodies in the order of their registration.
    closed spec fn view(&self) -> Seq<Body<P>> {
        self.bodies@
    }
}

impl<P> Solar<P> {
    #[verifier::type_invariant]
    pub closed spec fn wf(&self) -> bool {
        rooted(self.bodies@)
    }

    /// A scene without bodies.
    pub fn new() -> (solar: Solar<P>)
        ensures
            solar@ == Seq::<Body<P>>::empty(),
    {
        Solar { bodies: Vec::new() }
    }

    /// Registers a body that orbits `parent`, or a root where `parent` is
    /// `None`, and returns its name. A parent that is not registered is
    /// refused with `InvalidParent`: the scene stays as it was and the
    /// parameters are dropped. A parent always precedes its child, so no
    /// chain of parents can loop and `CycleDetected` is never the answer.
    pub fn add_body(&mut self, parameters: P, parent: Option<usize>) -> (r: Result<
        usize,
        SceneError,
    >)
        ensures
            rooted(final(self)@),
            parent_is_registered(old(self)@, parent) ==> r == Ok::<usize, SceneError>(
                old(self)@.len() as usize,
            ) && final(self)@ == old(self)@.push(Body { parameters, parent }),
            !parent_is_registered(old(self)@, parent) ==> r == Err::<usize, SceneError>(
                SceneError::InvalidParent,
            ) && final(self)@ == old(self)@,
    {
        proof {
            use_type_invariant(&*self);
        }
        let id = self.bodies.len();
        if let Some(p) = parent {
            if p >= id {
                return Err(SceneError::InvalidParent);
            }
        }
        let mut grown = Solar::new();
        std::mem::swap(self, &mut grown);
        let Solar { mut bodies } = grown;
        bodies.push(Body { parameters, parent });
        *self = Solar { bodies };
        Ok(id)
    }

    /// The number of registered bodies.
    pub fn len(&self) -> (n: usize)
        ensures
            n == self@.len(),
    {
        self.bodies.len()
    }

    /// Body `id`, or `UnknownBody` where no body has that name.
    pub fn body(&self, id: usize) -> (r: Result<&Body<P>, SceneError>)
        ensures
            rooted(self@),
            id < self@.len() ==> r == Ok::<&Body<P>, SceneError>(&self@[id as int]),
            id >= self@.len() ==> r == Err::<&Body<P>, SceneError>(SceneError::UnknownBody),
    {
        proof {
            use_type_invariant(&*self);
        }
        if id < self.bodies.len() {
            Ok(&self.bodies[id])
        } else {
            Err(SceneError::UnknownBody)
        }
    }

    /// Composes the world transform of every body: `local` is handed the
    /// body's parameters and the world transform that this same update gave
    /// its parent, or `None` for a root. A parent is therefore always done
    /// before its children.
    pub fn update<T, F: Fn(&P, Option<&T>) -> T>(&self, local: F) -> (worlds: Worlds<T>)
        requires
            forall|id: int, parent: Option<&T>|
                0 <= id < self@.len() ==> #[trigger] call_requires(
                    local,
                    (&self@[id].parameters, parent),
                ),
        ensures
            rooted(self@),
            is_update_of(self@, local, worlds@),
    {
        proof {
            use_type_invariant(&*self);
            assert forall|b: int, parent: Option<&T>|
                0 <= b < self.bodies@.len() implies #[trigger] call_requires(
                local,
                (&self.bodies@[b].parameters, parent),
            ) by {
                assert(call_requires(local, (&self@[b].parameters, parent)));
            }
        }
        let mut transforms: Vec<T> = Vec::new();
        let mut id: usize = 0;
        while id < self.bodies.len()
            invariant
                rooted(self.bodies@),
                id <= self.bodies@.len(),
                transforms@.len() == id,
                forall|b: int, parent: Option<&T>|
                    0 <= b < self.bodies@.len() ==> #[trigger] call_requires(
                        local,
                        (&self.bodies@[b].parameters, parent),
                    ),
                forall|b: int|
                    0 <= b < id ==> #[trigger] composed(self.bodies@, local, transforms@, b),
            decreases self.bodies@.len() - id,
        {
            let body = &self.bodies[id];
            let ghost done = transforms@;
            let world = match body.parent {
                Some(p) => local(&body.parameters, Some(&transforms[p])),
                None => local(&body.parameters, None),
            };
            transforms.push(world);
            proof {
                assert forall|b: int| 0 <= b <= id implies #[trigger] composed(
                    self.bodies@,
                    local,
                    transforms@,
                    b,
                ) by {
                    if b < id {
                        assert(composed(self.bodies@, local, done, b));
                    }
                }
            }
            id += 1;
        }
        Worlds { transforms }
    }
}

/// The world transforms that one update gave, by body. Before any update
/// there are none.
pub struct Worlds<T> {
    transforms: Vec<T>,
}

impl<T> View for Worlds<T> {
    type V = Seq<T>;

    closed spec fn view(&self) -> Seq<T> {
        self.transforms@
    }
}

impl<T> Worlds<T> {
    /// What there is before any update: no world transform at all.
    pub fn new() -> (worlds: Worlds<T>)
        ensures
            worlds@ == Seq::<T>::empty(),
    {
        Worlds { transforms: Vec::new() }
    }

    /// The number of bodies that the update composed.
    pub fn len(&self) -> (n: usize)
        ensures
            n == self@.len(),
    {
        self.transforms.len()
    }

    /// The world transform of body `id`, or `UnknownBody` where the update
    /// knew no body of that name.
    pub fn world_transform(&self, id: usize) -> (r: Result<&T, SceneError>)
        ensures
            id < self@.len() ==> r == Ok::<&T, SceneError>(&self@[id as int]),
            id >= self@.len() ==> r == Err::<&T, SceneError>(SceneError::UnknownBody),
    {
        if id < self.transforms.len() {
            Ok(&self.transforms[id])
        } else {
            Err(SceneError::UnknownBody)
        }
    }
}

} // verus!
