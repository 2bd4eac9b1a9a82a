//! Components and the actor that owns them.
use vstd::prelude::*;

verus! {

/// The x coordinate of a transform after one frame: one to the right,
/// wrapping from the largest `i16` to the smallest.
pub open spec fn next_coordinate(x: i16) -> i16 {
    if x == i16::MAX {
        i16::MIN
    } else {
        (x + 1) as i16
    }
}

/// One per-object behaviour. The set of variants is closed: an actor
/// dispatches on the variant, in the order in which its components were
/// declared.
#[derive(Clone, Copy, Debug, PartialEq, Eq, Structural)]
pub enum Component {
    /// A position in pixels, moved one step along x each frame.
    Transform { x: i16, y: i16 },
    /// Motion parameters, held as the bit patterns of IEEE-754 single
    /// precision numbers. Its update does nothing yet.
    Physics { acceleration_bits: u32, max_velocity_bits: u32 },
}

impl Component {
    /// The component after one frame.
    pub open spec fn stepped(self) -> Component {
        match self {
            Component::Transform { x, y } => Component::Transform { x: next_coordinate(x), y },
            Component::Physics { .. } => self,
        }
    }

    /// The component after `n` frames.
    pub open spec fn stepped_n(self, n: nat) -> Component
        decreases n,
    {
        if n == 0 {
            self
        } else {
            self.stepped_n((n - 1) as nat).stepped()
        }
    }

    /// Advances the component by one frame. A transform moves one step along
    /// x; physics is left as it is.
    pub fn update(&mut self)
        ensures
            *final(self) == old(self).stepped(),
    {
        match self {
            Component::Transform { x, .. } => {
                if *x == i16::MAX {
                    *x = i16::MIN;
                } else {
                    *x = *x + 1;
                }
            },
            Component::Physics { .. } => {},
        }
    }
}

/// Every component of `cs` advanced by one frame, order kept.
pub open spec fn advance_all(cs: Seq<Component>) -> Seq<Component> {
    cs.map_values(|c: Component| c.stepped())
}

/// Every component of `cs` advanced by `n` frames.
pub open spec fn advance_all_n(cs: Seq<Component>, n: nat) -> Seq<Component>
    decreases n,
{
    if n == 0 {
        cs
    } else {
        advance_all(advance_all_n(cs, (n - 1) as nat))
    }
}

/// An identified game object that exclusively owns an ordered list of
/// components.
#[derive(Debug)]
pub struct Actor {
    pub id: i32,
    pub components: Vec<Component>,
}

impl Actor {
    /// Advances the actor by one frame: updates each component once, in
    /// declared order.
    pub fn update(&mut self)
        ensures
            final(self).id == old(self).id,
            final(self).components@ == advance_all(old(self).components@),
    {
        let n = self.components.len();
        let mut i: usize = 0;
        while i < n
            invariant
                n == self.components.len(),
                n == old(self).components.len(),
                i <= n,
                self.id == old(self).id,
                forall|j: int| 0 <= j < i ==> self.components@[j] == old(self).components@[j].stepped(),
                forall|j: int| i <= j < n ==> self.components@[j] == old(self).components@[j],
            decreases n - i,
        {
            let mut c = self.components[i];
            c.update();
            self.components.set(i, c);
            i = i + 1;
        }
        assert(self.components@ =~= advance_all(old(self).components@));
    }
}

/// After `n` frames each component has been advanced `n` times on its own:
/// a component's position in the list is kept, and its state depends on no
/// other component.
pub proof fn lemma_advance_all_n_pointwise(cs: Seq<Component>, n: nat)
    ensures
        advance_all_n(cs, n).len() == cs.len(),
        forall|j: int| 0 <= j < cs.len() ==> advance_all_n(cs, n)[j] == cs[j].stepped_n(n),
    decreases n,
{
    if n > 0 {
        lemma_advance_all_n_pointwise(cs, (n - 1) as nat);
    }
}

/// A transform that does not reach the largest `i16` moves `n` steps along x
/// in `n` frames, and keeps its y.
pub proof fn lemma_transform_after_n(x: i16, y: i16, n: nat)
    requires
        x + n <= i16::MAX,
    ensures
        (Component::Transform { x, y }).stepped_n(n) == (Component::Transform { x: (x + n) as i16, y }),
    decreases n,
{
    if n > 0 {
        lemma_transform_after_n(x, y, (n - 1) as nat);
    }
}

/// Physics is unchanged by any number of frames.
pub proof fn lemma_physics_after_n(acceleration_bits: u32, max_velocity_bits: u32, n: nat)
    ensures
        (Component::Physics { acceleration_bits, max_velocity_bits }).stepped_n(n)
            == (Component::Physics { acceleration_bits, max_velocity_bits }),
    decreases n,
{
    if n > 0 {
        lemma_physics_after_n(acceleration_bits, max_velocity_bits, (n - 1) as nat);
    }
}

/// For an actor declared with a transform followed by physics, `n` frames
/// leave the transform at `x + n` with the same y, and the physics fields
/// unchanged, both in their declared places.
pub proof fn lemma_transform_then_physics(
    x: i16,
    y: i16,
    acceleration_bits: u32,
    max_velocity_bits: u32,
    n: nat,
)
    requires
        x + n <= i16::MAX,
    ensures
        advance_all_n(
            seq![
                Component::Transform { x, y },
                Component::Physics { acceleration_bits, max_velocity_bits },
            ],
            n,
        ) == seq![
            Component::Transform { x: (x + n) as i16, y },
            Component::Physics { acceleration_bits, max_velocity_bits },
        ],
{
    let cs = seq![
        Component::Transform { x, y },
        Component::Physics { acceleration_bits, max_velocity_bits },
    ];
    lemma_advance_all_n_pointwise(cs, n);
    lemma_transform_after_n(x, y, n);
    lemma_physics_after_n(acceleration_bits, max_velocity_bits, n);
    assert(advance_all_n(cs, n) =~= seq![
        Component::Transform { x: (x + n) as i16, y },
        Component::Physics { acceleration_bits, max_velocity_bits },
    ]);
}

} // verus!
