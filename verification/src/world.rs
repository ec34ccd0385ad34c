use vstd::prelude::*;

verus! {

/// The cubes placed in the world, in the order in which they were placed; the
/// renderer draws them in this order. A cube's own data (its translation and
/// rotation) is whatever `C` the caller stores.
pub struct World<C> {
    cubes: Vec<C>,
}

impl<C> View for World<C> {
    type V = Seq<C>;

    open spec fn view(&self) -> Seq<C> {
        self.spec_cubes()
    }
}

impl<C> World<C> {
    /// The cubes, in placement order.
    pub closed spec fn spec_cubes(&self) -> Seq<C> {
        self.cubes@
    }

    /// A world without cubes.
    pub fn new() -> (world: Self)
        ensures
            world@ == Seq::<C>::empty(),
    {
        World { cubes: Vec::new() }
    }

    /// A world holding exactly the given cubes, in the given order.
    pub fn from_cubes(cubes: Vec<C>) -> (world: Self)
        ensures
            world@ == cubes@,
    {
        World { cubes }
    }

    /// Places a new cube: it is added after all cubes already in the world,
    /// which stay as and where they were.
    pub fn spawn_cube(&mut self, cube: C)
        ensures
            final(self)@ == old(self)@.push(cube),
    {
        self.cubes.push(cube);
    }

    /// The cubes, in placement order.
    pub fn cubes(&self) -> (cubes: &Vec<C>)
        ensures
            cubes@ == self@,
    {
        &self.cubes
    }

    /// The number of cubes.
    pub fn len(&self) -> (n: usize)
        ensures
            n == self@.len(),
    {
        self.cubes.len()
    }
}

} // verus!
