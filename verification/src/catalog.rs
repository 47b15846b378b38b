//! A list of names and the random pick from it.

use crate::errors::EmptySelectionError;
use crate::titles::texts;
use vstd::prelude::*;
use vstd::string::*;

verus! {

/// `rand::rngs::ThreadRng`, the handle of a thread's random number generator.
/// Nothing inside it is seen here.
#[verifier::external_type_specification]
#[verifier::external_body]
pub struct ExThreadRng(rand::rngs::ThreadRng);

/// `rand::thread_rng`: the random number generator of the calling thread.
/// Nothing is claimed of it.
pub assume_specification[ rand::thread_rng ]() -> (rng: rand::rngs::ThreadRng)
;

/// `rand::Rng::gen_range` on the range from 0 up to and not including
/// `length`. The range must not be empty, or the call panics. Claimed: the
/// number drawn lies in the range. Which one it is depends on chance.
#[verifier::external_body]
fn index_below(rng: &mut rand::rngs::ThreadRng, length: usize) -> (index: usize)
    requires
        length > 0,
    ensures
        index < length,
{
    rand::Rng::gen_range(rng, 0..length)
}

/// A list of names to pick from, in the order in which they were given.
#[derive(Debug, Clone)]
pub struct RandomizeList(pub Vec<String>);

impl View for RandomizeList {
    type V = Seq<Seq<char>>;

    open spec fn view(&self) -> Seq<Seq<char>> {
        texts(self.0@)
    }
}

impl Default for RandomizeList {
    /// The empty list.
    fn default() -> (list: RandomizeList)
        ensures
            list@ == Seq::<Seq<char>>::empty(),
    {
        let list = RandomizeList(Vec::new());
        assert(list@ =~= Seq::<Seq<char>>::empty());
        list
    }
}

/// What a pick from `names` may give: an error on an empty list and on no
/// other, else one of the names.
pub open spec fn is_pick(names: Seq<Seq<char>>, r: Result<String, EmptySelectionError>) -> bool {
    match r {
        Ok(name) => exists|i: int| 0 <= i < names.len() && names[i] == name@,
        Err(_) => names.len() == 0,
    }
}

impl RandomizeList {
    /// The number of names.
    pub fn len(&self) -> (n: usize)
        ensures
            n == self@.len(),
    {
        self.0.len()
    }

    /// The name at `index`.
    pub fn entry(&self, index: usize) -> (name: String)
        requires
            index < self@.len(),
        ensures
            name@ == self@[index as int],
    {
        self.0[index].clone()
    }

    /// The pick that the drawn number `index` stands for: the name at that
    /// place, or the error where the list is empty.
    pub fn pick(&self, index: usize) -> (r: Result<String, EmptySelectionError>)
        requires
            self@.len() > 0 ==> index < self@.len(),
        ensures
            match r {
                Ok(name) => index < self@.len() && name@ == self@[index as int],
                Err(_) => self@.len() == 0,
            },
            is_pick(self@, r),
    {
        if self.0.len() == 0 {
            return Err(EmptySelectionError);
        }
        Ok(self.entry(index))
    }

    /// Picks one of the names at random, each draw independent of the others.
    /// Fails on an empty list, and only there.
    pub fn random(&self) -> (r: Result<String, EmptySelectionError>)
        ensures
            is_pick(self@, r),
            r is Err <==> self@.len() == 0,
    {
        let length: usize = self.0.len();
        if length == 0 {
            return Err(EmptySelectionError);
        }
        let mut rng = rand::thread_rng();
        let index: usize = index_below(&mut rng, length);
        self.pick(index)
    }
}

} // verus!
