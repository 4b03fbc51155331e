use vstd::prelude::*;

verus! {

/// Contains a `Vec<T>` of length ≤ `N`.
#[derive(Debug)]
pub struct MaxLen<const N: usize, T>(Vec<T>);

/// [`MaxLen`] with `N` = [`i32::MAX`] (common max length in pxtone).
pub type MaxLenI32<T> = MaxLen<2147483647, T>;

impl<const N: usize, T> View for MaxLen<N, T> {
    type V = Seq<T>;

    closed spec fn view(&self) -> Seq<T> {
        self.0@
    }
}

impl<const N: usize, T> MaxLen<N, T> {
    /// Max item count. Vectors with greater length than this are rejected.
    pub fn max() -> (r: usize)
        ensures
            r == N,
    {
        N
    }

    /// Attempts to create a wrapper around a vector of length ≤ `N`.
    pub fn new(items: Vec<T>) -> (r: Option<Self>)
        ensures
            r is Some <==> items@.len() <= N,
            r is Some ==> r->Some_0@ == items@,
    {
        if items.len() <= N {
            Some(Self(items))
        } else {
            None
        }
    }

    /// The wrapped items.
    pub fn as_slice(&self) -> (r: &[T])
        ensures
            r@ == self@,
            r@.len() <= N,
    {
        proof {
            use_type_invariant(self);
        }
        self.0.as_slice()
    }

    /// Unwraps the items.
    pub fn into_vec(self) -> (r: Vec<T>)
        ensures
            r@ == self@,
            r@.len() <= N,
    {
        proof {
            use_type_invariant(&self);
        }
        self.0
    }

    #[verifier::type_invariant]
    spec fn within_bound(&self) -> bool {
        self.0@.len() <= N
    }
}

impl<const N: usize, T> Default for MaxLen<N, T> {
    fn default() -> (r: Self)
        ensures
            r@.len() == 0,
    {
        Self(Vec::new())
    }
}

} // verus!
