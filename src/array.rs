use vstd::prelude::*;

verus! {

/// Turns a collection into a fixed-size array, for destructuring results whose
/// length the caller knows (`let [a, b] = parts.to_array();`).
pub trait ToArray: Sized {
    type Item;

    /// The elements, in order.
    spec fn items(&self) -> Seq<Self::Item>;

    /// The elements as an array; the caller knows there are exactly `N`.
    fn to_array<const N: usize>(self) -> (r: [Self::Item; N])
        requires
            self.items().len() == N,
        ensures
            r@ == self.items(),
    ;
}

/// Relies on `<[T; N] as TryFrom<Vec<T>>>::try_from`: it hands back the
/// vector's elements, in order, as an array exactly when the length is `N`.
#[verifier::external_body]
fn vec_into_array<T, const N: usize>(v: Vec<T>) -> (r: [T; N])
    requires
        v@.len() == N,
    ensures
        r@ == v@,
{
    <[T; N]>::try_from(v).ok().expect("a vector of length N")
}

impl<T> ToArray for Vec<T> {
    type Item = T;

    open spec fn items(&self) -> Seq<T> {
        self@
    }

    fn to_array<const N: usize>(self) -> (r: [T; N]) {
        vec_into_array(self)
    }
}

} // verus!
