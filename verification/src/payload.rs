use crate::value::{Value, ValueView};
use vstd::prelude::*;

verus! {

/// The data that the objects of a class carry, together with the host
/// functions that a class of such objects can be built from. A class names
/// its functions by values of `Method`; each operation below says what
/// the function so named does in the place it is used in.
pub trait Payload: Sized {
    /// Names one host function.
    type Method;

    /// The data that `method`, used as allocator, starts a new object with.
    spec fn allocated(method: Self::Method) -> Self;

    /// What `method`, used as getter, reads from the data.
    spec fn read(self, method: Self::Method) -> ValueView;

    /// Whether `method`, used as setter, takes a value of this shape.
    spec fn accepts(method: Self::Method, value: ValueView) -> bool;

    /// The data after `method`, used as setter, has stored `value`.
    spec fn written(self, method: Self::Method, value: ValueView) -> Self;

    /// Whether `method`, used as default setter, can make up for `value`.
    spec fn recovers(method: Self::Method, value: ValueView) -> bool;

    /// The data after `method`, used as default setter, has made up for
    /// `value`.
    spec fn recovered(self, method: Self::Method, value: ValueView) -> Self;

    /// The data after `method`, used as call handler, has seen the
    /// arguments that the object was made with.
    spec fn constructed(self, method: Self::Method, args: Seq<ValueView>) -> Self;

    /// Makes the data of a new object.
    fn allocate(method: &Self::Method) -> (data: Self)
        ensures
            data == Self::allocated(*method),
    ;

    /// Reads the data as the getter `method` does.
    fn get(&self, method: &Self::Method) -> (value: Value)
        ensures
            value@ == self.read(*method),
    ;

    /// Stores `value` if the setter takes it, and says whether it did.
    fn try_set(&mut self, method: &Self::Method, value: &Value) -> (stored: bool)
        ensures
            stored == Self::accepts(*method, value@),
            *final(self) == if stored {
                old(self).written(*method, value@)
            } else {
                *old(self)
            },
    ;

    /// Makes up for a value that the setter did not take, and says
    /// whether it could.
    fn fallback_set(&mut self, method: &Self::Method, value: &Value) -> (stored: bool)
        ensures
            stored == Self::recovers(*method, value@),
            *final(self) == if stored {
                old(self).recovered(*method, value@)
            } else {
                *old(self)
            },
    ;

    /// Lets the call handler `method` see the arguments that the object
    /// was made with.
    fn construct(&mut self, method: &Self::Method, args: &Vec<Value>)
        ensures
            *final(self) == old(self).constructed(*method, views(args@)),
    ;
}

/// What each value of `values` holds.
pub open spec fn views(values: Seq<Value>) -> Seq<ValueView> {
    Seq::new(values.len(), |i: int| values[i]@)
}

} // verus!
