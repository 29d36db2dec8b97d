//! An optional value whose absence is itself part of the wire format.

use vstd::prelude::*;

verus! {

/// Either nothing or one value, as a closed two-state protocol: one
/// discriminant byte, 0 for `Absent` and 1 for `Present`, then the value if
/// there is one.
#[derive(Clone, Copy, Debug, PartialEq, Eq)]
pub enum COption<T> {
    /// No value.
    Absent,
    /// One value.
    Present(T),
}

impl<T: View> View for COption<T> {
    type V = COption<T::V>;

    open spec fn view(&self) -> COption<T::V> {
        match *self {
            COption::Absent => COption::Absent,
            COption::Present(t) => COption::Present(t@),
        }
    }
}

} // verus!
