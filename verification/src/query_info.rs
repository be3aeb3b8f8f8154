use vstd::prelude::*;

verus! {

/// What the client attaches as the JSON body of a query: an optional item
/// after which the listing continues. Only written, never read back.
pub struct QueryInfoRef<'a, T> {
    pub reference: Option<&'a T>,
}

/// The server's side of a query body: the optional reference item, owned.
pub struct QueryInfo<T> {
    pub reference: Option<T>,
}

impl<'a, T> QueryInfoRef<'a, T> {
    /// A body that names `reference` as the item to continue after.
    pub fn new(reference: &'a T) -> (q: QueryInfoRef<'a, T>)
        ensures
            q.reference == Some(reference),
    {
        QueryInfoRef { reference: Some(reference) }
    }
}

impl<'a, T> Default for QueryInfoRef<'a, T> {
    /// A body that names no reference.
    fn default() -> (q: QueryInfoRef<'a, T>)
        ensures
            q.reference is None,
    {
        QueryInfoRef { reference: None }
    }
}

impl<T: Clone> QueryInfo<T> {
    /// The owned body that a borrowed one stands for: the same reference, cloned.
    pub fn from_ref(value: QueryInfoRef<'_, T>) -> (q: QueryInfo<T>)
        ensures
            q.reference is Some <==> value.reference is Some,
            value.reference matches Some(r) ==> cloned(*r, q.reference->0),
    {
        match value.reference {
            Some(r) => QueryInfo { reference: Some(r.clone()) },
            None => QueryInfo { reference: None },
        }
    }
}

} // verus!
