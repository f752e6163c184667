//! Collection of a record stream: every record that converts is kept, in arrival
//! order; every record that does not is dropped.
use vstd::prelude::*;

verus! {

/// A domain type that can be built from wire records of type `W`.
pub trait FromWire<W>: Sized + View {
    /// The view of the record that `w` converts to, or nothing when it is rejected.
    spec fn from_wire_spec(w: W) -> Option<Self::V>;

    fn from_wire(w: W) -> (r: Option<Self>)
        ensures
            match r {
                Some(x) => Self::from_wire_spec(w) == Some(x@),
                None => Self::from_wire_spec(w) is None,
            },
    ;
}

/// What one record adds to a collection.
pub open spec fn converted<W, T: FromWire<W>>(w: W) -> Seq<T::V> {
    match T::from_wire_spec(w) {
        Some(v) => seq![v],
        None => Seq::empty(),
    }
}

/// The views of what collecting `ws` gives.
pub open spec fn collected<W, T: FromWire<W>>(ws: Seq<W>) -> Seq<T::V>
    decreases ws.len(),
{
    if ws.len() == 0 {
        Seq::empty()
    } else {
        collected::<W, T>(ws.drop_last()) + converted::<W, T>(ws.last())
    }
}

pub open spec fn views<T: View>(xs: Seq<T>) -> Seq<T::V> {
    xs.map_values(|x: T| x@)
}

/// Records converted so far from one stream.
pub struct Collector<T> {
    resolved: Vec<T>,
}

impl<T: View> Collector<T> {
    pub closed spec fn items(&self) -> Seq<T::V> {
        views(self.resolved@)
    }

    pub fn new() -> (r: Self)
        ensures
            r.items() == Seq::<T::V>::empty(),
    {
        let r = Collector { resolved: Vec::new() };
        assert(r.items() =~= Seq::<T::V>::empty());
        r
    }

    /// Takes the next record of the stream.
    pub fn accept<W>(&mut self, w: W)
        where T: FromWire<W>,
        ensures
            final(self).items() == old(self).items() + converted::<W, T>(w),
    {
        match T::from_wire(w) {
            Some(x) => {
                self.resolved.push(x);
            },
            None => {},
        }
        assert(self.items() =~= old(self).items() + converted::<W, T>(w));
    }

    /// Ends the stream and hands over what was kept.
    pub fn finish(self) -> (r: Vec<T>)
        ensures
            views(r@) == self.items(),
    {
        self.resolved
    }
}

/// Converts a whole sequence of records, keeping what converts, in order.
pub fn collect<W, T: FromWire<W>>(records: Vec<W>) -> (r: Vec<T>)
    ensures
        views(r@) == collected::<W, T>(records@),
{
    let ghost all = records@;
    let mut rest = records;
    let mut c: Collector<T> = Collector::new();
    let ghost mut k: int = 0;
    while rest.len() > 0
        invariant
            0 <= k <= all.len(),
            rest@ == all.subrange(k, all.len() as int),
            c.items() == collected::<W, T>(all.take(k)),
        decreases rest.len(),
    {
        let w = rest.remove(0);
        c.accept(w);
        proof {
            assert(all.take(k + 1).drop_last() =~= all.take(k));
            assert(all.take(k + 1).last() == all[k]);
            k = k + 1;
            assert(rest@ =~= all.subrange(k, all.len() as int));
        }
    }
    assert(all.take(k) =~= all);
    c.finish()
}

} // verus!
