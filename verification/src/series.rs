//! Uniformly sampled series and the choice of the rows that a lookup over
//! time reads.

use vstd::prelude::*;

verus! {

/// Where a query time lies relative to the sample times of a series.
#[derive(Clone, Copy, Debug, PartialEq, Eq)]
pub enum Position {
    /// Before the first sample time.
    Before,
    /// From sample time `0` on and before the last, in the interval that
    /// begins at the sample time of this index.
    Within(usize),
    /// At the last sample time or after it.
    After,
}

/// Sample rows on a uniform time grid, in the order of their times. A series
/// holds at least two rows: the one at the start time and the one at the
/// final time.
#[derive(Debug)]
pub struct Series<T> {
    rows: Vec<T>,
}

impl<T> Series<T> {
    /// The sample rows, in the order of their times.
    pub closed spec fn spec_rows(&self) -> Seq<T> {
        self.rows@
    }

    /// A series holds at least two rows.
    pub open spec fn valid(&self) -> bool {
        self.spec_rows().len() >= 2
    }

    #[verifier::type_invariant]
    spec fn well_formed(&self) -> bool {
        self.valid()
    }

    /// Whether interval `interval` lies between two rows of the series.
    pub open spec fn has_interval(&self, interval: int) -> bool {
        0 <= interval < self.spec_rows().len() - 1
    }

    /// The series of the rows `rows`; `None` exactly when there are fewer
    /// than two.
    pub fn new(rows: Vec<T>) -> (made: Option<Self>)
        ensures
            made is Some <==> rows.len() >= 2,
            made matches Some(series) ==> series.valid() && series.spec_rows() == rows@,
    {
        if rows.len() >= 2 {
            Some(Series { rows })
        } else {
            None
        }
    }

    /// Number of sample rows.
    pub fn len(&self) -> (count: usize)
        ensures
            count == self.spec_rows().len(),
            self.valid(),
    {
        proof {
            use_type_invariant(self);
        }
        self.rows.len()
    }

}

impl<T: Copy> Series<T> {
    /// The row at the first sample time.
    pub fn first(&self) -> (row: T)
        ensures
            row == self.spec_rows().first(),
            self.valid(),
    {
        proof {
            use_type_invariant(self);
        }
        self.rows[0]
    }

    /// The row at the last sample time.
    pub fn last(&self) -> (row: T)
        ensures
            row == self.spec_rows().last(),
            self.valid(),
    {
        proof {
            use_type_invariant(self);
        }
        self.rows[self.rows.len() - 1]
    }

    /// The value of the series at a query time that lies at `position`: the
    /// first row unchanged before the first sample time, the last row
    /// unchanged from the last sample time on, and in between what `blend`
    /// makes of the two rows around the query time. `None` exactly when
    /// `position` names an interval that the series does not have.
    pub fn value_at<Blend: Fn(T, T) -> T>(&self, position: Position, blend: Blend) -> (value:
        Option<T>)
        requires
            forall|interval: int|
                self.has_interval(interval) ==> call_requires(
                    blend,
                    (#[trigger] self.spec_rows()[interval], self.spec_rows()[interval + 1]),
                ),
        ensures
            self.valid(),
            position is Before ==> value == Some(self.spec_rows().first()),
            position is After ==> value == Some(self.spec_rows().last()),
            position matches Position::Within(interval) ==> {
                &&& value is Some <==> self.has_interval(interval as int)
                &&& value matches Some(blended) ==> call_ensures(
                    blend,
                    (self.spec_rows()[interval as int], self.spec_rows()[interval + 1]),
                    blended,
                )
            },
    {
        proof {
            use_type_invariant(self);
        }
        match position {
            Position::Before => Some(self.rows[0]),
            Position::After => Some(self.rows[self.rows.len() - 1]),
            Position::Within(interval) => {
                if interval < self.rows.len() - 1 {
                    Some(blend(self.rows[interval], self.rows[interval + 1]))
                } else {
                    None
                }
            },
        }
    }
}

} // verus!
