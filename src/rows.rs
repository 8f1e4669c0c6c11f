//! Rows as a backend hands them back: named cells of a few plain shapes.
use vstd::prelude::*;

use crate::sql::text_eq;

verus! {

#[derive(Clone, Debug)]
pub enum RawValue {
    Null,
    UInt(u64),
    Int(i64),
    Text(String),
}

/// What a cell holds, with text as a sequence of characters.
pub enum CellView {
    Null,
    UInt(u64),
    Int(i64),
    Text(Seq<char>),
}

impl View for RawValue {
    type V = CellView;

    open spec fn view(&self) -> CellView {
        match self {
            RawValue::Null => CellView::Null,
            RawValue::UInt(n) => CellView::UInt(*n),
            RawValue::Int(n) => CellView::Int(*n),
            RawValue::Text(s) => CellView::Text(s@),
        }
    }
}

/// One returned row: its cells with their column names, in the order the
/// backend gave them.
#[derive(Clone, Debug)]
pub struct RawRow {
    pub columns: Vec<(String, RawValue)>,
}

impl View for RawRow {
    type V = Seq<(Seq<char>, CellView)>;

    open spec fn view(&self) -> Seq<(Seq<char>, CellView)> {
        self.columns@.map_values(|c: (String, RawValue)| (c.0@, c.1@))
    }
}

/// The cell named `name`; where a name repeats, the last one counts.
pub open spec fn lookup(cells: Seq<(Seq<char>, CellView)>, name: Seq<char>) -> Option<CellView>
    decreases cells.len(),
{
    if cells.len() == 0 {
        None
    } else if cells.last().0 == name {
        Some(cells.last().1)
    } else {
        lookup(cells.drop_last(), name)
    }
}

impl RawRow {
    pub fn get(&self, name: &str) -> (r: Option<&RawValue>)
        ensures
            match r {
                Some(v) => lookup(self@, name@) == Some(v@),
                None => lookup(self@, name@) is None,
            },
    {
        let mut found: Option<usize> = None;
        let mut i: usize = 0;
        while i < self.columns.len()
            invariant
                i <= self.columns@.len(),
                match found {
                    Some(k) => k < i && lookup(self@.take(i as int), name@) == Some(
                        self.columns@[k as int].1@,
                    ),
                    None => lookup(self@.take(i as int), name@) is None,
                },
            decreases self.columns.len() - i,
        {
            assert(self@.take(i + 1).drop_last() =~= self@.take(i as int));
            if text_eq(self.columns[i].0.as_str(), name) {
                found = Some(i);
            }
            i += 1;
        }
        assert(self@.take(self.columns@.len() as int) =~= self@);
        match found {
            Some(k) => Some(&self.columns[k].1),
            None => None,
        }
    }
}

} // verus!
