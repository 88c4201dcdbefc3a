//! The summary of a month: how often each key, game and item went out and
//! how many parcels came in.

use vstd::prelude::*;

verus! {

/// A month of a year.
#[derive(Debug, Clone, Copy, PartialEq, Eq, Structural)]
pub struct Month {
    pub year: i32,
    /// From 1 for January to 12 for December.
    pub month: u32,
}

impl Month {
    /// The month is one of the twelve.
    pub open spec fn wf(self) -> bool {
        1 <= self.month <= 12
    }

    /// The months since the start of year zero.
    pub open spec fn index(self) -> int {
        self.year * 12 + (self.month - 1)
    }

    /// The month before this one.
    pub fn previous(self) -> (r: Month)
        requires
            self.wf(),
            self.month == 1 ==> self.year > i32::MIN,
        ensures
            r.wf(),
            r.index() == self.index() - 1,
    {
        if self.month == 1 {
            Month { year: self.year - 1, month: 12 }
        } else {
            Month { year: self.year, month: self.month - 1 }
        }
    }

    /// The month after this one.
    pub fn next(self) -> (r: Month)
        requires
            self.wf(),
            self.month == 12 ==> self.year < i32::MAX,
        ensures
            r.wf(),
            r.index() == self.index() + 1,
    {
        if self.month == 12 {
            Month { year: self.year + 1, month: 1 }
        } else {
            Month { year: self.year, month: self.month + 1 }
        }
    }

    /// Whether this month lies before `other`.
    pub fn is_before(self, other: Month) -> (r: bool)
        requires
            self.wf(),
            other.wf(),
        ensures
            r == (self.index() < other.index()),
    {
        self.year < other.year || (self.year == other.year && self.month < other.month)
    }
}

/// How often one thing went out in a month.
#[derive(Debug, Clone, PartialEq, Eq)]
pub struct Tally {
    pub name: String,
    pub count: i64,
}

/// The sum of the counts of the first `n` tallies.
pub open spec fn sum_of(tallies: Seq<Tally>, n: int) -> int
    decreases n,
{
    if n <= 0 {
        0
    } else {
        sum_of(tallies, n - 1) + tallies[n - 1].count
    }
}

/// The sum of the counts of a list of tallies.
pub fn total(tallies: &Vec<Tally>) -> (sum: i128)
    ensures
        sum == sum_of(tallies@, tallies.len() as int),
{
    let mut sum: i128 = 0;
    let mut k: usize = 0;
    while k < tallies.len()
        invariant
            k <= tallies.len(),
            sum == sum_of(tallies@, k as int),
            -(k as int) * 0x8000_0000_0000_0000 <= sum <= (k as int) * 0x8000_0000_0000_0000,
        decreases tallies.len() - k,
    {
        assert((k as int) * 0x8000_0000_0000_0000 <= 0xffff_ffff_ffff_ffff * 0x8000_0000_0000_0000)
            by (nonlinear_arith)
            requires
                0 <= k as int <= 0xffff_ffff_ffff_ffff,
        ;
        sum = sum + tallies[k].count as i128;
        k += 1;
        assert((k as int) * 0x8000_0000_0000_0000 == (k - 1) * 0x8000_0000_0000_0000
            + 0x8000_0000_0000_0000) by (nonlinear_arith);
    }
    sum
}

/// The window that shows the summary of one month.
#[derive(Debug, Clone, PartialEq, Eq)]
pub struct SummaryModal {
    /// The month that is shown.
    pub month_start: Month,
    pub key_summary: Vec<Tally>,
    pub parcel_count: i64,
    pub game_summary: Vec<Tally>,
    pub item_summary: Vec<Tally>,
    /// Whether the numbers are to be read again.
    pub refresh: bool,
}

impl SummaryModal {
    /// The summary of the month before `today`'s, not read yet.
    pub fn new(today: Month) -> (modal: SummaryModal)
        requires
            today.wf(),
            today.month == 1 ==> today.year > i32::MIN,
        ensures
            modal.month_start.wf(),
            modal.month_start.index() == today.index() - 1,
            modal.key_summary@.len() == 0,
            modal.game_summary@.len() == 0,
            modal.item_summary@.len() == 0,
            modal.parcel_count == 0,
            modal.refresh,
    {
        SummaryModal {
            month_start: today.previous(),
            key_summary: Vec::new(),
            parcel_count: 0,
            game_summary: Vec::new(),
            item_summary: Vec::new(),
            refresh: true,
        }
    }

    /// The user pressed `<`: the month before is shown, and its numbers are
    /// to be read.
    pub fn press_previous(&mut self)
        requires
            old(self).month_start.wf(),
            old(self).month_start.month == 1 ==> old(self).month_start.year > i32::MIN,
        ensures
            final(self).month_start.wf(),
            final(self).month_start.index() == old(self).month_start.index() - 1,
            final(self).refresh,
            final(self).key_summary == old(self).key_summary,
            final(self).game_summary == old(self).game_summary,
            final(self).item_summary == old(self).item_summary,
            final(self).parcel_count == old(self).parcel_count,
    {
        self.month_start = self.month_start.previous();
        self.refresh = true;
    }

    /// Whether `>` can be pressed: while the month shown lies before the
    /// current one.
    pub fn can_go_next(&self, current: Month) -> (r: bool)
        requires
            self.month_start.wf(),
            current.wf(),
        ensures
            r == (self.month_start.index() < current.index()),
    {
        self.month_start.is_before(current)
    }

    /// The user pressed `>`: the month after is shown, and its numbers are
    /// to be read; nothing happens where the button cannot be pressed.
    pub fn press_next(&mut self, current: Month)
        requires
            old(self).month_start.wf(),
            current.wf(),
        ensures
            final(self).month_start.wf(),
            final(self).month_start.index() == (if old(self).month_start.index() < current.index() {
                old(self).month_start.index() + 1
            } else {
                old(self).month_start.index()
            }),
            final(self).refresh == (old(self).refresh || old(self).month_start.index()
                < current.index()),
            final(self).key_summary == old(self).key_summary,
            final(self).game_summary == old(self).game_summary,
            final(self).item_summary == old(self).item_summary,
            final(self).parcel_count == old(self).parcel_count,
    {
        if self.month_start.is_before(current) {
            self.month_start = self.month_start.next();
            self.refresh = true;
        }
    }

    /// Tells whether the numbers are to be read, and takes note that they
    /// will be. Returns the month to read them for, if they are.
    pub fn take_refresh(&mut self) -> (month: Option<Month>)
        ensures
            month == (if old(self).refresh {
                Some(old(self).month_start)
            } else {
                None
            }),
            !final(self).refresh,
            final(self).month_start == old(self).month_start,
            final(self).key_summary == old(self).key_summary,
            final(self).game_summary == old(self).game_summary,
            final(self).item_summary == old(self).item_summary,
            final(self).parcel_count == old(self).parcel_count,
    {
        if self.refresh {
            self.refresh = false;
            Some(self.month_start)
        } else {
            None
        }
    }
}

} // verus!
