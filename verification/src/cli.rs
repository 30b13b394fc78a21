//! What the command line asks for, once it has been read.

use crate::date_helpers::{days_before, now_date_naive_eastern, Date};
use vstd::prelude::*;

verus! {

/// Where the days to look at start: on a given day, or a number of days
/// ago. At least one of the two is given.
#[derive(Debug, Clone, Copy, PartialEq, Eq)]
pub struct StartArgs {
    pub start_date: Option<Date>,
    pub start_days_ago: Option<u16>,
}

/// The first day that `args` ask for when today is `today`: the day given,
/// or else the day that lies the given number of days before `today`.
/// `None` if and only if that day is needed and is out of the calendar's
/// range.
pub open spec fn start_date_of(args: StartArgs, today: Date) -> Option<(int, int, int)> {
    match args.start_date {
        Some(date) => Some(date@),
        None => days_before(today@.0, today@.1, today@.2, args.start_days_ago.unwrap() as int),
    }
}

/// The first day that `args` ask for when today is `today`.
pub fn start_date_on(args: StartArgs, today: Date) -> (start: Option<Date>)
    requires
        args.start_date.is_some() || args.start_days_ago.is_some(),
    ensures
        match start {
            Some(date) => start_date_of(args, today) == Some(date@),
            None => start_date_of(args, today).is_none(),
        },
        args.start_date.is_some() ==> start == args.start_date,
{
    match args.start_date {
        Some(date) => Some(date),
        None => match args.start_days_ago {
            Some(days_ago) => today.checked_sub_days(days_ago as u64),
            None => None,
        },
    }
}

/// The first day that `args` ask for, counting back from today's date in US
/// Eastern time where a number of days ago is asked for.
pub fn start_date_from_args(args: StartArgs) -> (start: Option<Date>)
    requires
        args.start_date.is_some() || args.start_days_ago.is_some(),
    ensures
        args.start_date.is_some() ==> start == args.start_date,
        args.start_date.is_none() && start.is_some() ==> exists|today: Date|
            #[trigger] start_date_of(args, today) == Some(start.unwrap()@),
{
    let today = now_date_naive_eastern();
    start_date_on(args, today)
}

} // verus!
