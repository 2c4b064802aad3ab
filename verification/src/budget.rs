//! What happens when a session reaches its cost budget.
use vstd::prelude::*;

use crate::text::{ascii_lower_seq, ascii_lower_vec, chars_of, eq_str};

verus! {

/// The reaction to reaching the budget.
#[derive(Debug, Clone, Copy, PartialEq, Eq, Structural)]
pub enum BudgetMode {
    Warn,
    Block,
    RouteDown,
}

/// The mode a name selects, ignoring ASCII case: `warn`, `block` or `route_down`.
pub open spec fn budget_mode_named(s: Seq<char>) -> Option<BudgetMode> {
    let l = ascii_lower_seq(s);
    if l == "warn"@ {
        Some(BudgetMode::Warn)
    } else if l == "block"@ {
        Some(BudgetMode::Block)
    } else if l == "route_down"@ {
        Some(BudgetMode::RouteDown)
    } else {
        None
    }
}

impl BudgetMode {
    /// The mode named `s` (ASCII case ignored), or `None`.
    pub fn parse(s: &str) -> (r: Option<Self>)
        ensures
            r == budget_mode_named(s@),
    {
        let cs = chars_of(s);
        let l = ascii_lower_vec(&cs);
        if eq_str(&l, "warn") {
            Some(BudgetMode::Warn)
        } else if eq_str(&l, "block") {
            Some(BudgetMode::Block)
        } else if eq_str(&l, "route_down") {
            Some(BudgetMode::RouteDown)
        } else {
            None
        }
    }
}

impl std::str::FromStr for BudgetMode {
    type Err = ();

    /// The mode named `s` (ASCII case ignored); any other text is refused.
    fn from_str(s: &str) -> (r: Result<Self, ()>)
        ensures
            match budget_mode_named(s@) {
                Some(m) => r == Ok::<BudgetMode, ()>(m),
                None => r == Err::<BudgetMode, ()>(()),
            },
    {
        match BudgetMode::parse(s) {
            Some(m) => Ok(m),
            None => Err(()),
        }
    }
}

} // verus!
