use acrawl_runtime::budget::BudgetMode;

#[test]
fn budget_modes_parse_ignoring_ascii_case() {
    assert_eq!(BudgetMode::parse("warn"), Some(BudgetMode::Warn));
    assert_eq!(BudgetMode::parse("BLOCK"), Some(BudgetMode::Block));
    assert_eq!(BudgetMode::parse("Route_Down"), Some(BudgetMode::RouteDown));
    assert_eq!(BudgetMode::parse("route-down"), None);
    assert_eq!("Warn".parse::<BudgetMode>(), Ok(BudgetMode::Warn));
    assert_eq!("stop".parse::<BudgetMode>(), Err(()));
}
