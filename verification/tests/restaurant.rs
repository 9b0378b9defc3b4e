use listings::eat_at_restaurant;

#[test]
fn eat_at_restaurant_returns() {
    eat_at_restaurant();
}

#[test]
fn eat_at_restaurant_is_reachable_by_its_module_path() {
    listings::restaurant::eat_at_restaurant();
}
