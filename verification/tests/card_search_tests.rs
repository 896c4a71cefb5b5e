use bubblehearth::hearthstone::card_search::CardSearchQueryBuilder;

#[test]
fn returns_ok_when_validly_built() {
    // Arrange
    let builder = CardSearchQueryBuilder::new();

    // Act
    let query = builder.with_set("set").with_class("slug").build();
    let query_ok = query.is_ok();
    let query = query.unwrap();

    // Assert
    assert!(query_ok);
    assert_eq!(query.set, Some("set"));
    assert_eq!(query.class, Some("slug"));
}

#[test]
fn returns_ok_when_built_with_lists() {
    // Arrange
    let expected = vec![100, 200];
    let builder = CardSearchQueryBuilder::new();

    // Act
    let query = builder.with_mana_cost(expected.clone()).build();
    let query_ok = query.is_ok();
    let query = query.unwrap();

    // Assert
    assert!(query_ok);
    assert_eq!(query.mana_costs, Some(expected));
}

#[test]
fn returns_ok_when_built_with_lists_and_appended() {
    // Arrange
    let expected = vec![100, 200, 300];
    let builder = CardSearchQueryBuilder::new();

    // Act
    let query = builder
        .with_mana_cost(vec![100, 200])
        .with_mana_cost(vec![300])
        .build();

    let query_ok = query.is_ok();
    let query = query.unwrap();

    // Assert
    assert!(query_ok);
    assert_eq!(query.mana_costs, Some(expected));
}

#[test]
fn returns_ok_when_built_with_unsorted_lists_and_appended() {
    // Arrange
    let expected = vec![50, 100, 150, 200];
    let builder = CardSearchQueryBuilder::new();

    // Act
    let query = builder
        .with_mana_cost(vec![200, 50])
        .with_mana_cost(vec![150, 100])
        .build();

    let query_ok = query.is_ok();
    let query = query.unwrap();

    // Assert
    assert!(query_ok);
    assert_eq!(query.mana_costs, Some(expected));
}
