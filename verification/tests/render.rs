use cardquery::expr::Comparison;
use cardquery::expr::Expr;
use cardquery::expr::Parity;
use cardquery::expr::Predicate;
use cardquery::expr::QueryError;
use cardquery::expr::Rarity;

fn sample_tree() -> Expr {
    Expr::And(vec![
        Expr::Or(vec![
            Expr::Pred(Predicate::Power(Comparison::Ge, 9)),
            Expr::Pred(Predicate::Toughness(Comparison::Ge, 9)),
        ]),
        Expr::Raw("t:eldrazi".to_string()),
        Expr::Pred(Predicate::SetCode("bfz".to_string())),
        Expr::Pred(Predicate::Rarity(Rarity::Mythic)),
        Expr::Pred(Predicate::CmcParity(Parity::Odd)),
    ])
}

#[test]
fn sample_tree_renders_whole_query() {
    assert_eq!(
        sample_tree().render(),
        "(power>=9 OR toughness>=9) t:eldrazi s:bfz r:mythic cmc%2=1"
    );
}

#[test]
fn render_is_deterministic() {
    let tree = sample_tree();
    let first = tree.render();
    let second = tree.render();
    assert_eq!(first, second);
}

#[test]
fn raw_renders_verbatim() {
    assert_eq!(Expr::Raw(String::new()).render(), "");
    assert_eq!(Expr::Raw("t:eldrazi".to_string()).render(), "t:eldrazi");
    assert_eq!(
        Expr::Raw("(a OR b) \"quoted % text\"".to_string()).render(),
        "(a OR b) \"quoted % text\""
    );
}

#[test]
fn and_joins_children_with_spaces() {
    let tree = Expr::And(vec![
        Expr::Raw("a".to_string()),
        Expr::Raw("b".to_string()),
        Expr::Raw("c".to_string()),
    ]);
    assert_eq!(tree.render(), "a b c");
}

#[test]
fn and_flattening_preserves_rendering() {
    let nested = Expr::And(vec![
        Expr::Raw("a".to_string()),
        Expr::And(vec![Expr::Raw("b".to_string()), Expr::Raw("c".to_string())]),
        Expr::Raw("d".to_string()),
    ]);
    let flat = Expr::And(vec![
        Expr::Raw("a".to_string()),
        Expr::Raw("b".to_string()),
        Expr::Raw("c".to_string()),
        Expr::Raw("d".to_string()),
    ]);
    assert_eq!(nested.render(), flat.render());
    assert_eq!(nested.render(), "a b c d");
}

#[test]
fn empty_combinators_render_as_empty_fragment() {
    assert_eq!(Expr::And(vec![]).render(), "");
    assert_eq!(Expr::Or(vec![]).render(), "");
}

#[test]
fn or_of_two_children_is_parenthesized() {
    let tree = Expr::Or(vec![Expr::Raw("a".to_string()), Expr::Raw("b".to_string())]);
    assert_eq!(tree.render(), "(a OR b)");
}

#[test]
fn or_of_one_child_adds_no_parentheses() {
    let tree = Expr::Or(vec![Expr::Raw("a".to_string())]);
    assert_eq!(tree.render(), "a");
}

#[test]
fn nested_or_keeps_grouping_inside_and() {
    let tree = Expr::And(vec![
        Expr::Or(vec![Expr::Raw("a".to_string()), Expr::Raw("b".to_string())]),
        Expr::Raw("c".to_string()),
    ]);
    assert_eq!(tree.render(), "(a OR b) c");
}

#[test]
fn comparison_operators_render_their_tokens() {
    assert_eq!(Expr::Pred(Predicate::Power(Comparison::Eq, 5)).render(), "power=5");
    assert_eq!(Expr::Pred(Predicate::Power(Comparison::Lt, 5)).render(), "power<5");
    assert_eq!(Expr::Pred(Predicate::Power(Comparison::Le, 5)).render(), "power<=5");
    assert_eq!(Expr::Pred(Predicate::Power(Comparison::Gt, 5)).render(), "power>5");
    assert_eq!(Expr::Pred(Predicate::Toughness(Comparison::Ge, 5)).render(), "toughness>=5");
}

#[test]
fn numbers_render_in_decimal_without_leading_zeros() {
    assert_eq!(Expr::Pred(Predicate::Power(Comparison::Eq, 0)).render(), "power=0");
    assert_eq!(Expr::Pred(Predicate::Power(Comparison::Eq, 10)).render(), "power=10");
    assert_eq!(Expr::Pred(Predicate::Power(Comparison::Eq, 12034)).render(), "power=12034");
}

#[test]
fn rarity_and_parity_render_their_tokens() {
    assert_eq!(Expr::Pred(Predicate::Rarity(Rarity::Common)).render(), "r:common");
    assert_eq!(Expr::Pred(Predicate::Rarity(Rarity::Uncommon)).render(), "r:uncommon");
    assert_eq!(Expr::Pred(Predicate::Rarity(Rarity::Rare)).render(), "r:rare");
    assert_eq!(Expr::Pred(Predicate::Rarity(Rarity::Mythic)).render(), "r:mythic");
    assert_eq!(Expr::Pred(Predicate::CmcParity(Parity::Odd)).render(), "cmc%2=1");
    assert_eq!(Expr::Pred(Predicate::CmcParity(Parity::Even)).render(), "cmc%2=0");
}

#[test]
fn valid_rarity_tokens_construct_predicates() {
    for token in ["common", "uncommon", "rare", "mythic"] {
        let built = Predicate::rarity_from_token(token).unwrap();
        assert_eq!(built.render(), format!("r:{}", token));
    }
}

#[test]
fn unknown_rarity_token_is_invalid_predicate() {
    assert!(matches!(
        Predicate::rarity_from_token("legendary"),
        Err(QueryError::InvalidPredicate)
    ));
    assert!(matches!(
        Predicate::rarity_from_token(""),
        Err(QueryError::InvalidPredicate)
    ));
    assert!(matches!(
        Predicate::rarity_from_token("Mythic"),
        Err(QueryError::InvalidPredicate)
    ));
}
