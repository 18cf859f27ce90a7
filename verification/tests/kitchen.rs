use blog_workflow::kitchen::{chop, cook, peel, process, Chopped, Cooked, Food, Peeled};

#[test]
fn test_peel_some_and_none() {
    assert_eq!(peel(Some(Food::Apple)), Some(Peeled(Food::Apple)));
    assert_eq!(peel(None), None);
}

#[test]
fn test_chop_some_and_none() {
    assert_eq!(chop(Some(Peeled(Food::Carrot))), Some(Chopped(Food::Carrot)));
    assert_eq!(chop(None), None);
}

#[test]
fn test_cook_some_and_none() {
    assert_eq!(cook(Some(Chopped(Food::Potato))), Some(Cooked(Food::Potato)));
    assert_eq!(cook(None), None);
}

#[test]
fn test_process_pipeline() {
    assert_eq!(process(Some(Food::Apple)), Some(Cooked(Food::Apple)));
    assert_eq!(process(Some(Food::Potato)), Some(Cooked(Food::Potato)));
    assert_eq!(process(None), None);
}

#[test]
fn test_stage_by_stage_matches_process() {
    let staged = cook(chop(peel(Some(Food::Carrot))));
    assert_eq!(staged, process(Some(Food::Carrot)));
}
