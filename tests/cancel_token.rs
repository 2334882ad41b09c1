use judger::cancel_tree::CancelForest;

#[test]
fn cancel_token_should_not_be_triggered() {
    let mut forest = CancelForest::new();
    let handle = forest.new_root();
    // Nobody cancels: the awaited work completes.
    let res = if forest.is_cancelled(handle) { None } else { Some(()) };
    assert_eq!(res, Some(()))
}

#[test]
fn cancel_token_being_triggered() {
    let mut forest = CancelForest::new();
    let handle = forest.new_root();
    forest.cancel(handle);
    let res = if forest.is_cancelled(handle) { None } else { Some(()) };
    assert_eq!(res, None)
}

#[test]
fn multiple_cancel_token_being_triggered() {
    let mut forest = CancelForest::new();
    let handle = forest.new_root();
    let other = forest.new_root();
    forest.cancel(handle);
    // Two waiters on the same handle both see the cancel.
    let first = if forest.is_cancelled(handle) { None } else { Some(()) };
    let second = if forest.is_cancelled(handle) { None } else { Some(()) };
    assert_eq!((first, second), (None, None));
    assert!(!forest.is_cancelled(other));
}

#[test]
fn child_token_being_triggered() {
    let mut forest = CancelForest::new();
    let handle = forest.new_root();
    let child = forest.create_child(handle);
    let grandchild = forest.create_child(child);
    forest.cancel(handle);
    let res = if forest.is_cancelled(child) { None } else { Some(()) };
    assert_eq!(res, None);
    assert!(forest.is_cancelled(grandchild));
}

#[test]
fn child_of_cancelled_token_starts_cancelled() {
    let mut forest = CancelForest::new();
    let root = forest.new_root();
    forest.cancel(root);
    let child = forest.create_child(root);
    assert!(forest.is_cancelled(child));
}

#[test]
fn cancelling_child_leaves_parent_and_sibling() {
    let mut forest = CancelForest::new();
    let root = forest.new_root();
    let a = forest.create_child(root);
    let b = forest.create_child(root);
    let a1 = forest.create_child(a);
    forest.cancel(a);
    assert!(forest.is_cancelled(a));
    assert!(forest.is_cancelled(a1));
    assert!(!forest.is_cancelled(root));
    assert!(!forest.is_cancelled(b));
    // Cancelling again changes nothing.
    forest.cancel(a);
    assert!(!forest.is_cancelled(b));
    assert_eq!(forest.len(), 4);
}
