use gallery_core::db::common::result as common;
use gallery_core::db::types::result::{DeleteResult, InsertResult, UpdateResult};
use sqlx::sqlite::SqliteQueryResult;

#[test]
fn no_changes_reports_the_changed_variant() {
    assert!(!InsertResult::NoChanges.no_changes());
    assert!(InsertResult::Inserted.no_changes());
    assert!(!UpdateResult::NoChanges.no_changes());
    assert!(UpdateResult::Updated(3).no_changes());
    assert!(!DeleteResult::NoChanges.no_changes());
    assert!(DeleteResult::Deleted(1).no_changes());

    assert!(!common::InsertResult::NoChanges.no_changes());
    assert!(common::InsertResult::Inserted.no_changes());
    assert!(!common::UpdateResult::NoChanges.no_changes());
    assert!(common::UpdateResult::Updated(7).no_changes());
    assert!(!common::DeleteResult::NoChanges.no_changes());
    assert!(common::DeleteResult::Deleted(2).no_changes());
}

#[test]
fn rows_affected_decide_the_result() {
    assert!(matches!(InsertResult::from_rows_affected(0), InsertResult::NoChanges));
    assert!(matches!(InsertResult::from_rows_affected(5), InsertResult::Inserted));
    assert!(matches!(UpdateResult::from_rows_affected(0), UpdateResult::NoChanges));
    assert!(matches!(UpdateResult::from_rows_affected(4), UpdateResult::Updated(4)));
    assert!(matches!(DeleteResult::from_rows_affected(0), DeleteResult::NoChanges));
    assert!(matches!(DeleteResult::from_rows_affected(9), DeleteResult::Deleted(9)));
}

#[test]
fn query_result_without_changes_converts_to_no_changes() {
    let insert: InsertResult = SqliteQueryResult::default().into();
    let update: UpdateResult = SqliteQueryResult::default().into();
    let delete: DeleteResult = SqliteQueryResult::default().into();
    assert!(matches!(insert, InsertResult::NoChanges));
    assert!(matches!(update, UpdateResult::NoChanges));
    assert!(matches!(delete, DeleteResult::NoChanges));
    assert!(!insert.no_changes());
    assert!(!update.no_changes());
    assert!(!delete.no_changes());
}
