use gallery_core::db::join::{JoinBuilder, Joinable};

#[derive(Debug, Clone, PartialEq)]
struct Item {
    id: u64,
}

#[derive(Debug, Clone, PartialEq)]
struct Tag {
    item: u64,
    label: &'static str,
}

impl Joinable<Tag> for Item {
    type Key = u64;
    fn join_key(&self) -> Self::Key {
        self.id
    }
    fn reference_key(t: &Tag) -> Self::Key {
        t.item
    }
    fn join_on(&self) -> &Self::Key {
        &self.id
    }
    fn reference(t: &Tag) -> &Self::Key {
        &t.item
    }
}

fn tags() -> Vec<Tag> {
    vec![
        Tag { item: 2, label: "first" },
        Tag { item: 1, label: "one" },
        Tag { item: 2, label: "second" },
    ]
}

#[test]
fn one_to_one_join_keeps_left_order_and_last_match() {
    let items = vec![Item { id: 1 }, Item { id: 2 }, Item { id: 3 }];
    let joined = JoinBuilder::new(items).with(tags(), |i| i).build();
    assert_eq!(joined.len(), 2);
    assert_eq!(joined[0], (Item { id: 1 }, Tag { item: 1, label: "one" }));
    assert_eq!(joined[1], (Item { id: 2 }, Tag { item: 2, label: "second" }));
}

#[test]
fn one_to_many_join_groups_in_table_order() {
    let items = vec![Item { id: 3 }, Item { id: 2 }, Item { id: 1 }];
    let joined = JoinBuilder::new(items).with_group(tags(), |i| i).build();
    assert_eq!(joined.len(), 2);
    assert_eq!(joined[0].0, Item { id: 2 });
    assert_eq!(
        joined[0].1,
        vec![Tag { item: 2, label: "first" }, Tag { item: 2, label: "second" }]
    );
    assert_eq!(joined[1].1, vec![Tag { item: 1, label: "one" }]);
}

#[test]
fn empty_right_side_joins_nothing() {
    let items = vec![Item { id: 1 }];
    assert!(JoinBuilder::new(items.clone()).with(Vec::<Tag>::new(), |i| i).build().is_empty());
    assert!(JoinBuilder::new(items).with_group(Vec::<Tag>::new(), |i| i).build().is_empty());
}

#[test]
fn build_as_maps_every_row() {
    let items = vec![Item { id: 4 }, Item { id: 9 }];
    let ids = JoinBuilder::new(items).build_as(|i| i.id * 10);
    assert_eq!(ids, vec![40, 90]);
}
