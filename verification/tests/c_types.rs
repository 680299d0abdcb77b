use lorecore::c_api::auxil::CharPointer;
use lorecore::c_api::types::entity::{to_c_entity_column, to_entity_column};
use lorecore::c_api::types::history::{to_c_history_item, to_history_item};
use lorecore::c_api::types::relationship::{to_c_relationship, to_relationship};
use lorecore::c_api::types::{CEntityColumn, CEntityRelationship, CHistoryItem};
use lorecore::errors::LoreCoreError;
use lorecore::timestamp::{current_timestamp, TimestampSource};
use lorecore::types::{
    Day, Description, EntityColumn, EntityRelationship, HistoryItem, HistoryItemProperties, Role,
    Year,
};

fn pointer(text: &str) -> CharPointer {
    CharPointer {
        target: Some(text.as_bytes().to_vec()),
    }
}

fn null() -> CharPointer {
    CharPointer { target: None }
}

#[test]
fn types_entity_column_roundtrips() {
    let labels = vec!["testlabel", "_testlabel2"];
    let descriptors = vec!["testdescriptor", "_protected"];
    let descriptions = vec![
        None,
        Some("Test description".to_string()),
        Some("\\_\"'%$&!{[]}".to_string()),
    ];
    for label in labels {
        for descriptor in &descriptors {
            for description in &descriptions {
                let column_before = EntityColumn {
                    label: label.to_string().into(),
                    descriptor: descriptor.to_string().into(),
                    description: description.clone().into(),
                };
                let c_column = to_c_entity_column(&column_before).unwrap();
                let column_after = to_entity_column(&c_column).unwrap();
                assert_eq!(column_before, column_after);
            }
        }
    }
}

#[test]
fn entity_entity_column_roundtrips() {
    let labels = vec!["testlabel", "_testlabel2"];
    let descriptors = vec!["testdescriptor", "_protected"];
    let descriptions = vec![
        None,
        Some("Test description".to_string()),
        Some("\\_\"'%$&!{[]}".to_string()),
    ];
    for label in labels {
        for descriptor in &descriptors {
            for description in &descriptions {
                let column_before = EntityColumn {
                    label: label.into(),
                    descriptor: (*descriptor).into(),
                    description: description.clone().into(),
                };
                let c_column = to_c_entity_column(&column_before).unwrap();
                let column_after = to_entity_column(&c_column).unwrap();
                assert_eq!(column_before, column_after);
            }
        }
    }
}

#[test]
fn types_history_item_roundtrips() {
    let source = TimestampSource::new();
    let years = vec![-13, 2021];
    let days = vec![None, Some(14)];
    let contents = vec!["", "Test content", "\\_\"'%$&!{[]}"];
    let properties = vec![
        None,
        Some("{\"is_secret\":true}".to_string()),
        Some("{\"additional_concerns\":[\"\\entityref{some_label}\"]}".to_string()),
    ];
    for year in years {
        for day in &days {
            for content in &contents {
                for property in &properties {
                    let item_before = HistoryItem {
                        timestamp: current_timestamp(&source),
                        year: year.into(),
                        day: (*day).into(),
                        content: content.to_string().into(),
                        properties: property.clone().into(),
                    };
                    let c_item = to_c_history_item(&item_before).unwrap();
                    let item_after = to_history_item(&c_item).unwrap();
                    assert_eq!(item_before, item_after);
                }
            }
        }
    }
}

#[test]
fn history_history_item_roundtrips() {
    let source = TimestampSource::new();
    let years = vec![Year(-13), Year(2021)];
    let days = vec![Day(None), Day(Some(14))];
    let contents = vec!["", "Test content", "\\_\"'%$&!{[]}"];
    let properties = vec![
        None,
        Some("{\"is_secret\":true}".to_string()),
        Some("{\"additional_concerns\":[\"\\entityref{some_label}\"]}".to_string()),
    ];
    for year in years {
        for day in &days {
            for content in &contents {
                for property in &properties {
                    let item_before = HistoryItem {
                        timestamp: current_timestamp(&source),
                        year,
                        day: *day,
                        content: content.to_string().into(),
                        properties: property.clone().into(),
                    };
                    let c_item = to_c_history_item(&item_before).unwrap();
                    let item_after = to_history_item(&c_item).unwrap();
                    assert_eq!(item_before, item_after);
                }
            }
        }
    }
}

#[test]
fn types_relationship_roundtrips() {
    let parents = vec!["testparent", "_testparent2"];
    let children = vec!["testchild", "_testchild2"];
    let roles = vec![
        None,
        Some("Test role".to_string()),
        Some("\\_\"'%$&!{[]}".to_string()),
    ];
    for parent in &parents {
        for child in &children {
            for role in &roles {
                let rel_before = EntityRelationship {
                    parent: parent.to_string().into(),
                    child: child.to_string().into(),
                    role: role.clone().into(),
                };
                let c_rel = to_c_relationship(&rel_before).unwrap();
                let rel_after = to_relationship(&c_rel).unwrap();
                assert_eq!(rel_before, rel_after);
            }
        }
    }
}

#[test]
fn relationship_relationship_roundtrips() {
    let parents = vec!["testparent", "_testparent2"];
    let children = vec!["testchild", "_testchild2"];
    let roles = vec![
        None,
        Some("Test role".to_string()),
        Some("\\_\"'%$&!{[]}".to_string()),
    ];
    for parent in &parents {
        for child in &children {
            for role in &roles {
                let rel_before = EntityRelationship {
                    parent: (*parent).into(),
                    child: (*child).into(),
                    role: role.clone().into(),
                };
                let c_rel = to_c_relationship(&rel_before).unwrap();
                let rel_after = to_relationship(&c_rel).unwrap();
                assert_eq!(rel_before, rel_after);
            }
        }
    }
}

#[test]
fn protected_attribute_without_description_round_trips() {
    let column = EntityColumn {
        label: "_testlabel2".into(),
        descriptor: "_protected".into(),
        description: Description::none(),
    };
    let flat = to_c_entity_column(&column).unwrap();
    assert_eq!(
        flat,
        CEntityColumn {
            label: pointer("_testlabel2"),
            descriptor: pointer("_protected"),
            description: pointer(""),
        }
    );
    assert_eq!(to_entity_column(&flat).unwrap(), column);
    assert_eq!(CEntityColumn::try_from(column.clone()).unwrap(), flat);
    assert_eq!(EntityColumn::try_from(&flat).unwrap(), column);
}

#[test]
fn flat_history_item_holds_no_day_as_zero() {
    let item = HistoryItem {
        timestamp: 17.into(),
        year: (-13).into(),
        day: Day::none(),
        content: "".into(),
        properties: HistoryItemProperties::none(),
    };
    let flat = to_c_history_item(&item).unwrap();
    assert_eq!(
        flat,
        CHistoryItem {
            timestamp: 17,
            year: -13,
            day: 0,
            content: pointer(""),
            properties: pointer(""),
        }
    );
    assert_eq!(to_history_item(&flat).unwrap(), item);
    let with_day = HistoryItem {
        day: 366.into(),
        ..item.clone()
    };
    assert_eq!(to_c_history_item(&with_day).unwrap().day, 366);
    assert_eq!(CHistoryItem::try_from(with_day.clone()).unwrap().day, 366);
}

#[test]
fn flat_day_that_is_not_positive_reads_as_no_day() {
    for day in [0, -1, i32::MIN] {
        let flat = CHistoryItem {
            timestamp: 1,
            year: 2020,
            day,
            content: pointer("c"),
            properties: pointer(""),
        };
        let item = to_history_item(&flat).unwrap();
        assert_eq!(item.day, Day::none());
        assert_eq!(HistoryItem::try_from(&flat).unwrap().day, Day::none());
    }
    let flat = CHistoryItem {
        timestamp: 1,
        year: 2020,
        day: i32::MAX,
        content: pointer("c"),
        properties: pointer("{}"),
    };
    let item = to_history_item(&flat).unwrap();
    assert_eq!(item.day, Day(Some(i32::MAX as u32)));
    assert_eq!(item.properties.to_optional_string(), Some("{}".to_string()));
}

#[test]
fn day_beyond_the_boundary_goes_out_as_no_day() {
    let item = HistoryItem {
        timestamp: 1.into(),
        year: 1.into(),
        day: Day(Some(u32::MAX)),
        content: "c".into(),
        properties: HistoryItemProperties::none(),
    };
    assert_eq!(to_c_history_item(&item).unwrap().day, 0);
    let zero = HistoryItem {
        day: Day(Some(0)),
        ..item
    };
    assert_eq!(to_c_history_item(&zero).unwrap().day, 0);
}

#[test]
fn null_member_is_an_input_error() {
    let flat = CEntityColumn {
        label: pointer("l"),
        descriptor: null(),
        description: pointer(""),
    };
    assert!(matches!(
        to_entity_column(&flat),
        Err(LoreCoreError::InputError(_))
    ));
    let flat = CEntityColumn {
        label: pointer("l"),
        descriptor: pointer("d"),
        description: null(),
    };
    assert!(matches!(
        to_entity_column(&flat),
        Err(LoreCoreError::InputError(_))
    ));
    let flat = CHistoryItem {
        timestamp: 1,
        year: 1,
        day: 1,
        content: null(),
        properties: pointer(""),
    };
    assert!(matches!(
        to_history_item(&flat),
        Err(LoreCoreError::InputError(_))
    ));
    let flat = CEntityRelationship {
        parent: pointer("p"),
        child: pointer("c"),
        role: null(),
    };
    assert!(matches!(
        to_relationship(&flat),
        Err(LoreCoreError::InputError(_))
    ));
}

#[test]
fn first_unreadable_member_is_reported() {
    let flat = CEntityColumn {
        label: CharPointer {
            target: Some(vec![0xff]),
        },
        descriptor: null(),
        description: null(),
    };
    match to_entity_column(&flat) {
        Err(LoreCoreError::InputError(message)) => assert_eq!(
            message,
            "Could not convert characterpointer to string: invalid utf-8 sequence of 1 bytes from index 0"
        ),
        other => panic!("unexpected {:?}", other),
    }
}

#[test]
fn relationship_without_role_goes_out_with_the_empty_string() {
    let rel = EntityRelationship {
        parent: "a".into(),
        child: "b".into(),
        role: Role::none(),
    };
    let flat = to_c_relationship(&rel).unwrap();
    assert_eq!(
        flat,
        CEntityRelationship {
            parent: pointer("a"),
            child: pointer("b"),
            role: pointer(""),
        }
    );
    assert_eq!(to_relationship(&flat).unwrap(), rel);
    assert_eq!(CEntityRelationship::try_from(rel.clone()).unwrap(), flat);
    assert_eq!(EntityRelationship::try_from(&flat).unwrap(), rel);
}
