//! Changes and deletions across the boundary: from the key of a record, as
//! the C interface hands it over, to the command that changes or deletes the
//! record.
//!
//! The pointers of a call are read in the order of its parameters, the
//! location of the database first. The first that is no text is the input
//! error of the call, and then nothing is asked of the store.

use crate::c_api::auxil::char_pointer_to_string;
use crate::c_api::auxil::native_text;
use crate::c_api::auxil::CharPointer;
use crate::c_api::write_database::is_input_error;
use crate::errors::LoreCoreError;
use crate::sql::entity::change_entity_description_command;
use crate::sql::entity::change_entity_descriptor_command;
use crate::sql::entity::delete_entity_column_command;
use crate::sql::entity::delete_entity_command;
use crate::sql::entity::relabel_entity_command;
use crate::sql::history::change_history_item_content_command;
use crate::sql::history::change_history_item_properties_command;
use crate::sql::history::delete_history_item_command;
use crate::sql::history::redate_history_item_command;
use crate::sql::lore_database::Command;
use crate::sql::lore_database::CommandView;
use crate::sql::lore_database::LoreDatabase;
use crate::sql::relationship::change_relationship_role_command;
use crate::sql::relationship::delete_relationship_command;
use crate::types::child::Child;
use crate::types::day::day_of;
use crate::types::day::Day;
use crate::types::description::Description;
use crate::types::descriptor::Descriptor;
use crate::types::history_item_content::HistoryItemContent;
use crate::types::history_item_properties::HistoryItemProperties;
use crate::types::label::Label;
use crate::types::parent::Parent;
use crate::types::relationship::EntityRelationship;
use crate::types::relationship::EntityRelationshipView;
use crate::types::role::Role;
use crate::types::timestamp::Timestamp;
use crate::types::year::Year;
use vstd::prelude::*;

verus! {

/// The texts behind `pointers`, in order, or the message for the first of
/// them that is no text.
pub open spec fn texts_behind(pointers: Seq<Option<Seq<u8>>>) -> Result<Seq<Seq<char>>, Seq<char>>
    decreases pointers.len(),
{
    if pointers.len() == 0 {
        Ok(Seq::empty())
    } else {
        match texts_behind(pointers.drop_last()) {
            Ok(texts) => match native_text(pointers.last()) {
                Ok(text) => Ok(texts.push(text)),
                Err(message) => Err(message),
            },
            Err(message) => Err(message),
        }
    }
}

/// The targets of `pointers`, in order.
pub open spec fn targets(pointers: Seq<&CharPointer>) -> Seq<Option<Seq<u8>>> {
    pointers.map_values(|pointer: &CharPointer| pointer@)
}

/// The texts of `texts`, in order.
pub open spec fn text_views(texts: Seq<String>) -> Seq<Seq<char>> {
    texts.map_values(|text: String| text@)
}

/// Whether `request` asks the database at `path` to execute `command`.
pub open spec fn is_request(
    request: Result<(LoreDatabase, Command), LoreCoreError>,
    path: Seq<char>,
    command: CommandView,
) -> bool {
    request is Ok && request->Ok_0.0.path() == path && request->Ok_0.1@ == command
}

/// There is a text behind each pointer, or none at all.
pub proof fn lemma_texts_behind_len(pointers: Seq<Option<Seq<u8>>>)
    ensures
        texts_behind(pointers) is Ok ==> texts_behind(pointers)->Ok_0.len() == pointers.len(),
    decreases pointers.len(),
{
    if pointers.len() > 0 {
        lemma_texts_behind_len(pointers.drop_last());
    }
}

/// The texts behind `pointers`, copied, in order. The first pointer that is
/// null or holds no UTF-8 is an input error.
pub fn native_texts(pointers: &Vec<&CharPointer>) -> (texts: Result<Vec<String>, LoreCoreError>)
    ensures
        match texts_behind(targets(pointers@)) {
            Ok(expected) => texts is Ok && text_views(texts->Ok_0@) == expected
                && texts->Ok_0.len() == pointers.len(),
            Err(message) => is_input_error(texts, message),
        },
{
    let mut texts: Vec<String> = Vec::new();
    let mut i: usize = 0;
    assert(targets(pointers@).take(0) =~= Seq::<Option<Seq<u8>>>::empty());
    assert(text_views(texts@) =~= Seq::<Seq<char>>::empty());
    while i < pointers.len()
        invariant
            i <= pointers.len(),
            texts.len() == i,
            texts_behind(targets(pointers@).take(i as int)) == Ok::<Seq<Seq<char>>, Seq<char>>(
                text_views(texts@),
            ),
        decreases pointers.len() - i,
    {
        let ghost read = targets(pointers@).take(i + 1);
        assert(read.drop_last() =~= targets(pointers@).take(i as int));
        assert(read.last() == pointers@[i as int]@);
        let ghost before = text_views(texts@);
        match char_pointer_to_string(pointers[i]) {
            Ok(text) => {
                texts.push(text);
                assert(text_views(texts@) =~= before.push(text@));
            },
            Err(error) => {
                proof {
                    lemma_error_stays(targets(pointers@), i + 1);
                }
                return Err(error);
            },
        }
        i += 1;
    }
    assert(targets(pointers@).take(pointers.len() as int) =~= targets(pointers@));
    Ok(texts)
}

/// Once a pointer is no text, the pointers after it do not matter.
proof fn lemma_error_stays(pointers: Seq<Option<Seq<u8>>>, n: int)
    requires
        0 <= n <= pointers.len(),
        texts_behind(pointers.take(n)) is Err,
    ensures
        texts_behind(pointers) == texts_behind(pointers.take(n)),
    decreases pointers.len() - n,
{
    if n < pointers.len() {
        assert(pointers.take(n + 1).drop_last() =~= pointers.take(n));
        lemma_error_stays(pointers, n + 1);
    } else {
        assert(pointers.take(n) =~= pointers);
    }
}

/// The text where it is not empty.
pub open spec fn optional(text: Seq<char>) -> Option<Seq<char>> {
    if text.len() > 0 {
        Some(text)
    } else {
        None
    }
}

/// The command that gives the entity `old_label` the label `new_label`.
/// A pointer that is no text is an input error.
pub fn c_relabel_entity(
    db_path: &CharPointer,
    old_label: &CharPointer,
    new_label: &CharPointer,
) -> (request: Result<(LoreDatabase, Command), LoreCoreError>)
    ensures
        match texts_behind(seq![db_path@, old_label@, new_label@]) {
            Ok(texts) => texts.len() == 3 && is_request(
                request,
                texts[0],
                relabel_entity_command(texts[1], texts[2]),
            ),
            Err(message) => is_input_error(request, message),
        },
{
    let pointers = vec![db_path, old_label, new_label];
    assert(targets(pointers@) =~= seq![db_path@, old_label@, new_label@]);
    let mut texts = match native_texts(&pointers) {
        Ok(texts) => texts,
        Err(error) => {
            return Err(error);
        },
    };
    proof {
        lemma_texts_behind_len(targets(pointers@));
    }
    let new_label = Label::from(texts.pop().unwrap());
    let old_label = Label::from(texts.pop().unwrap());
    let database = LoreDatabase::new(texts.pop().unwrap());
    let command = database.relabel_entity(&old_label, &new_label);
    Ok((database, command))
}

/// The command that deletes the entity `label`.
/// A pointer that is no text is an input error.
pub fn c_delete_entity(
    db_path: &CharPointer,
    label: &CharPointer,
) -> (request: Result<(LoreDatabase, Command), LoreCoreError>)
    ensures
        match texts_behind(seq![db_path@, label@]) {
            Ok(texts) => texts.len() == 2 && is_request(
                request,
                texts[0],
                delete_entity_command(texts[1]),
            ),
            Err(message) => is_input_error(request, message),
        },
{
    let pointers = vec![db_path, label];
    assert(targets(pointers@) =~= seq![db_path@, label@]);
    let mut texts = match native_texts(&pointers) {
        Ok(texts) => texts,
        Err(error) => {
            return Err(error);
        },
    };
    proof {
        lemma_texts_behind_len(targets(pointers@));
    }
    let label = Label::from(texts.pop().unwrap());
    let database = LoreDatabase::new(texts.pop().unwrap());
    let command = database.delete_entity(label);
    Ok((database, command))
}

/// The command that renames the attribute `old_descriptor` of the entity
/// `label` to `new_descriptor`.
/// A pointer that is no text is an input error.
pub fn c_change_entity_descriptor(
    db_path: &CharPointer,
    label: &CharPointer,
    old_descriptor: &CharPointer,
    new_descriptor: &CharPointer,
) -> (request: Result<(LoreDatabase, Command), LoreCoreError>)
    ensures
        match texts_behind(seq![db_path@, label@, old_descriptor@, new_descriptor@]) {
            Ok(texts) => texts.len() == 4 && is_request(
                request,
                texts[0],
                change_entity_descriptor_command(texts[1], texts[2], texts[3]),
            ),
            Err(message) => is_input_error(request, message),
        },
{
    let pointers = vec![db_path, label, old_descriptor, new_descriptor];
    assert(targets(pointers@) =~= seq![db_path@, label@, old_descriptor@, new_descriptor@]);
    let mut texts = match native_texts(&pointers) {
        Ok(texts) => texts,
        Err(error) => {
            return Err(error);
        },
    };
    proof {
        lemma_texts_behind_len(targets(pointers@));
    }
    let new_descriptor = Descriptor::from(texts.pop().unwrap());
    let old_descriptor = Descriptor::from(texts.pop().unwrap());
    let label = Label::from(texts.pop().unwrap());
    let database = LoreDatabase::new(texts.pop().unwrap());
    let command = database.change_entity_descriptor((&label, old_descriptor), &new_descriptor);
    Ok((database, command))
}

/// The command that deletes the attribute `descriptor` of the entity
/// `label`.
/// A pointer that is no text is an input error.
pub fn c_delete_entity_column(
    db_path: &CharPointer,
    label: &CharPointer,
    descriptor: &CharPointer,
) -> (request: Result<(LoreDatabase, Command), LoreCoreError>)
    ensures
        match texts_behind(seq![db_path@, label@, descriptor@]) {
            Ok(texts) => texts.len() == 3 && is_request(
                request,
                texts[0],
                delete_entity_column_command(texts[1], texts[2]),
            ),
            Err(message) => is_input_error(request, message),
        },
{
    let pointers = vec![db_path, label, descriptor];
    assert(targets(pointers@) =~= seq![db_path@, label@, descriptor@]);
    let mut texts = match native_texts(&pointers) {
        Ok(texts) => texts,
        Err(error) => {
            return Err(error);
        },
    };
    proof {
        lemma_texts_behind_len(targets(pointers@));
    }
    let descriptor = Descriptor::from(texts.pop().unwrap());
    let label = Label::from(texts.pop().unwrap());
    let database = LoreDatabase::new(texts.pop().unwrap());
    let command = database.delete_entity_column((label, descriptor));
    Ok((database, command))
}

/// The command that gives the attribute `descriptor` of the entity `label`
/// the description `new_description`; the empty string takes the
/// description away.
/// A pointer that is no text is an input error.
pub fn c_change_entity_description(
    db_path: &CharPointer,
    label: &CharPointer,
    descriptor: &CharPointer,
    new_description: &CharPointer,
) -> (request: Result<(LoreDatabase, Command), LoreCoreError>)
    ensures
        match texts_behind(seq![db_path@, label@, descriptor@, new_description@]) {
            Ok(texts) => texts.len() == 4 && is_request(
                request,
                texts[0],
                change_entity_description_command(texts[1], texts[2], optional(texts[3])),
            ),
            Err(message) => is_input_error(request, message),
        },
{
    let pointers = vec![db_path, label, descriptor, new_description];
    assert(targets(pointers@) =~= seq![db_path@, label@, descriptor@, new_description@]);
    let mut texts = match native_texts(&pointers) {
        Ok(texts) => texts,
        Err(error) => {
            return Err(error);
        },
    };
    proof {
        lemma_texts_behind_len(targets(pointers@));
    }
    let new_description = Description::from(texts.pop().unwrap());
    let descriptor = Descriptor::from(texts.pop().unwrap());
    let label = Label::from(texts.pop().unwrap());
    let database = LoreDatabase::new(texts.pop().unwrap());
    let command = database.change_entity_description((&label, &descriptor), &new_description);
    Ok((database, command))
}

/// The command that moves the event `timestamp` to the year `year` and the
/// day `day`; a day that is not positive is no day.
/// A pointer that is no text is an input error.
pub fn c_redate_history_item(
    db_path: &CharPointer,
    timestamp: i64,
    year: i32,
    day: i32,
) -> (request: Result<(LoreDatabase, Command), LoreCoreError>)
    ensures
        match texts_behind(seq![db_path@]) {
            Ok(texts) => texts.len() == 1 && is_request(
                request,
                texts[0],
                redate_history_item_command(timestamp as int, year as int, day_of(day as int)),
            ),
            Err(message) => is_input_error(request, message),
        },
{
    let pointers = vec![db_path];
    assert(targets(pointers@) =~= seq![db_path@]);
    let mut texts = match native_texts(&pointers) {
        Ok(texts) => texts,
        Err(error) => {
            return Err(error);
        },
    };
    proof {
        lemma_texts_behind_len(targets(pointers@));
    }
    let database = LoreDatabase::new(texts.pop().unwrap());
    let command = database.redate_history_item(
        Timestamp::from(timestamp),
        Year::from(year),
        Day::from(day),
    );
    Ok((database, command))
}

/// The command that deletes the event `timestamp`.
/// A pointer that is no text is an input error.
pub fn c_delete_history_item(
    db_path: &CharPointer,
    timestamp: i64,
) -> (request: Result<(LoreDatabase, Command), LoreCoreError>)
    ensures
        match texts_behind(seq![db_path@]) {
            Ok(texts) => texts.len() == 1 && is_request(
                request,
                texts[0],
                delete_history_item_command(timestamp as int),
            ),
            Err(message) => is_input_error(request, message),
        },
{
    let pointers = vec![db_path];
    assert(targets(pointers@) =~= seq![db_path@]);
    let mut texts = match native_texts(&pointers) {
        Ok(texts) => texts,
        Err(error) => {
            return Err(error);
        },
    };
    proof {
        lemma_texts_behind_len(targets(pointers@));
    }
    let database = LoreDatabase::new(texts.pop().unwrap());
    let command = database.delete_history_item(Timestamp::from(timestamp));
    Ok((database, command))
}

/// The command that gives the event `timestamp` the content `content`.
/// A pointer that is no text is an input error.
pub fn c_change_history_item_content(
    db_path: &CharPointer,
    timestamp: i64,
    content: &CharPointer,
) -> (request: Result<(LoreDatabase, Command), LoreCoreError>)
    ensures
        match texts_behind(seq![db_path@, content@]) {
            Ok(texts) => texts.len() == 2 && is_request(
                request,
                texts[0],
                change_history_item_content_command(timestamp as int, texts[1]),
            ),
            Err(message) => is_input_error(request, message),
        },
{
    let pointers = vec![db_path, content];
    assert(targets(pointers@) =~= seq![db_path@, content@]);
    let mut texts = match native_texts(&pointers) {
        Ok(texts) => texts,
        Err(error) => {
            return Err(error);
        },
    };
    proof {
        lemma_texts_behind_len(targets(pointers@));
    }
    let content = HistoryItemContent::from(texts.pop().unwrap());
    let database = LoreDatabase::new(texts.pop().unwrap());
    let command = database.change_history_item_content(Timestamp::from(timestamp), &content);
    Ok((database, command))
}

/// The command that gives the event `timestamp` the properties
/// `properties`; the empty string takes the properties away.
/// A pointer that is no text is an input error.
pub fn c_change_history_item_properties(
    db_path: &CharPointer,
    timestamp: i64,
    properties: &CharPointer,
) -> (request: Result<(LoreDatabase, Command), LoreCoreError>)
    ensures
        match texts_behind(seq![db_path@, properties@]) {
            Ok(texts) => texts.len() == 2 && is_request(
                request,
                texts[0],
                change_history_item_properties_command(timestamp as int, optional(texts[1])),
            ),
            Err(message) => is_input_error(request, message),
        },
{
    let pointers = vec![db_path, properties];
    assert(targets(pointers@) =~= seq![db_path@, properties@]);
    let mut texts = match native_texts(&pointers) {
        Ok(texts) => texts,
        Err(error) => {
            return Err(error);
        },
    };
    proof {
        lemma_texts_behind_len(targets(pointers@));
    }
    let properties = HistoryItemProperties::from(texts.pop().unwrap());
    let database = LoreDatabase::new(texts.pop().unwrap());
    let command = database.change_history_item_properties(Timestamp::from(timestamp), &properties);
    Ok((database, command))
}

/// The command that gives the relationship of `parent` and `child` with
/// the role `old_role` the role `new_role`; the empty string is the absent
/// role.
/// A pointer that is no text is an input error.
pub fn c_change_relationship_role(
    db_path: &CharPointer,
    parent: &CharPointer,
    child: &CharPointer,
    old_role: &CharPointer,
    new_role: &CharPointer,
) -> (request: Result<(LoreDatabase, Command), LoreCoreError>)
    ensures
        match texts_behind(seq![db_path@, parent@, child@, old_role@, new_role@]) {
            Ok(texts) => texts.len() == 5 && is_request(
                request,
                texts[0],
                change_relationship_role_command(
                    EntityRelationshipView { parent: texts[1], child: texts[2], role: texts[3] },
                    texts[4],
                ),
            ),
            Err(message) => is_input_error(request, message),
        },
{
    let pointers = vec![db_path, parent, child, old_role, new_role];
    assert(targets(pointers@) =~= seq![db_path@, parent@, child@, old_role@, new_role@]);
    let mut texts = match native_texts(&pointers) {
        Ok(texts) => texts,
        Err(error) => {
            return Err(error);
        },
    };
    proof {
        lemma_texts_behind_len(targets(pointers@));
    }
    let new_role = Role::from(texts.pop().unwrap());
    let role = Role::from(texts.pop().unwrap());
    let child = Child::from(texts.pop().unwrap());
    let parent = Parent::from(texts.pop().unwrap());
    let database = LoreDatabase::new(texts.pop().unwrap());
    let command = database.change_relationship_role(
        EntityRelationship { parent, child, role },
        &new_role,
    );
    Ok((database, command))
}

/// The command that deletes the relationship of `parent` and `child` with
/// the role `role`; the empty string is the absent role.
/// A pointer that is no text is an input error.
pub fn c_delete_relationship(
    db_path: &CharPointer,
    parent: &CharPointer,
    child: &CharPointer,
    role: &CharPointer,
) -> (request: Result<(LoreDatabase, Command), LoreCoreError>)
    ensures
        match texts_behind(seq![db_path@, parent@, child@, role@]) {
            Ok(texts) => texts.len() == 4 && is_request(
                request,
                texts[0],
                delete_relationship_command(
                    EntityRelationshipView { parent: texts[1], child: texts[2], role: texts[3] },
                ),
            ),
            Err(message) => is_input_error(request, message),
        },
{
    let pointers = vec![db_path, parent, child, role];
    assert(targets(pointers@) =~= seq![db_path@, parent@, child@, role@]);
    let mut texts = match native_texts(&pointers) {
        Ok(texts) => texts,
        Err(error) => {
            return Err(error);
        },
    };
    proof {
        lemma_texts_behind_len(targets(pointers@));
    }
    let role = Role::from(texts.pop().unwrap());
    let child = Child::from(texts.pop().unwrap());
    let parent = Parent::from(texts.pop().unwrap());
    let database = LoreDatabase::new(texts.pop().unwrap());
    let command = database.delete_relationship(EntityRelationship { parent, child, role });
    Ok((database, command))
}

} // verus!
