use crate::text::optional_text;
use crate::types::description::Description;
use crate::types::descriptor::Descriptor;
use crate::types::entity::EntityColumn;
use crate::types::entity::EntityColumnView;
use crate::types::label::Label;
use vstd::prelude::*;

verus! {

/// A row of the table `entities`. The absent description is the engine's
/// null.
#[derive(Debug, PartialEq, Eq, PartialOrd, Ord)]
pub struct SqlEntityColumn {
    pub label: String,
    pub descriptor: String,
    pub description: Option<String>,
}

/// A row of `entities` as plain values.
pub ghost struct SqlEntityColumnView {
    pub label: Seq<char>,
    pub descriptor: Seq<char>,
    pub description: Option<Seq<char>>,
}

impl View for SqlEntityColumn {
    type V = SqlEntityColumnView;

    open spec fn view(&self) -> SqlEntityColumnView {
        SqlEntityColumnView {
            label: self.label@,
            descriptor: self.descriptor@,
            description: optional_text(self.description),
        }
    }
}

impl SqlEntityColumnView {
    /// The attribute that the row holds. Null and the empty text both stand
    /// for the absent description.
    pub open spec fn entity(&self) -> EntityColumnView {
        EntityColumnView {
            label: self.label,
            descriptor: self.descriptor,
            description: match self.description {
                Some(description) => description,
                None => Seq::empty(),
            },
        }
    }
}

impl EntityColumnView {
    /// The row that holds the attribute.
    pub open spec fn row(&self) -> SqlEntityColumnView {
        SqlEntityColumnView {
            label: self.label,
            descriptor: self.descriptor,
            description: if self.description.len() > 0 {
                Some(self.description)
            } else {
                None
            },
        }
    }
}

/// An attribute comes back from its row as it went in.
pub proof fn lemma_entity_row_round_trip(column: EntityColumnView)
    ensures
        column.row().entity() == column,
{
    assert(column.row().entity().description =~= column.description);
}

/// A row comes back from its attribute as it went in, unless it holds the
/// empty description, which comes back as null.
pub proof fn lemma_row_entity_round_trip(row: SqlEntityColumnView)
    requires
        row.description != Some(Seq::<char>::empty()),
    ensures
        row.entity().row() == row,
{
    if let Some(description) = row.description {
        if description.len() == 0 {
            assert(description =~= Seq::<char>::empty());
        }
    }
}

impl EntityColumn {
    pub fn to_sql_entity_column(&self) -> (row: SqlEntityColumn)
        ensures
            row@ == self@.row(),
    {
        SqlEntityColumn {
            label: self.label.to_string(),
            descriptor: self.descriptor.to_string(),
            description: self.description.to_optional_string(),
        }
    }
}

impl SqlEntityColumn {
    pub fn to_entity_column(&self) -> (column: EntityColumn)
        ensures
            column@ == self@.entity(),
    {
        EntityColumn {
            label: Label::from(self.label.clone()),
            descriptor: Descriptor::from(self.descriptor.as_str()),
            description: Description::from(self.description.clone()),
        }
    }
}

impl Clone for SqlEntityColumn {
    fn clone(&self) -> (copy: Self)
        ensures
            copy@ == self@,
    {
        SqlEntityColumn {
            label: self.label.clone(),
            descriptor: self.descriptor.clone(),
            description: self.description.clone(),
        }
    }
}

} // verus!
