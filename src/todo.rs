use vstd::prelude::*;
use crate::clock::{is_rfc3339, Timestamp};
use crate::codes::{EntityType, TodoContextType, TodoStatus};
use crate::ident::fresh_id;
use crate::priority::{clamp_priority, clamped_priority};
use crate::text::{opt_view, owned};
use crate::rank::{lemma_text_le_total, ranked_selection, select_ranked, text_at_or_before, text_le, Ranked};
use crate::row::{check_columns, column_filter, count_at, fits, fits_all, lookup_outcome, misfit_error, models, number_cell, opt_cell, opt_stamp_at, opt_stamp_value, opt_text_at, opt_text_cell, opt_text_value, selected, stamp_at, stamp_cell, stamp_wf, text_at, text_cell, text_value, user_column_filter, user_filter, Cell, ColumnKind, Record, SqlValue, StoreError};

verus! {

/// A task tied to one of the user's decisions, goals, issues or preferences.
#[derive(Debug, Clone, PartialEq)]
pub struct ContextualTodo {
    pub id: String,
    pub user_id: String,
    pub task_description: String,
    pub context_type: TodoContextType,
    pub related_entity_id: Option<String>,
    pub related_entity_type: Option<EntityType>,
    pub project_id: Option<String>,
    pub assigned_to: Option<String>,
    pub due_date: Option<Timestamp>,
    pub status: TodoStatus,
    pub priority: u32,
    pub created_from_conversation_date: Option<Timestamp>,
    pub created_at: Timestamp,
    pub updated_at: Option<Timestamp>,
    pub completion_date: Option<Timestamp>,
}

/// The mathematical value of a [`ContextualTodo`].
pub struct TodoModel {
    pub id: Seq<char>,
    pub user_id: Seq<char>,
    pub task_description: Seq<char>,
    pub context_type: TodoContextType,
    pub related_entity_id: Option<Seq<char>>,
    pub related_entity_type: Option<EntityType>,
    pub project_id: Option<Seq<char>>,
    pub assigned_to: Option<Seq<char>>,
    pub due_date: Option<Seq<char>>,
    pub status: TodoStatus,
    pub priority: int,
    pub created_from_conversation_date: Option<Seq<char>>,
    pub created_at: Seq<char>,
    pub updated_at: Option<Seq<char>>,
    pub completion_date: Option<Seq<char>>,
}

impl View for ContextualTodo {
    type V = TodoModel;

    open spec fn view(&self) -> TodoModel {
        TodoModel {
            id: self.id@,
            user_id: self.user_id@,
            task_description: self.task_description@,
            context_type: self.context_type,
            related_entity_id: self.related_entity_id.deep_view(),
            related_entity_type: self.related_entity_type,
            project_id: self.project_id.deep_view(),
            assigned_to: self.assigned_to.deep_view(),
            due_date: self.due_date.deep_view(),
            status: self.status,
            priority: self.priority as int,
            created_from_conversation_date: self.created_from_conversation_date.deep_view(),
            created_at: self.created_at@,
            updated_at: self.updated_at.deep_view(),
            completion_date: self.completion_date.deep_view(),
        }
    }
}

impl TodoModel {
    /// Every timestamp the todo holds is RFC 3339 text.
    pub open spec fn wf(self) -> bool {
        &&& is_rfc3339(self.created_at)
        &&& stamp_wf(self.due_date)
        &&& stamp_wf(self.created_from_conversation_date)
        &&& stamp_wf(self.updated_at)
        &&& stamp_wf(self.completion_date)
    }
}

/// The stored code of an optional entity type.
pub open spec fn entity_type_code(t: Option<EntityType>) -> Option<Seq<char>> {
    match t {
        Some(k) => Some(k.code()),
        None => None,
    }
}

/// The entity type an optional code stands for.
pub open spec fn entity_type_of(c: Option<Seq<char>>) -> Option<EntityType> {
    match c {
        Some(s) => Some(EntityType::from_code(s)),
        None => None,
    }
}

/// The column order of the todos table.
pub open spec fn todo_kinds() -> Seq<ColumnKind> {
    seq![
        ColumnKind::Text,
        ColumnKind::Text,
        ColumnKind::Text,
        ColumnKind::Text,
        ColumnKind::OptText,
        ColumnKind::OptText,
        ColumnKind::OptText,
        ColumnKind::OptText,
        ColumnKind::OptText,
        ColumnKind::Text,
        ColumnKind::Count,
        ColumnKind::OptText,
        ColumnKind::Text,
        ColumnKind::OptText,
        ColumnKind::OptText,
    ]
}

/// The row that stores a todo.
pub open spec fn todo_row(m: TodoModel) -> Seq<Cell> {
    seq![
        Cell::Text(m.id),
        Cell::Text(m.user_id),
        Cell::Text(m.task_description),
        Cell::Text(m.context_type.code()),
        opt_cell(m.related_entity_id),
        opt_cell(entity_type_code(m.related_entity_type)),
        opt_cell(m.project_id),
        opt_cell(m.assigned_to),
        opt_cell(m.due_date),
        Cell::Text(m.status.code()),
        Cell::Integer(m.priority),
        opt_cell(m.created_from_conversation_date),
        Cell::Text(m.created_at),
        opt_cell(m.updated_at),
        opt_cell(m.completion_date),
    ]
}

/// The values an update of a todo binds at `now`.
pub open spec fn todo_update_row(m: TodoModel, now: Seq<char>) -> Seq<Cell> {
    let row = todo_row(TodoModel { updated_at: Some(now), ..m });
    row.subrange(2, 12) + row.subrange(13, 15) + seq![Cell::Text(m.id)]
}

/// The todo a row stores. A creation time that does not parse is an encoding
/// failure; optional times that do not parse are absent.
pub open spec fn todo_of_row(row: Seq<Cell>) -> Result<TodoModel, StoreError> {
    if !fits_all(row, todo_kinds()) {
        Err(misfit_error(row, todo_kinds()))
    } else if !is_rfc3339(text_cell(row[12])) {
        Err(StoreError::Encoding(12))
    } else {
        Ok(
            TodoModel {
                id: text_cell(row[0]),
                user_id: text_cell(row[1]),
                task_description: text_cell(row[2]),
                context_type: TodoContextType::from_code(text_cell(row[3])),
                related_entity_id: opt_text_cell(row[4]),
                related_entity_type: entity_type_of(opt_text_cell(row[5])),
                project_id: opt_text_cell(row[6]),
                assigned_to: opt_text_cell(row[7]),
                due_date: stamp_cell(row[8]),
                status: TodoStatus::from_code(text_cell(row[9])),
                priority: number_cell(row[10]),
                created_from_conversation_date: stamp_cell(row[11]),
                created_at: text_cell(row[12]),
                updated_at: stamp_cell(row[13]),
                completion_date: stamp_cell(row[14]),
            },
        )
    }
}

fn todo_kind_list() -> (r: Vec<ColumnKind>)
    ensures
        r@ == todo_kinds(),
{
    let r = vec![
        ColumnKind::Text,
        ColumnKind::Text,
        ColumnKind::Text,
        ColumnKind::Text,
        ColumnKind::OptText,
        ColumnKind::OptText,
        ColumnKind::OptText,
        ColumnKind::OptText,
        ColumnKind::OptText,
        ColumnKind::Text,
        ColumnKind::Count,
        ColumnKind::OptText,
        ColumnKind::Text,
        ColumnKind::OptText,
        ColumnKind::OptText,
    ];
    assert(r@ =~= todo_kinds());
    r
}

impl Record for ContextualTodo {
    open spec fn model_of_row(row: Seq<Cell>) -> Result<TodoModel, StoreError> {
        todo_of_row(row)
    }

    fn from_row(row: &Vec<SqlValue>) -> (r: Result<ContextualTodo, StoreError>) {
        let kinds = todo_kind_list();
        let ghost cells = row.deep_view();
        match check_columns(row, &kinds) {
            Err(e) => {
                return Err(e);
            },
            Ok(()) => {},
        }
        assert(forall|i: int| 0 <= i < 15 ==> cells[i] == row@[i]@);
        assert(fits(cells[10], ColumnKind::Count));
        let created_at = match stamp_at(row, 12) {
            Ok(t) => t,
            Err(e) => {
                return Err(e);
            },
        };
        let context = text_at(row, 3);
        let status = text_at(row, 9);
        let related_entity_type = match opt_text_at(row, 5) {
            Some(s) => Some(EntityType::from_str(s.as_str())),
            None => None,
        };
        Ok(
            ContextualTodo {
                id: text_at(row, 0),
                user_id: text_at(row, 1),
                task_description: text_at(row, 2),
                context_type: TodoContextType::from_str(context.as_str()),
                related_entity_id: opt_text_at(row, 4),
                related_entity_type,
                project_id: opt_text_at(row, 6),
                assigned_to: opt_text_at(row, 7),
                due_date: opt_stamp_at(row, 8),
                status: TodoStatus::from_str(status.as_str()),
                priority: count_at(row, 10),
                created_from_conversation_date: opt_stamp_at(row, 11),
                created_at,
                updated_at: opt_stamp_at(row, 13),
                completion_date: opt_stamp_at(row, 14),
            },
        )
    }
}

impl ContextualTodo {
    /// A new pending todo of priority 3, with a fresh id, created now and
    /// linked to nothing yet.
    pub fn new(user_id: String, task_description: String, context_type: TodoContextType) -> (r:
        ContextualTodo)
        ensures
            r.id@.len() == 36,
            r@.wf(),
            r@.user_id == user_id@,
            r@.task_description == task_description@,
            r@.context_type == context_type,
            r@.related_entity_id is None,
            r@.related_entity_type is None,
            r@.project_id is None,
            r@.assigned_to is None,
            r@.due_date is None,
            r@.status == TodoStatus::Pending,
            r@.priority == 3,
            r@.created_from_conversation_date is None,
            r@.updated_at is None,
            r@.completion_date is None,
    {
        ContextualTodo {
            id: fresh_id(),
            user_id,
            task_description,
            context_type,
            related_entity_id: None,
            related_entity_type: None,
            project_id: None,
            assigned_to: None,
            due_date: None,
            status: TodoStatus::Pending,
            priority: 3,
            created_from_conversation_date: None,
            created_at: Timestamp::now(),
            updated_at: None,
            completion_date: None,
        }
    }

    /// Marks the todo in progress at `now`.
    pub fn mark_started_at(&mut self, now: &Timestamp)
        ensures
            final(self)@ == (TodoModel {
                status: TodoStatus::InProgress,
                updated_at: Some(now@),
                ..old(self)@
            }),
    {
        self.status = TodoStatus::InProgress;
        self.updated_at = Some(now.duplicate());
    }

    /// Marks the todo in progress now.
    pub fn mark_started(&mut self)
        ensures
            old(self)@.wf() ==> final(self)@.wf(),
            final(self)@.updated_at is Some,
            final(self)@ == (TodoModel {
                status: TodoStatus::InProgress,
                updated_at: final(self)@.updated_at,
                ..old(self)@
            }),
    {
        let now = Timestamp::now();
        self.mark_started_at(&now);
    }

    /// Marks the todo completed at `now`.
    pub fn mark_completed_at(&mut self, now: &Timestamp)
        ensures
            final(self)@ == (TodoModel {
                status: TodoStatus::Completed,
                completion_date: Some(now@),
                updated_at: Some(now@),
                ..old(self)@
            }),
    {
        self.status = TodoStatus::Completed;
        self.completion_date = Some(now.duplicate());
        self.updated_at = Some(now.duplicate());
    }

    /// Marks the todo completed now.
    pub fn mark_completed(&mut self)
        ensures
            old(self)@.wf() ==> final(self)@.wf(),
            final(self)@.completion_date is Some,
            final(self)@ == (TodoModel {
                status: TodoStatus::Completed,
                completion_date: final(self)@.completion_date,
                updated_at: final(self)@.completion_date,
                ..old(self)@
            }),
    {
        let now = Timestamp::now();
        self.mark_completed_at(&now);
    }

    /// The values bound when the todo is inserted, in column order. The row
    /// decodes back to the same todo when its timestamps parse.
    pub fn to_row(&self) -> (r: Vec<SqlValue>)
        ensures
            r.deep_view() == todo_row(self@),
            self@.wf() ==> todo_of_row(r.deep_view()) == Ok::<TodoModel, StoreError>(self@),
    {
        let mut r: Vec<SqlValue> = Vec::new();
        r.push(text_value(self.id.as_str()));
        r.push(text_value(self.user_id.as_str()));
        r.push(text_value(self.task_description.as_str()));
        r.push(text_value(self.context_type.as_str()));
        r.push(opt_text_value(&self.related_entity_id));
        r.push(
            match &self.related_entity_type {
                Some(k) => text_value(k.as_str()),
                None => SqlValue::Null,
            },
        );
        r.push(opt_text_value(&self.project_id));
        r.push(opt_text_value(&self.assigned_to));
        r.push(opt_stamp_value(&self.due_date));
        r.push(text_value(self.status.as_str()));
        r.push(SqlValue::Integer(self.priority as i64));
        r.push(opt_stamp_value(&self.created_from_conversation_date));
        r.push(text_value(self.created_at.as_str()));
        r.push(opt_stamp_value(&self.updated_at));
        r.push(opt_stamp_value(&self.completion_date));
        let ghost m = self@;
        assert(r.deep_view() =~= todo_row(m));
        proof {
            if m.wf() {
                let row = r.deep_view();
                assert(fits_all(row, todo_kinds()));
                m.context_type.lemma_code_round_trip();
                m.status.lemma_code_round_trip();
                if let Some(k) = m.related_entity_type {
                    k.lemma_code_round_trip();
                }
            }
        }
        r
    }

    /// The values an update binds at `now`: every column of the stored row
    /// but the id, the owner and the creation time, in column order, with the
    /// update time set to `now`; then the id that selects the row.
    pub fn update_params(&self, now: &Timestamp) -> (r: Vec<SqlValue>)
        ensures
            r.deep_view() == todo_update_row(self@, now@),
    {
        let mut r: Vec<SqlValue> = Vec::new();
        r.push(text_value(self.task_description.as_str()));
        r.push(text_value(self.context_type.as_str()));
        r.push(opt_text_value(&self.related_entity_id));
        r.push(match &self.related_entity_type {
            Some(k) => text_value(k.as_str()),
            None => SqlValue::Null,
        });
        r.push(opt_text_value(&self.project_id));
        r.push(opt_text_value(&self.assigned_to));
        r.push(opt_stamp_value(&self.due_date));
        r.push(text_value(self.status.as_str()));
        r.push(SqlValue::Integer(self.priority as i64));
        r.push(opt_stamp_value(&self.created_from_conversation_date));
        r.push(text_value(now.as_str()));
        r.push(opt_stamp_value(&self.completion_date));
        r.push(text_value(self.id.as_str()));
        assert(r.deep_view() =~= todo_update_row(self@, now@));
        r
    }
}

impl ContextualTodo {
    /// A todo as a create request describes it: pending, linked to the given
    /// entity id, with the priority clamped to `[1, 5]` (3 when absent), a
    /// fresh id and the current time.
    pub fn from_request(
        user_id: &str,
        task_description: &str,
        context_type: &str,
        related_entity_id: Option<&str>,
        priority: Option<u32>,
    ) -> (r: ContextualTodo)
        ensures
            r.id@.len() == 36,
            r@.wf(),
            r@.user_id == user_id@,
            r@.task_description == task_description@,
            r@.context_type == TodoContextType::from_code(context_type@),
            r@.related_entity_id == opt_view(related_entity_id),
            r@.related_entity_type is None,
            r@.project_id is None,
            r@.assigned_to is None,
            r@.due_date is None,
            r@.status == TodoStatus::Pending,
            r@.priority == match priority {
                Some(p) => clamped_priority(p as int),
                None => 3,
            },
            r@.created_from_conversation_date is None,
            r@.updated_at is None,
            r@.completion_date is None,
    {
        let mut t = ContextualTodo::new(
            user_id.to_owned(),
            task_description.to_owned(),
            TodoContextType::from_str(context_type),
        );
        t.related_entity_id = owned(related_entity_id);
        if let Some(p) = priority {
            t.priority = clamp_priority(p);
        }
        t
    }

    /// Applies the fields an edit request carries, stamped at `now`; absent
    /// fields keep their value, and a priority is clamped to `[1, 5]`.
    pub fn apply_edits(
        &mut self,
        task_description: Option<&str>,
        priority: Option<u32>,
        now: &Timestamp,
    )
        ensures
            final(self)@ == (TodoModel {
                task_description: match task_description {
                    Some(t) => t@,
                    None => old(self)@.task_description,
                },
                priority: match priority {
                    Some(p) => clamped_priority(p as int),
                    None => old(self)@.priority,
                },
                updated_at: Some(now@),
                ..old(self)@
            }),
    {
        if let Some(t) = task_description {
            self.task_description = t.to_owned();
        }
        if let Some(p) = priority {
            self.priority = clamp_priority(p);
        }
        self.updated_at = Some(now.duplicate());
    }
}

/// The todos of a user, from the rows the engine returned, in row order.
pub fn find_todos_by_user(rows: &Vec<Vec<SqlValue>>, user_id: &str) -> (r: Result<
    Vec<ContextualTodo>,
    StoreError,
>)
    ensures
        match r {
            Ok(v) => ranked_selection::<ContextualTodo>(rows.deep_view(), seq![(1usize, user_id@)], models(v@)),
            Err(e) => selected::<ContextualTodo>(rows.deep_view(), seq![(1usize, user_id@)])
                == Err::<Seq<TodoModel>, StoreError>(e),
        },
{
    let f = user_filter(user_id);
    select_ranked(rows, &f)
}

/// The todos of a user with a status.
pub fn find_todos_by_status(rows: &Vec<Vec<SqlValue>>, user_id: &str, status: &str) -> (r:
    Result<Vec<ContextualTodo>, StoreError>)
    ensures
        match r {
            Ok(v) => ranked_selection::<ContextualTodo>(rows.deep_view(),
                seq![(1usize, user_id@), (9usize, status@)], models(v@)),
            Err(e) => selected::<ContextualTodo>(
                rows.deep_view(),
                seq![(1usize, user_id@), (9usize, status@)],
            ) == Err::<Seq<TodoModel>, StoreError>(e),
        },
{
    let f = user_column_filter(user_id, 9, status);
    select_ranked(rows, &f)
}

/// The todos of a user in a project.
pub fn find_todos_by_project(rows: &Vec<Vec<SqlValue>>, user_id: &str, project_id: &str) -> (r:
    Result<Vec<ContextualTodo>, StoreError>)
    ensures
        match r {
            Ok(v) => ranked_selection::<ContextualTodo>(rows.deep_view(),
                seq![(1usize, user_id@), (6usize, project_id@)], models(v@)),
            Err(e) => selected::<ContextualTodo>(
                rows.deep_view(),
                seq![(1usize, user_id@), (6usize, project_id@)],
            ) == Err::<Seq<TodoModel>, StoreError>(e),
        },
{
    let f = user_column_filter(user_id, 6, project_id);
    select_ranked(rows, &f)
}

/// The todos linked to an entity, whoever owns them.
pub fn find_todos_by_entity(rows: &Vec<Vec<SqlValue>>, entity_id: &str) -> (r: Result<
    Vec<ContextualTodo>,
    StoreError,
>)
    ensures
        match r {
            Ok(v) => ranked_selection::<ContextualTodo>(rows.deep_view(), seq![(4usize, entity_id@)], models(v@)),
            Err(e) => selected::<ContextualTodo>(rows.deep_view(), seq![(4usize, entity_id@)])
                == Err::<Seq<TodoModel>, StoreError>(e),
        },
{
    let f = column_filter(4, entity_id);
    select_ranked(rows, &f)
}

/// The todo with an id, from the rows a lookup returned.
pub fn find_todo_by_id(rows: &Vec<Vec<SqlValue>>) -> (r: Result<Option<ContextualTodo>, StoreError>)
    ensures
        rows@.len() == 0 ==> r == Ok::<Option<ContextualTodo>, StoreError>(None),
        rows@.len() > 0 ==> match r {
            Ok(Some(t)) => todo_of_row(rows@[0].deep_view()) == Ok::<TodoModel, StoreError>(t@),
            Ok(None) => false,
            Err(e) => todo_of_row(rows@[0].deep_view()) == Err::<TodoModel, StoreError>(e),
        },
{
    lookup_outcome(rows)
}

/// Whether a due date sorts at or before another; an absent date sorts first.
pub open spec fn due_le(a: Option<Seq<char>>, b: Option<Seq<char>>) -> bool {
    match (a, b) {
        (None, _) => true,
        (Some(_), None) => false,
        (Some(x), Some(y)) => text_le(x, y),
    }
}

/// Todos are listed by ascending priority, then by due date, undated first.
impl Ranked for ContextualTodo {
    open spec fn precedes(a: TodoModel, b: TodoModel) -> bool {
        a.priority < b.priority || (a.priority == b.priority && due_le(a.due_date, b.due_date))
    }

    proof fn lemma_precedes_total(a: TodoModel, b: TodoModel) {
        if let (Some(x), Some(y)) = (a.due_date, b.due_date) {
            lemma_text_le_total(x, y);
        }
    }

    fn may_precede(&self, other: &ContextualTodo) -> (r: bool) {
        let dated_before = match (&self.due_date, &other.due_date) {
            (None, _) => true,
            (Some(_), None) => false,
            (Some(x), Some(y)) => text_at_or_before(x.as_str(), y.as_str()),
        };
        self.priority < other.priority || (self.priority == other.priority && dated_before)
    }
}

} // verus!
