use vstd::prelude::*;
use crate::clock::{is_rfc3339, Timestamp};
use crate::codes::GoalStatus;
use crate::ident::fresh_id;
use crate::json::{json_of_steps, json_of_texts, steps_from_json, steps_of_json, steps_to_json};
use crate::priority::{clamp_priority, clamped_priority};
use crate::text::{opt_view, owned};
use crate::rank::{lemma_text_le_total, ranked_selection, select_ranked, text_at_or_before, text_le, Ranked};
use crate::row::{check_columns, count_at, fits, fits_all, list_at, list_cell, list_value, lookup_outcome, misfit_error, models, number_cell, opt_cell, opt_stamp_at, opt_stamp_value, opt_text_at, opt_text_cell, opt_text_value, selected, stamp_at, stamp_cell, stamp_wf, text_at, text_cell, text_value, user_column_filter, user_filter, Cell, ColumnKind, Record, SqlValue, StoreError};

verus! {

/// Completion is reported in hundredths of a percent: this value is 100%.
pub const FULL_COMPLETION: u32 = 10_000;

/// One ordered step of a goal.
#[derive(Debug, Clone, PartialEq)]
pub struct GoalStep {
    pub step_number: u32,
    pub description: String,
    pub status: GoalStatus,
    pub due_date: Option<Timestamp>,
}

/// The mathematical value of a [`GoalStep`].
pub struct StepModel {
    pub step_number: u32,
    pub description: Seq<char>,
    pub status: GoalStatus,
    pub due_date: Option<Seq<char>>,
}

impl View for GoalStep {
    type V = StepModel;

    open spec fn view(&self) -> StepModel {
        StepModel {
            step_number: self.step_number,
            description: self.description@,
            status: self.status,
            due_date: self.due_date.deep_view(),
        }
    }
}

impl GoalStep {
    /// A planned step without a due date.
    pub fn new(step_number: u32, description: String) -> (r: GoalStep)
        ensures
            r@ == (StepModel {
                step_number,
                description: description@,
                status: GoalStatus::Planned,
                due_date: None,
            }),
    {
        GoalStep { step_number, description, status: GoalStatus::Planned, due_date: None }
    }

    /// The step with a due date.
    pub fn with_due_date(self, date: Timestamp) -> (r: GoalStep)
        ensures
            r@ == (StepModel { due_date: Some(date@), ..self@ }),
    {
        let mut s = self;
        s.due_date = Some(date);
        s
    }
}

/// The serialised form of a step: number, description, status code, due date.
/// The steps column holds a JSON array of such four-element arrays, for
/// example `[[1,"design","completed",null]]`. Steps written as JSON objects
/// with named fields are not in this form: such a column reads back as no
/// steps, as any steps text that does not parse does.
pub open spec fn step_tuple(s: StepModel) -> (u32, Seq<char>, Seq<char>, Option<Seq<char>>) {
    (s.step_number, s.description, s.status.code(), s.due_date)
}

/// The step a serialised tuple stands for; a due date that does not parse is absent.
pub open spec fn step_of_tuple(t: (u32, Seq<char>, Seq<char>, Option<Seq<char>>)) -> StepModel {
    StepModel {
        step_number: t.0,
        description: t.1,
        status: GoalStatus::from_code(t.2),
        due_date: match t.3 {
            Some(d) => if is_rfc3339(d) {
                Some(d)
            } else {
                None
            },
            None => None,
        },
    }
}

/// The serialised forms of steps.
pub open spec fn step_tuples(steps: Seq<StepModel>) -> Seq<(u32, Seq<char>, Seq<char>, Option<Seq<char>>)> {
    steps.map_values(|s: StepModel| step_tuple(s))
}

/// A steps cell: the steps of its JSON text, or none when it does not parse.
pub open spec fn steps_cell(c: Cell) -> Seq<StepModel> {
    match steps_of_json(text_cell(c)) {
        Some(ts) => ts.map_values(|t: (u32, Seq<char>, Seq<char>, Option<Seq<char>>)| step_of_tuple(t)),
        None => Seq::empty(),
    }
}

/// How many of the steps are completed.
pub open spec fn completed_count(steps: Seq<StepModel>) -> nat
    decreases steps.len(),
{
    if steps.len() == 0 {
        0
    } else {
        completed_count(steps.drop_last()) + if steps.last().status == GoalStatus::Completed {
            1nat
        } else {
            0nat
        }
    }
}

proof fn lemma_completed_count_bound(steps: Seq<StepModel>)
    ensures
        completed_count(steps) <= steps.len(),
    decreases steps.len(),
{
    if steps.len() > 0 {
        lemma_completed_count_bound(steps.drop_last());
    }
}

/// A goal the user pursues, with its ordered steps.
#[derive(Debug, Clone, PartialEq)]
pub struct UserGoal {
    pub id: String,
    pub user_id: String,
    pub goal_text: String,
    pub description: Option<String>,
    pub project_id: Option<String>,
    pub status: GoalStatus,
    pub priority: u32,
    pub steps: Vec<GoalStep>,
    pub created_at: Timestamp,
    pub updated_at: Option<Timestamp>,
    pub completion_target_date: Option<Timestamp>,
    pub completion_date: Option<Timestamp>,
    pub blockers: Vec<String>,
    pub related_todos: Vec<String>,
}

/// The mathematical value of a [`UserGoal`].
pub struct GoalModel {
    pub id: Seq<char>,
    pub user_id: Seq<char>,
    pub goal_text: Seq<char>,
    pub description: Option<Seq<char>>,
    pub project_id: Option<Seq<char>>,
    pub status: GoalStatus,
    pub priority: int,
    pub steps: Seq<StepModel>,
    pub created_at: Seq<char>,
    pub updated_at: Option<Seq<char>>,
    pub completion_target_date: Option<Seq<char>>,
    pub completion_date: Option<Seq<char>>,
    pub blockers: Seq<Seq<char>>,
    pub related_todos: Seq<Seq<char>>,
}

impl View for UserGoal {
    type V = GoalModel;

    open spec fn view(&self) -> GoalModel {
        GoalModel {
            id: self.id@,
            user_id: self.user_id@,
            goal_text: self.goal_text@,
            description: self.description.deep_view(),
            project_id: self.project_id.deep_view(),
            status: self.status,
            priority: self.priority as int,
            steps: self.steps@.map_values(|s: GoalStep| s@),
            created_at: self.created_at@,
            updated_at: self.updated_at.deep_view(),
            completion_target_date: self.completion_target_date.deep_view(),
            completion_date: self.completion_date.deep_view(),
            blockers: self.blockers.deep_view(),
            related_todos: self.related_todos.deep_view(),
        }
    }
}

impl GoalModel {
    /// Every timestamp the goal holds, its steps' included, is RFC 3339 text.
    pub open spec fn wf(self) -> bool {
        &&& is_rfc3339(self.created_at)
        &&& stamp_wf(self.updated_at)
        &&& stamp_wf(self.completion_target_date)
        &&& stamp_wf(self.completion_date)
        &&& forall|i: int| 0 <= i < self.steps.len() ==> stamp_wf(#[trigger] self.steps[i].due_date)
    }
}

/// The completion of a goal in hundredths of a percent: zero without steps,
/// else the completed share of the steps, rounded down.
pub open spec fn completion_of(steps: Seq<StepModel>) -> int {
    if steps.len() == 0 {
        0
    } else {
        completed_count(steps) * (FULL_COMPLETION as int) / (steps.len() as int)
    }
}

/// The column order of the goals table.
pub open spec fn goal_kinds() -> Seq<ColumnKind> {
    seq![
        ColumnKind::Text,
        ColumnKind::Text,
        ColumnKind::Text,
        ColumnKind::OptText,
        ColumnKind::OptText,
        ColumnKind::Text,
        ColumnKind::Count,
        ColumnKind::Text,
        ColumnKind::Text,
        ColumnKind::OptText,
        ColumnKind::OptText,
        ColumnKind::OptText,
        ColumnKind::Text,
        ColumnKind::Text,
    ]
}

/// The row that stores a goal.
pub open spec fn goal_row(m: GoalModel) -> Seq<Cell> {
    seq![
        Cell::Text(m.id),
        Cell::Text(m.user_id),
        Cell::Text(m.goal_text),
        opt_cell(m.description),
        opt_cell(m.project_id),
        Cell::Text(m.status.code()),
        Cell::Integer(m.priority),
        Cell::Text(json_of_steps(step_tuples(m.steps))),
        Cell::Text(m.created_at),
        opt_cell(m.updated_at),
        opt_cell(m.completion_target_date),
        opt_cell(m.completion_date),
        Cell::Text(json_of_texts(m.blockers)),
        Cell::Text(json_of_texts(m.related_todos)),
    ]
}

/// The values an update of a goal binds at `now`.
pub open spec fn goal_update_row(m: GoalModel, now: Seq<char>) -> Seq<Cell> {
    let row = goal_row(GoalModel { updated_at: Some(now), ..m });
    row.subrange(2, 8) + row.subrange(9, 14) + seq![Cell::Text(m.id)]
}

/// The goal a row stores. A creation time that does not parse is an
/// encoding failure; lists that do not parse are empty.
pub open spec fn goal_of_row(row: Seq<Cell>) -> Result<GoalModel, StoreError> {
    if !fits_all(row, goal_kinds()) {
        Err(misfit_error(row, goal_kinds()))
    } else if !is_rfc3339(text_cell(row[8])) {
        Err(StoreError::Encoding(8))
    } else {
        Ok(
            GoalModel {
                id: text_cell(row[0]),
                user_id: text_cell(row[1]),
                goal_text: text_cell(row[2]),
                description: opt_text_cell(row[3]),
                project_id: opt_text_cell(row[4]),
                status: GoalStatus::from_code(text_cell(row[5])),
                priority: number_cell(row[6]),
                steps: steps_cell(row[7]),
                created_at: text_cell(row[8]),
                updated_at: stamp_cell(row[9]),
                completion_target_date: stamp_cell(row[10]),
                completion_date: stamp_cell(row[11]),
                blockers: list_cell(row[12]),
                related_todos: list_cell(row[13]),
            },
        )
    }
}

fn goal_kind_list() -> (r: Vec<ColumnKind>)
    ensures
        r@ == goal_kinds(),
{
    let r = vec![
        ColumnKind::Text,
        ColumnKind::Text,
        ColumnKind::Text,
        ColumnKind::OptText,
        ColumnKind::OptText,
        ColumnKind::Text,
        ColumnKind::Count,
        ColumnKind::Text,
        ColumnKind::Text,
        ColumnKind::OptText,
        ColumnKind::OptText,
        ColumnKind::OptText,
        ColumnKind::Text,
        ColumnKind::Text,
    ];
    assert(r@ =~= goal_kinds());
    r
}

/// The serialised forms of a goal's steps.
fn steps_value(steps: &Vec<GoalStep>) -> (r: SqlValue)
    ensures
        r@ == Cell::Text(json_of_steps(step_tuples(steps@.map_values(|s: GoalStep| s@)))),
        steps_of_json(text_cell(r@)) == Some(step_tuples(steps@.map_values(|s: GoalStep| s@))),
{
    let ghost ms = steps@.map_values(|s: GoalStep| s@);
    let mut ts: Vec<(u32, String, String, Option<String>)> = Vec::new();
    let mut i: usize = 0;
    while i < steps.len()
        invariant
            ms == steps@.map_values(|s: GoalStep| s@),
            i <= steps@.len(),
            ts.deep_view() == step_tuples(ms.take(i as int)),
        decreases steps@.len() - i,
    {
        let s = &steps[i];
        let due = match &s.due_date {
            Some(t) => Some(t.text.clone()),
            None => None,
        };
        let desc = s.description.clone();
        let code = s.status.as_str().to_owned();
        assert(due.deep_view() == ms[i as int].due_date);
        assert(desc@ == ms[i as int].description);
        assert(code@ == ms[i as int].status.code());
        let ghost before = ts.deep_view();
        ts.push((s.step_number, desc, code, due));
        assert(ts.deep_view() =~= before.push(step_tuple(ms[i as int])));
        assert(ms.take(i + 1) =~= ms.take(i as int).push(ms[i as int]));
        assert(ts.deep_view() =~= step_tuples(ms.take(i + 1)));
        i = i + 1;
    }
    assert(ms.take(steps@.len() as int) =~= ms);
    SqlValue::Text(steps_to_json(&ts))
}

/// The steps in a column that holds text; text that does not parse is no steps.
fn steps_at(row: &Vec<SqlValue>, i: usize) -> (r: Vec<GoalStep>)
    requires
        i < row@.len(),
        row@[i as int]@ is Text,
    ensures
        r@.map_values(|s: GoalStep| s@) == steps_cell(row@[i as int]@),
{
    let ts = match &row[i] {
        SqlValue::Text(s) => match steps_from_json(s.as_str()) {
            Some(v) => v,
            None => {
                let r: Vec<GoalStep> = Vec::new();
                assert(r@.map_values(|s: GoalStep| s@) =~= steps_cell(row@[i as int]@));
                return r;
            },
        },
        _ => {
            return Vec::new();
        },
    };
    let ghost tv = ts.deep_view();
    let mut r: Vec<GoalStep> = Vec::new();
    let mut k: usize = 0;
    while k < ts.len()
        invariant
            tv == ts.deep_view(),
            k <= ts@.len(),
            r@.map_values(|s: GoalStep| s@) == tv.take(k as int).map_values(
                |t: (u32, Seq<char>, Seq<char>, Option<Seq<char>>)| step_of_tuple(t),
            ),
        decreases ts@.len() - k,
    {
        let t = &ts[k];
        let due = match &t.3 {
            Some(d) => Timestamp::parse(d.as_str()),
            None => None,
        };
        let ghost before = r@;
        r.push(
            GoalStep {
                step_number: t.0,
                description: t.1.clone(),
                status: GoalStatus::from_str(t.2.as_str()),
                due_date: due,
            },
        );
        assert(tv[k as int] == ts@[k as int].deep_view());
        assert(r@.map_values(|s: GoalStep| s@) =~= before.map_values(|s: GoalStep| s@).push(
            step_of_tuple(tv[k as int]),
        ));
        assert(tv.take(k + 1) =~= tv.take(k as int).push(tv[k as int]));
        assert(tv.take(k + 1).map_values(
            |t: (u32, Seq<char>, Seq<char>, Option<Seq<char>>)| step_of_tuple(t),
        ) =~= tv.take(k as int).map_values(
            |t: (u32, Seq<char>, Seq<char>, Option<Seq<char>>)| step_of_tuple(t),
        ).push(step_of_tuple(tv[k as int])));
        k = k + 1;
    }
    assert(tv.take(ts@.len() as int) =~= tv);
    r
}

impl Record for UserGoal {
    open spec fn model_of_row(row: Seq<Cell>) -> Result<GoalModel, StoreError> {
        goal_of_row(row)
    }

    fn from_row(row: &Vec<SqlValue>) -> (r: Result<UserGoal, StoreError>) {
        let kinds = goal_kind_list();
        let ghost cells = row.deep_view();
        match check_columns(row, &kinds) {
            Err(e) => {
                return Err(e);
            },
            Ok(()) => {},
        }
        assert(forall|i: int| 0 <= i < 14 ==> cells[i] == row@[i]@);
        assert(fits(cells[6], ColumnKind::Count));
        let created_at = match stamp_at(row, 8) {
            Ok(t) => t,
            Err(e) => {
                return Err(e);
            },
        };
        let status = text_at(row, 5);
        Ok(
            UserGoal {
                id: text_at(row, 0),
                user_id: text_at(row, 1),
                goal_text: text_at(row, 2),
                description: opt_text_at(row, 3),
                project_id: opt_text_at(row, 4),
                status: GoalStatus::from_str(status.as_str()),
                priority: count_at(row, 6),
                steps: steps_at(row, 7),
                created_at,
                updated_at: opt_stamp_at(row, 9),
                completion_target_date: opt_stamp_at(row, 10),
                completion_date: opt_stamp_at(row, 11),
                blockers: list_at(row, 12),
                related_todos: list_at(row, 13),
            },
        )
    }
}

impl UserGoal {
    /// A new planned goal of priority 3, with a fresh id, created now.
    pub fn new(user_id: String, goal_text: String) -> (r: UserGoal)
        ensures
            r.id@.len() == 36,
            r@.wf(),
            r@.user_id == user_id@,
            r@.goal_text == goal_text@,
            r@.description is None,
            r@.project_id is None,
            r@.status == GoalStatus::Planned,
            r@.priority == 3,
            r@.steps.len() == 0,
            r@.updated_at is None,
            r@.completion_target_date is None,
            r@.completion_date is None,
            r@.blockers.len() == 0,
            r@.related_todos.len() == 0,
    {
        UserGoal {
            id: fresh_id(),
            user_id,
            goal_text,
            description: None,
            project_id: None,
            status: GoalStatus::Planned,
            priority: 3,
            steps: Vec::new(),
            created_at: Timestamp::now(),
            updated_at: None,
            completion_target_date: None,
            completion_date: None,
            blockers: Vec::new(),
            related_todos: Vec::new(),
        }
    }

    /// The goal with a description.
    pub fn with_description(self, desc: String) -> (r: UserGoal)
        ensures
            r@ == (GoalModel { description: Some(desc@), ..self@ }),
    {
        let mut g = self;
        g.description = Some(desc);
        g
    }

    /// The goal with a priority clamped to `[1, 5]`.
    pub fn with_priority(self, priority: u32) -> (r: UserGoal)
        ensures
            r@ == (GoalModel {
                priority: clamped_priority(priority as int),
                ..self@
            }),
    {
        let mut g = self;
        g.priority = clamp_priority(priority);
        g
    }

    /// Appends a step, updated at `now`; the earlier steps keep their order.
    pub fn add_step_at(&mut self, step: GoalStep, now: &Timestamp)
        ensures
            final(self)@ == (GoalModel {
                steps: old(self)@.steps.push(step@),
                updated_at: Some(now@),
                ..old(self)@
            }),
    {
        let ghost s = step@;
        self.steps.push(step);
        self.updated_at = Some(now.duplicate());
        assert(self@.steps =~= old(self)@.steps.push(s));
    }

    /// Appends a step, updated now.
    pub fn add_step(&mut self, step: GoalStep)
        ensures
            old(self)@.wf() && stamp_wf(step@.due_date) ==> final(self)@.wf(),
            final(self)@.updated_at is Some,
            final(self)@ == (GoalModel {
                steps: old(self)@.steps.push(step@),
                updated_at: final(self)@.updated_at,
                ..old(self)@
            }),
    {
        let now = Timestamp::now();
        let ghost s = step@;
        self.add_step_at(step, &now);
        assert(old(self)@.wf() && stamp_wf(s.due_date) ==> forall|i: int|
            0 <= i < self@.steps.len() ==> stamp_wf(#[trigger] self@.steps[i].due_date)) by {
            if old(self)@.wf() && stamp_wf(s.due_date) {
                assert forall|i: int| 0 <= i < self@.steps.len() implies stamp_wf(
                    #[trigger] self@.steps[i].due_date,
                ) by {
                    if i < old(self)@.steps.len() {
                        assert(self@.steps[i] == old(self)@.steps[i]);
                    }
                }
            }
        }
    }

    /// Marks the goal in progress at `now`.
    pub fn mark_started_at(&mut self, now: &Timestamp)
        ensures
            final(self)@ == (GoalModel {
                status: GoalStatus::InProgress,
                updated_at: Some(now@),
                ..old(self)@
            }),
    {
        self.status = GoalStatus::InProgress;
        self.updated_at = Some(now.duplicate());
    }

    /// Marks the goal in progress now.
    pub fn mark_started(&mut self)
        ensures
            old(self)@.wf() ==> final(self)@.wf(),
            final(self)@.updated_at is Some,
            final(self)@ == (GoalModel {
                status: GoalStatus::InProgress,
                updated_at: final(self)@.updated_at,
                ..old(self)@
            }),
    {
        let now = Timestamp::now();
        self.mark_started_at(&now);
    }

    /// Marks the goal completed at `now`.
    pub fn mark_completed_at(&mut self, now: &Timestamp)
        ensures
            final(self)@ == (GoalModel {
                status: GoalStatus::Completed,
                completion_date: Some(now@),
                updated_at: Some(now@),
                ..old(self)@
            }),
    {
        self.status = GoalStatus::Completed;
        self.completion_date = Some(now.duplicate());
        self.updated_at = Some(now.duplicate());
    }

    /// Marks the goal completed now.
    pub fn mark_completed(&mut self)
        ensures
            old(self)@.wf() ==> final(self)@.wf(),
            final(self)@.completion_date is Some,
            final(self)@ == (GoalModel {
                status: GoalStatus::Completed,
                completion_date: final(self)@.completion_date,
                updated_at: final(self)@.completion_date,
                ..old(self)@
            }),
    {
        let now = Timestamp::now();
        self.mark_completed_at(&now);
    }

    /// How many steps are completed.
    pub fn completed_steps(&self) -> (r: usize)
        ensures
            r == completed_count(self@.steps),
    {
        let ghost ms = self@.steps;
        let mut n: usize = 0;
        let mut i: usize = 0;
        while i < self.steps.len()
            invariant
                ms == self@.steps,
                i <= self.steps@.len(),
                n == completed_count(ms.take(i as int)),
                n <= i,
            decreases self.steps@.len() - i,
        {
            assert(ms.take(i + 1).drop_last() =~= ms.take(i as int));
            if self.steps[i].status == GoalStatus::Completed {
                n = n + 1;
            }
            i = i + 1;
        }
        assert(ms.take(self.steps@.len() as int) =~= ms);
        n
    }

    /// The derived completion, in hundredths of a percent: 0 without
    /// steps, 10000 when every step is completed, else the completed share
    /// rounded down (one of three steps is 3333).
    pub fn completion_percentage(&self) -> (r: u32)
        ensures
            r == completion_of(self@.steps),
            self@.steps.len() == 0 ==> r == 0,
            self@.steps.len() > 0 && completed_count(self@.steps) == self@.steps.len() ==> r
                == FULL_COMPLETION,
            r <= FULL_COMPLETION,
    {
        let n = self.steps.len();
        if n == 0 {
            return 0;
        }
        let done = self.completed_steps();
        proof {
            lemma_completed_count_bound(self@.steps);
        }
        let scaled: u128 = done as u128 * FULL_COMPLETION as u128;
        let r = scaled / (n as u128);
        proof {
            assert(done <= n);
            assert(scaled <= n as u128 * 10000) by (nonlinear_arith)
                requires
                    scaled == done as u128 * 10000,
                    done <= n,
            ;
            assert(r <= 10000) by (nonlinear_arith)
                requires
                    r == scaled / (n as u128),
                    scaled <= n as u128 * 10000,
                    n > 0,
            ;
            if done == n {
                assert(r == 10000) by (nonlinear_arith)
                    requires
                        r == scaled / (n as u128),
                        scaled == n as u128 * 10000,
                        n > 0,
                ;
            }
        }
        r as u32
    }

    /// The values bound when the goal is inserted, in column order. The row
    /// decodes back to the same goal, steps in the same order, when its
    /// timestamps parse.
    pub fn to_row(&self) -> (r: Vec<SqlValue>)
        ensures
            r.deep_view() == goal_row(self@),
            self@.wf() ==> goal_of_row(r.deep_view()) == Ok::<GoalModel, StoreError>(self@),
    {
        let mut r: Vec<SqlValue> = Vec::new();
        r.push(text_value(self.id.as_str()));
        r.push(text_value(self.user_id.as_str()));
        r.push(text_value(self.goal_text.as_str()));
        r.push(opt_text_value(&self.description));
        r.push(opt_text_value(&self.project_id));
        r.push(text_value(self.status.as_str()));
        r.push(SqlValue::Integer(self.priority as i64));
        r.push(steps_value(&self.steps));
        r.push(text_value(self.created_at.as_str()));
        r.push(opt_stamp_value(&self.updated_at));
        r.push(opt_stamp_value(&self.completion_target_date));
        r.push(opt_stamp_value(&self.completion_date));
        r.push(list_value(&self.blockers));
        r.push(list_value(&self.related_todos));
        let ghost m = self@;
        assert(r.deep_view() =~= goal_row(m));
        proof {
            if m.wf() {
                let row = r.deep_view();
                assert(fits_all(row, goal_kinds()));
                m.status.lemma_code_round_trip();
                assert(list_cell(row[12]) == m.blockers);
                assert(list_cell(row[13]) == m.related_todos);
                lemma_steps_round_trip(m.steps);
                assert(steps_cell(row[7]) == m.steps);
            }
        }
        r
    }

    /// The values an update binds at `now`: every column of the stored row
    /// but the id, the owner and the creation time, in column order, with the
    /// update time set to `now`; then the id that selects the row.
    pub fn update_params(&self, now: &Timestamp) -> (r: Vec<SqlValue>)
        ensures
            r.deep_view() == goal_update_row(self@, now@),
    {
        let mut r: Vec<SqlValue> = Vec::new();
        r.push(text_value(self.goal_text.as_str()));
        r.push(opt_text_value(&self.description));
        r.push(opt_text_value(&self.project_id));
        r.push(text_value(self.status.as_str()));
        r.push(SqlValue::Integer(self.priority as i64));
        r.push(steps_value(&self.steps));
        r.push(text_value(now.as_str()));
        r.push(opt_stamp_value(&self.completion_target_date));
        r.push(opt_stamp_value(&self.completion_date));
        r.push(list_value(&self.blockers));
        r.push(list_value(&self.related_todos));
        r.push(text_value(self.id.as_str()));
        assert(r.deep_view() =~= goal_update_row(self@, now@));
        r
    }
}

impl UserGoal {
    /// A goal as a create request describes it: planned, with the priority
    /// clamped to `[1, 5]` (3 when absent), a fresh id and the current time.
    pub fn from_request(
        user_id: &str,
        goal_text: &str,
        description: Option<&str>,
        project_id: Option<&str>,
        priority: Option<u32>,
    ) -> (r: UserGoal)
        ensures
            r.id@.len() == 36,
            r@.wf(),
            r@.user_id == user_id@,
            r@.goal_text == goal_text@,
            r@.description == opt_view(description),
            r@.project_id == opt_view(project_id),
            r@.status == GoalStatus::Planned,
            r@.priority == match priority {
                Some(p) => clamped_priority(p as int),
                None => 3,
            },
            r@.steps.len() == 0,
            r@.updated_at is None,
            r@.completion_target_date is None,
            r@.completion_date is None,
            r@.blockers.len() == 0,
            r@.related_todos.len() == 0,
    {
        let mut g = UserGoal::new(user_id.to_owned(), goal_text.to_owned());
        g.description = owned(description);
        g.project_id = owned(project_id);
        if let Some(p) = priority {
            g = g.with_priority(p);
        }
        g
    }

    /// Applies the fields an edit request carries, stamped at `now`; absent
    /// fields keep their value, and a priority is clamped to `[1, 5]`.
    pub fn apply_edits(
        &mut self,
        goal_text: Option<&str>,
        description: Option<&str>,
        priority: Option<u32>,
        now: &Timestamp,
    )
        ensures
            final(self)@ == (GoalModel {
                goal_text: match goal_text {
                    Some(t) => t@,
                    None => old(self)@.goal_text,
                },
                description: match description {
                    Some(t) => Some(t@),
                    None => old(self)@.description,
                },
                priority: match priority {
                    Some(p) => clamped_priority(p as int),
                    None => old(self)@.priority,
                },
                updated_at: Some(now@),
                ..old(self)@
            }),
    {
        if let Some(t) = goal_text {
            self.goal_text = t.to_owned();
        }
        if let Some(t) = description {
            self.description = Some(t.to_owned());
        }
        if let Some(p) = priority {
            self.priority = clamp_priority(p);
        }
        self.updated_at = Some(now.duplicate());
    }
}

/// Steps whose due dates parse read back unchanged from their serialised form.
proof fn lemma_steps_round_trip(steps: Seq<StepModel>)
    requires
        forall|i: int| 0 <= i < steps.len() ==> stamp_wf(#[trigger] steps[i].due_date),
    ensures
        step_tuples(steps).map_values(
            |t: (u32, Seq<char>, Seq<char>, Option<Seq<char>>)| step_of_tuple(t),
        ) == steps,
{
    let back = step_tuples(steps).map_values(
        |t: (u32, Seq<char>, Seq<char>, Option<Seq<char>>)| step_of_tuple(t),
    );
    assert forall|i: int| 0 <= i < steps.len() implies back[i] == steps[i] by {
        steps[i].status.lemma_code_round_trip();
        assert(stamp_wf(steps[i].due_date));
    }
    assert(back =~= steps);
}

/// The goals of a user, from the rows the engine returned, in row order.
pub fn find_goals_by_user(rows: &Vec<Vec<SqlValue>>, user_id: &str) -> (r: Result<
    Vec<UserGoal>,
    StoreError,
>)
    ensures
        match r {
            Ok(v) => ranked_selection::<UserGoal>(rows.deep_view(), seq![(1usize, user_id@)], models(v@)),
            Err(e) => selected::<UserGoal>(rows.deep_view(), seq![(1usize, user_id@)]) == Err::<
                Seq<GoalModel>,
                StoreError,
            >(e),
        },
{
    let f = user_filter(user_id);
    select_ranked(rows, &f)
}

/// The goals of a user with a status.
pub fn find_goals_by_status(rows: &Vec<Vec<SqlValue>>, user_id: &str, status: &str) -> (r:
    Result<Vec<UserGoal>, StoreError>)
    ensures
        match r {
            Ok(v) => ranked_selection::<UserGoal>(rows.deep_view(),
                seq![(1usize, user_id@), (5usize, status@)], models(v@)),
            Err(e) => selected::<UserGoal>(
                rows.deep_view(),
                seq![(1usize, user_id@), (5usize, status@)],
            ) == Err::<Seq<GoalModel>, StoreError>(e),
        },
{
    let f = user_column_filter(user_id, 5, status);
    select_ranked(rows, &f)
}

/// The goals of a user in a project.
pub fn find_goals_by_project(rows: &Vec<Vec<SqlValue>>, user_id: &str, project_id: &str) -> (r:
    Result<Vec<UserGoal>, StoreError>)
    ensures
        match r {
            Ok(v) => ranked_selection::<UserGoal>(rows.deep_view(),
                seq![(1usize, user_id@), (4usize, project_id@)], models(v@)),
            Err(e) => selected::<UserGoal>(
                rows.deep_view(),
                seq![(1usize, user_id@), (4usize, project_id@)],
            ) == Err::<Seq<GoalModel>, StoreError>(e),
        },
{
    let f = user_column_filter(user_id, 4, project_id);
    select_ranked(rows, &f)
}

/// The goal with an id, from the rows a lookup returned.
pub fn find_goal_by_id(rows: &Vec<Vec<SqlValue>>) -> (r: Result<Option<UserGoal>, StoreError>)
    ensures
        rows@.len() == 0 ==> r == Ok::<Option<UserGoal>, StoreError>(None),
        rows@.len() > 0 ==> match r {
            Ok(Some(g)) => goal_of_row(rows@[0].deep_view()) == Ok::<GoalModel, StoreError>(g@),
            Ok(None) => false,
            Err(e) => goal_of_row(rows@[0].deep_view()) == Err::<GoalModel, StoreError>(e),
        },
{
    lookup_outcome(rows)
}

/// Goals are listed by ascending priority, newest first within a priority.
impl Ranked for UserGoal {
    open spec fn precedes(a: GoalModel, b: GoalModel) -> bool {
        a.priority < b.priority || (a.priority == b.priority && text_le(b.created_at, a.created_at))
    }

    proof fn lemma_precedes_total(a: GoalModel, b: GoalModel) {
        lemma_text_le_total(a.created_at, b.created_at);
    }

    fn may_precede(&self, other: &UserGoal) -> (r: bool) {
        self.priority < other.priority || (self.priority == other.priority && text_at_or_before(
            other.created_at.as_str(),
            self.created_at.as_str(),
        ))
    }
}

} // verus!
