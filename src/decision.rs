use vstd::prelude::*;
use crate::clock::{is_rfc3339, Timestamp};
use crate::codes::{DecisionCategory, EntityStatus};
use crate::ident::fresh_id;
use crate::json::json_of_texts;
use crate::text::{opt_view, owned};
use crate::rank::{lemma_text_le_total, ranked_selection, select_ranked, text_at_or_before, text_le, Ranked};
use crate::row::{check_columns, column_is, decoded_models, lemma_selected_complete, lemma_selected_exact, meeting_rows, count_at, fits, fits_all, from_meeting_row, lemma_selected_meets, lemma_stamp_cell, list_at, list_cell, list_value, lookup_outcome, meets, micros_at, misfit_error, models, number_cell, opt_cell, opt_stamp_at, opt_stamp_value, opt_text_at, opt_text_cell, opt_text_value, selected, stamp_at, stamp_cell, stamp_wf, text_at, text_cell, text_value, user_column_filter, user_filter, Cell, ColumnKind, Record, SqlValue, StoreError};
use crate::scope::{decode_scope, encode_scope, lemma_scope_round_trip, ContextScope, ScopeModel};

verus! {

/// Confidence is held in millionths: this value stands for 1.0.
pub const CONFIDENCE_SCALE: i64 = 1_000_000;

/// The confidence a new decision starts with (0.5).
pub const DEFAULT_CONFIDENCE: i64 = 500_000;

/// A confidence, in millionths, clamped to `[0, CONFIDENCE_SCALE]`.
pub open spec fn clamped_confidence(score: int) -> int {
    if score < 0 {
        0
    } else if score > CONFIDENCE_SCALE {
        CONFIDENCE_SCALE as int
    } else {
        score
    }
}

/// Clamps a confidence, in millionths, to `[0, CONFIDENCE_SCALE]`.
pub fn clamp_confidence(score: i64) -> (r: i64)
    ensures
        r as int == clamped_confidence(score as int),
{
    if score < 0 {
        0
    } else if score > CONFIDENCE_SCALE {
        CONFIDENCE_SCALE
    } else {
        score
    }
}

/// A decision the user made, with how sure they were and how often it applied.
#[derive(Debug, Clone, PartialEq)]
pub struct UserDecision {
    pub id: String,
    pub user_id: String,
    pub decision_text: String,
    pub reason: Option<String>,
    pub decision_category: DecisionCategory,
    pub scope: ContextScope,
    pub related_project_id: Option<String>,
    /// In millionths: `CONFIDENCE_SCALE` is full confidence.
    pub confidence_score: i64,
    pub referenced_items: Vec<String>,
    pub created_at: Timestamp,
    pub updated_at: Option<Timestamp>,
    pub applied_count: u32,
    pub last_applied: Option<Timestamp>,
    pub status: EntityStatus,
}

/// The mathematical value of a [`UserDecision`].
pub struct DecisionModel {
    pub id: Seq<char>,
    pub user_id: Seq<char>,
    pub decision_text: Seq<char>,
    pub reason: Option<Seq<char>>,
    pub decision_category: DecisionCategory,
    pub scope: ScopeModel,
    pub related_project_id: Option<Seq<char>>,
    pub confidence_score: int,
    pub referenced_items: Seq<Seq<char>>,
    pub created_at: Seq<char>,
    pub updated_at: Option<Seq<char>>,
    pub applied_count: int,
    pub last_applied: Option<Seq<char>>,
    pub status: EntityStatus,
}

impl View for UserDecision {
    type V = DecisionModel;

    open spec fn view(&self) -> DecisionModel {
        DecisionModel {
            id: self.id@,
            user_id: self.user_id@,
            decision_text: self.decision_text@,
            reason: self.reason.deep_view(),
            decision_category: self.decision_category,
            scope: self.scope@,
            related_project_id: self.related_project_id.deep_view(),
            confidence_score: self.confidence_score as int,
            referenced_items: self.referenced_items.deep_view(),
            created_at: self.created_at@,
            updated_at: self.updated_at.deep_view(),
            applied_count: self.applied_count as int,
            last_applied: self.last_applied.deep_view(),
            status: self.status,
        }
    }
}

impl DecisionModel {
    /// Every timestamp the decision holds is RFC 3339 text.
    pub open spec fn wf(self) -> bool {
        is_rfc3339(self.created_at) && stamp_wf(self.updated_at) && stamp_wf(self.last_applied)
    }

    /// The decision after one more application at `now`.
    pub open spec fn applied(self, now: Seq<char>) -> DecisionModel {
        DecisionModel {
            applied_count: self.applied_count + 1,
            last_applied: Some(now),
            updated_at: Some(now),
            ..self
        }
    }

    /// The decision after one application at each of `stamps`, in order.
    pub open spec fn applied_at_each(self, stamps: Seq<Seq<char>>) -> DecisionModel
        decreases stamps.len(),
    {
        if stamps.len() == 0 {
            self
        } else {
            self.applied_at_each(stamps.drop_last()).applied(stamps.last())
        }
    }
}

/// The column order of the decisions table.
pub open spec fn decision_kinds() -> Seq<ColumnKind> {
    seq![
        ColumnKind::Text,
        ColumnKind::Text,
        ColumnKind::Text,
        ColumnKind::OptText,
        ColumnKind::Text,
        ColumnKind::Text,
        ColumnKind::OptText,
        ColumnKind::Micros,
        ColumnKind::Text,
        ColumnKind::Text,
        ColumnKind::OptText,
        ColumnKind::Count,
        ColumnKind::OptText,
        ColumnKind::Text,
    ]
}

/// The row that stores a decision.
pub open spec fn decision_row(m: DecisionModel) -> Seq<Cell> {
    seq![
        Cell::Text(m.id),
        Cell::Text(m.user_id),
        Cell::Text(m.decision_text),
        opt_cell(m.reason),
        Cell::Text(m.decision_category.code()),
        Cell::Text(encode_scope(m.scope)),
        opt_cell(m.related_project_id),
        Cell::RealMicros(m.confidence_score),
        Cell::Text(json_of_texts(m.referenced_items)),
        Cell::Text(m.created_at),
        opt_cell(m.updated_at),
        Cell::Integer(m.applied_count),
        opt_cell(m.last_applied),
        Cell::Text(m.status.code()),
    ]
}

/// The values an update of a decision binds at `now`.
pub open spec fn decision_update_row(m: DecisionModel, now: Seq<char>) -> Seq<Cell> {
    let row = decision_row(DecisionModel { updated_at: Some(now), ..m });
    row.subrange(2, 9) + row.subrange(10, 14) + seq![Cell::Text(m.id)]
}

/// The decision a row stores. A row with a missing or mistyped column is
/// rejected at the first such column; a creation time that does not parse is
/// an encoding failure; a list that does not parse is empty, and an optional
/// time that does not parse is absent.
pub open spec fn decision_of_row(row: Seq<Cell>) -> Result<DecisionModel, StoreError> {
    if !fits_all(row, decision_kinds()) {
        Err(misfit_error(row, decision_kinds()))
    } else if !is_rfc3339(text_cell(row[9])) {
        Err(StoreError::Encoding(9))
    } else {
        Ok(
            DecisionModel {
                id: text_cell(row[0]),
                user_id: text_cell(row[1]),
                decision_text: text_cell(row[2]),
                reason: opt_text_cell(row[3]),
                decision_category: DecisionCategory::from_code(text_cell(row[4])),
                scope: decode_scope(text_cell(row[5])),
                related_project_id: opt_text_cell(row[6]),
                confidence_score: number_cell(row[7]),
                referenced_items: list_cell(row[8]),
                created_at: text_cell(row[9]),
                updated_at: stamp_cell(row[10]),
                applied_count: number_cell(row[11]),
                last_applied: stamp_cell(row[12]),
                status: EntityStatus::from_code(text_cell(row[13])),
            },
        )
    }
}

/// The column kinds of the decisions table.
fn decision_kind_list() -> (r: Vec<ColumnKind>)
    ensures
        r@ == decision_kinds(),
{
    let r = vec![
        ColumnKind::Text,
        ColumnKind::Text,
        ColumnKind::Text,
        ColumnKind::OptText,
        ColumnKind::Text,
        ColumnKind::Text,
        ColumnKind::OptText,
        ColumnKind::Micros,
        ColumnKind::Text,
        ColumnKind::Text,
        ColumnKind::OptText,
        ColumnKind::Count,
        ColumnKind::OptText,
        ColumnKind::Text,
    ];
    assert(r@ =~= decision_kinds());
    r
}

impl Record for UserDecision {
    open spec fn model_of_row(row: Seq<Cell>) -> Result<DecisionModel, StoreError> {
        decision_of_row(row)
    }

    fn from_row(row: &Vec<SqlValue>) -> (r: Result<UserDecision, StoreError>) {
        let kinds = decision_kind_list();
        let ghost cells = row.deep_view();
        match check_columns(row, &kinds) {
            Err(e) => {
                return Err(e);
            },
            Ok(()) => {},
        }
        assert(forall|i: int| 0 <= i < 14 ==> cells[i] == row@[i]@);
        assert(fits(cells[7], ColumnKind::Micros));
        assert(fits(cells[11], ColumnKind::Count));
        let created_at = match stamp_at(row, 9) {
            Ok(t) => t,
            Err(e) => {
                return Err(e);
            },
        };
        let category = text_at(row, 4);
        let scope = text_at(row, 5);
        let status = text_at(row, 13);
        Ok(
            UserDecision {
                id: text_at(row, 0),
                user_id: text_at(row, 1),
                decision_text: text_at(row, 2),
                reason: opt_text_at(row, 3),
                decision_category: DecisionCategory::from_str(category.as_str()),
                scope: ContextScope::from_str(scope.as_str()),
                related_project_id: opt_text_at(row, 6),
                confidence_score: micros_at(row, 7),
                referenced_items: list_at(row, 8),
                created_at,
                updated_at: opt_stamp_at(row, 10),
                applied_count: count_at(row, 11),
                last_applied: opt_stamp_at(row, 12),
                status: EntityStatus::from_str(status.as_str()),
            },
        )
    }
}

impl UserDecision {
    /// A new active decision with confidence 0.5, a fresh id and the current
    /// time as its creation time.
    pub fn new(
        user_id: String,
        decision_text: String,
        decision_category: DecisionCategory,
        scope: ContextScope,
    ) -> (r: UserDecision)
        ensures
            r.id@.len() == 36,
            r@.wf(),
            r@.user_id == user_id@,
            r@.decision_text == decision_text@,
            r@.reason is None,
            r@.decision_category == decision_category,
            r@.scope == scope@,
            r@.related_project_id is None,
            r@.confidence_score == DEFAULT_CONFIDENCE,
            r@.referenced_items.len() == 0,
            r@.updated_at is None,
            r@.applied_count == 0,
            r@.last_applied is None,
            r@.status == EntityStatus::Active,
    {
        let r = UserDecision {
            id: fresh_id(),
            user_id,
            decision_text,
            reason: None,
            decision_category,
            scope,
            related_project_id: None,
            confidence_score: DEFAULT_CONFIDENCE,
            referenced_items: Vec::new(),
            created_at: Timestamp::now(),
            updated_at: None,
            applied_count: 0,
            last_applied: None,
            status: EntityStatus::Active,
        };
        assert(r@.referenced_items =~= Seq::<Seq<char>>::empty());
        r
    }

    /// The decision with a reason.
    pub fn with_reason(self, reason: String) -> (r: UserDecision)
        ensures
            r@ == (DecisionModel { reason: Some(reason@), ..self@ }),
    {
        let mut d = self;
        d.reason = Some(reason);
        d
    }

    /// The decision tied to a project.
    pub fn with_project(self, project_id: String) -> (r: UserDecision)
        ensures
            r@ == (DecisionModel { related_project_id: Some(project_id@), ..self@ }),
    {
        let mut d = self;
        d.related_project_id = Some(project_id);
        d
    }

    /// The decision with a confidence, in millionths, clamped to `[0, CONFIDENCE_SCALE]`.
    pub fn with_confidence(self, score: i64) -> (r: UserDecision)
        ensures
            r@ == (DecisionModel { confidence_score: clamped_confidence(score as int), ..self@ }),
    {
        let mut d = self;
        d.confidence_score = clamp_confidence(score);
        d
    }

    /// Records one more application at `now`.
    pub fn increment_applied_count_at(&mut self, now: &Timestamp)
        requires
            old(self).applied_count < u32::MAX,
        ensures
            final(self)@ == old(self)@.applied(now@),
    {
        self.applied_count = self.applied_count + 1;
        self.last_applied = Some(now.duplicate());
        self.updated_at = Some(now.duplicate());
    }

    /// Records one more application now.
    pub fn increment_applied_count(&mut self)
        requires
            old(self).applied_count < u32::MAX,
        ensures
            old(self)@.wf() ==> final(self)@.wf(),
            final(self)@.applied_count == old(self)@.applied_count + 1,
            final(self)@.last_applied is Some,
            final(self)@ == old(self)@.applied(final(self)@.last_applied->Some_0),
    {
        let now = Timestamp::now();
        self.increment_applied_count_at(&now);
    }

    /// Archives the decision at `now`.
    pub fn archive_at(&mut self, now: &Timestamp)
        ensures
            final(self)@ == (DecisionModel {
                status: EntityStatus::Archived,
                updated_at: Some(now@),
                ..old(self)@
            }),
    {
        self.status = EntityStatus::Archived;
        self.updated_at = Some(now.duplicate());
    }

    /// Archives the decision now.
    pub fn archive(&mut self)
        ensures
            old(self)@.wf() ==> final(self)@.wf(),
            final(self)@.updated_at is Some,
            final(self)@ == (DecisionModel {
                status: EntityStatus::Archived,
                updated_at: final(self)@.updated_at,
                ..old(self)@
            }),
    {
        let now = Timestamp::now();
        self.archive_at(&now);
    }

    /// The values bound when the decision is inserted, in column order. The
    /// row decodes back to the same decision when its timestamps parse.
    pub fn to_row(&self) -> (r: Vec<SqlValue>)
        ensures
            r.deep_view() == decision_row(self@),
            self@.wf() ==> decision_of_row(r.deep_view()) == Ok::<DecisionModel, StoreError>(
                self@,
            ),
    {
        let mut r: Vec<SqlValue> = Vec::new();
        r.push(text_value(self.id.as_str()));
        r.push(text_value(self.user_id.as_str()));
        r.push(text_value(self.decision_text.as_str()));
        r.push(opt_text_value(&self.reason));
        r.push(text_value(self.decision_category.as_str()));
        let scope = self.scope.to_string();
        r.push(text_value(scope.as_str()));
        r.push(opt_text_value(&self.related_project_id));
        r.push(SqlValue::RealMicros(self.confidence_score));
        let items = list_value(&self.referenced_items);
        r.push(items);
        r.push(text_value(self.created_at.as_str()));
        r.push(opt_stamp_value(&self.updated_at));
        r.push(SqlValue::Integer(self.applied_count as i64));
        r.push(opt_stamp_value(&self.last_applied));
        r.push(text_value(self.status.as_str()));
        let ghost m = self@;
        assert(r.deep_view() =~= decision_row(m));
        proof {
            if m.wf() {
                let row = decision_row(m);
                assert(fits_all(row, decision_kinds()));
                m.decision_category.lemma_code_round_trip();
                m.status.lemma_code_round_trip();
                lemma_scope_round_trip(m.scope);
                lemma_stamp_cell(m.updated_at);
                lemma_stamp_cell(m.last_applied);
                assert(list_cell(row[8]) == m.referenced_items);
            }
        }
        r
    }

    /// The values an update binds at `now`: every column of the stored row
    /// but the id, the owner and the creation time, in column order, with the
    /// update time set to `now`; then the id that selects the row.
    pub fn update_params(&self, now: &Timestamp) -> (r: Vec<SqlValue>)
        ensures
            r.deep_view() == decision_update_row(self@, now@),
    {
        let mut r: Vec<SqlValue> = Vec::new();
        r.push(text_value(self.decision_text.as_str()));
        r.push(opt_text_value(&self.reason));
        r.push(text_value(self.decision_category.as_str()));
        r.push(text_value(self.scope.to_string().as_str()));
        r.push(opt_text_value(&self.related_project_id));
        r.push(SqlValue::RealMicros(self.confidence_score));
        r.push(list_value(&self.referenced_items));
        r.push(text_value(now.as_str()));
        r.push(SqlValue::Integer(self.applied_count as i64));
        r.push(opt_stamp_value(&self.last_applied));
        r.push(text_value(self.status.as_str()));
        r.push(text_value(self.id.as_str()));
        assert(r.deep_view() =~= decision_update_row(self@, now@));
        r
    }
}

impl UserDecision {
    /// A decision as a create request describes it: active, global, with
    /// the given confidence in millionths clamped to `[0, CONFIDENCE_SCALE]`
    /// (0.5 when absent), a fresh id and the current time.
    pub fn from_request(
        user_id: &str,
        decision_text: &str,
        category: &str,
        reason: Option<&str>,
        project_id: Option<&str>,
        confidence_score: Option<i64>,
    ) -> (r: UserDecision)
        ensures
            r.id@.len() == 36,
            r@.wf(),
            r@.user_id == user_id@,
            r@.decision_text == decision_text@,
            r@.reason == opt_view(reason),
            r@.decision_category == DecisionCategory::from_code(category@),
            r@.scope == ScopeModel::Global,
            r@.related_project_id == opt_view(project_id),
            r@.confidence_score == match confidence_score {
                Some(c) => clamped_confidence(c as int),
                None => DEFAULT_CONFIDENCE as int,
            },
            r@.referenced_items.len() == 0,
            r@.updated_at is None,
            r@.applied_count == 0,
            r@.last_applied is None,
            r@.status == EntityStatus::Active,
    {
        let mut d = UserDecision::new(
            user_id.to_owned(),
            decision_text.to_owned(),
            DecisionCategory::from_str(category),
            ContextScope::Global,
        );
        d.reason = owned(reason);
        d.related_project_id = owned(project_id);
        d.confidence_score = match confidence_score {
            Some(c) => clamp_confidence(c),
            None => DEFAULT_CONFIDENCE,
        };
        d
    }

    /// Applies the fields an edit request carries, stamped at `now`; absent
    /// fields keep their value. The confidence is taken as given: like any
    /// direct change of a field it is not re-validated, and only the builders
    /// (`with_confidence`, `from_request`) clamp it.
    pub fn apply_edits(
        &mut self,
        decision_text: Option<&str>,
        reason: Option<&str>,
        confidence_score: Option<i64>,
        now: &Timestamp,
    )
        ensures
            final(self)@ == (DecisionModel {
                decision_text: match decision_text {
                    Some(t) => t@,
                    None => old(self)@.decision_text,
                },
                reason: match reason {
                    Some(t) => Some(t@),
                    None => old(self)@.reason,
                },
                confidence_score: match confidence_score {
                    Some(c) => c as int,
                    None => old(self)@.confidence_score,
                },
                updated_at: Some(now@),
                ..old(self)@
            }),
    {
        if let Some(t) = decision_text {
            self.decision_text = t.to_owned();
        }
        if let Some(t) = reason {
            self.reason = Some(t.to_owned());
        }
        if let Some(c) = confidence_score {
            self.confidence_score = c;
        }
        self.updated_at = Some(now.duplicate());
    }
}

/// Recording N applications leaves the count raised by N and the last
/// application at the time of the final one.
pub proof fn lemma_applied_at_each(m: DecisionModel, stamps: Seq<Seq<char>>)
    ensures
        m.applied_at_each(stamps).applied_count == m.applied_count + stamps.len(),
        stamps.len() > 0 ==> m.applied_at_each(stamps).last_applied == Some(stamps.last()),
        stamps.len() == 0 ==> m.applied_at_each(stamps) == m,
    decreases stamps.len(),
{
    if stamps.len() > 0 {
        lemma_applied_at_each(m, stamps.drop_last());
    }
}

/// The decisions of a user, from the rows the engine returned, in row order.
pub fn find_decisions_by_user(rows: &Vec<Vec<SqlValue>>, user_id: &str) -> (r: Result<
    Vec<UserDecision>,
    StoreError,
>)
    ensures
        match r {
            Ok(v) => ranked_selection::<UserDecision>(rows.deep_view(), seq![(1usize, user_id@)], models(v@)),
            Err(e) => selected::<UserDecision>(rows.deep_view(), seq![(1usize, user_id@)])
                == Err::<Seq<DecisionModel>, StoreError>(e),
        },
{
    let f = user_filter(user_id);
    select_ranked(rows, &f)
}

/// The decisions of a user in one category, from the rows the engine returned.
pub fn find_decisions_by_category(
    rows: &Vec<Vec<SqlValue>>,
    user_id: &str,
    category: &str,
) -> (r: Result<Vec<UserDecision>, StoreError>)
    ensures
        match r {
            Ok(v) => ranked_selection::<UserDecision>(rows.deep_view(),
                seq![(1usize, user_id@), (4usize, category@)], models(v@)),
            Err(e) => selected::<UserDecision>(
                rows.deep_view(),
                seq![(1usize, user_id@), (4usize, category@)],
            ) == Err::<Seq<DecisionModel>, StoreError>(e),
        },
{
    let f = user_column_filter(user_id, 4, category);
    select_ranked(rows, &f)
}

/// The decisions of a user in one scope, from the rows the engine returned.
pub fn find_decisions_by_scope(rows: &Vec<Vec<SqlValue>>, user_id: &str, scope: &str) -> (r:
    Result<Vec<UserDecision>, StoreError>)
    ensures
        match r {
            Ok(v) => ranked_selection::<UserDecision>(rows.deep_view(),
                seq![(1usize, user_id@), (5usize, scope@)], models(v@)),
            Err(e) => selected::<UserDecision>(
                rows.deep_view(),
                seq![(1usize, user_id@), (5usize, scope@)],
            ) == Err::<Seq<DecisionModel>, StoreError>(e),
        },
{
    let f = user_column_filter(user_id, 5, scope);
    select_ranked(rows, &f)
}

/// The decision with an id, from the rows a lookup returned.
pub fn find_decision_by_id(rows: &Vec<Vec<SqlValue>>) -> (r: Result<Option<UserDecision>, StoreError>)
    ensures
        rows@.len() == 0 ==> r == Ok::<Option<UserDecision>, StoreError>(None),
        rows@.len() > 0 ==> match r {
            Ok(Some(d)) => decision_of_row(rows@[0].deep_view()) == Ok::<
                DecisionModel,
                StoreError,
            >(d@),
            Ok(None) => false,
            Err(e) => decision_of_row(rows@[0].deep_view()) == Err::<DecisionModel, StoreError>(e),
        },
{
    lookup_outcome(rows)
}

/// A category finder returns exactly the user's decisions in that category:
/// never one of another user or of another category, and, in row order, one
/// decision for every row stored under that user and that category code.
pub proof fn lemma_category_finder(rows: Seq<Seq<Cell>>, user_id: Seq<char>, category: DecisionCategory)
    ensures
        selected::<UserDecision>(rows, seq![(1usize, user_id), (4usize, category.code())]) matches Ok(
            ms,
        ) ==> {
            &&& forall|k: int|
                0 <= k < ms.len() ==> (#[trigger] ms[k]).user_id == user_id
                    && ms[k].decision_category == category
            &&& ms == decoded_models::<UserDecision>(
                meeting_rows(rows, seq![(1usize, user_id), (4usize, category.code())]),
            )
            &&& forall|j: int|
                0 <= j < rows.len() && column_is(rows[j], 1, user_id) && column_is(
                    #[trigger] rows[j],
                    4,
                    category.code(),
                ) ==> decision_of_row(rows[j]) is Ok && ms.contains(
                    decision_of_row(rows[j])->Ok_0,
                )
        },
{
    let f = seq![(1usize, user_id), (4usize, category.code())];
    if let Ok(ms) = selected::<UserDecision>(rows, f) {
        lemma_selected_meets::<UserDecision>(rows, f, ms);
        lemma_selected_exact::<UserDecision>(rows, f, ms);
        category.lemma_code_round_trip();
        assert forall|k: int| 0 <= k < ms.len() implies (#[trigger] ms[k]).user_id == user_id
            && ms[k].decision_category == category by {
            assert(from_meeting_row::<UserDecision>(rows, f, ms[k]));
            let j = choose|j: int|
                0 <= j < rows.len() && meets(#[trigger] rows[j], f) && decision_of_row(rows[j])
                    == Ok::<DecisionModel, StoreError>(ms[k]);
            assert(column_is(rows[j], f[0].0 as int, f[0].1));
            assert(column_is(rows[j], f[1].0 as int, f[1].1));
        }
        assert forall|j: int|
            0 <= j < rows.len() && column_is(rows[j], 1, user_id) && column_is(
                #[trigger] rows[j],
                4,
                category.code(),
            ) implies decision_of_row(rows[j]) is Ok && ms.contains(
            decision_of_row(rows[j])->Ok_0,
        ) by {
            assert(meets(rows[j], f));
            lemma_selected_complete::<UserDecision>(rows, f, ms, j);
        }
    }
}

/// Whether the rows' id columns hold pairwise different texts.
pub open spec fn distinct_ids(rows: Seq<Seq<Cell>>) -> bool {
    forall|i: int, j: int|
        0 <= i < j < rows.len() ==> text_cell(#[trigger] rows[i][0]) != text_cell(
            #[trigger] rows[j][0],
        )
}

/// Where the stored rows have distinct ids, a selection holds each decision
/// once: no two selected decisions share an id. With the category finder's
/// completeness, every matching stored decision is returned exactly once.
pub proof fn lemma_selected_decisions_distinct(
    rows: Seq<Seq<Cell>>,
    filters: Seq<(usize, Seq<char>)>,
    ms: Seq<DecisionModel>,
)
    requires
        selected::<UserDecision>(rows, filters) == Ok::<Seq<DecisionModel>, StoreError>(ms),
        distinct_ids(rows),
    ensures
        forall|a: int, b: int| 0 <= a < b < ms.len() ==> (#[trigger] ms[a]).id != (#[trigger] ms[b]).id,
    decreases rows.len(),
{
    if rows.len() > 0 {
        let prev = rows.drop_last();
        let ps = selected::<UserDecision>(prev, filters)->Ok_0;
        assert(selected::<UserDecision>(prev, filters) is Ok);
        assert(distinct_ids(prev)) by {
            assert forall|i: int, j: int| 0 <= i < j < prev.len() implies text_cell(
                #[trigger] prev[i][0],
            ) != text_cell(#[trigger] prev[j][0]) by {
                assert(prev[i] == rows[i] && prev[j] == rows[j]);
            }
        }
        lemma_selected_decisions_distinct(prev, filters, ps);
        lemma_selected_meets::<UserDecision>(prev, filters, ps);
        if meets(rows.last(), filters) {
            let m = decision_of_row(rows.last())->Ok_0;
            assert(ms == ps.push(m));
            assert forall|a: int, b: int| 0 <= a < b < ms.len() implies (#[trigger] ms[a]).id != (
            #[trigger] ms[b]).id by {
                if b < ps.len() {
                    assert(ms[a] == ps[a] && ms[b] == ps[b]);
                } else {
                    assert(ms[a] == ps[a]);
                    assert(from_meeting_row::<UserDecision>(prev, filters, ps[a]));
                    let j = choose|j: int|
                        0 <= j < prev.len() && meets(#[trigger] prev[j], filters) && decision_of_row(
                            prev[j],
                        ) == Ok::<DecisionModel, StoreError>(ps[a]);
                    assert(prev[j] == rows[j]);
                    assert(rows.last() == rows[rows.len() - 1]);
                    assert(text_cell(rows[j][0]) != text_cell(rows[rows.len() - 1][0]));
                }
            }
        } else {
            assert(ms == ps);
        }
    }
}

/// Decisions are listed newest first.
impl Ranked for UserDecision {
    open spec fn precedes(a: DecisionModel, b: DecisionModel) -> bool {
        text_le(b.created_at, a.created_at)
    }

    proof fn lemma_precedes_total(a: DecisionModel, b: DecisionModel) {
        lemma_text_le_total(a.created_at, b.created_at);
    }

    fn may_precede(&self, other: &UserDecision) -> (r: bool) {
        text_at_or_before(other.created_at.as_str(), self.created_at.as_str())
    }
}

} // verus!
