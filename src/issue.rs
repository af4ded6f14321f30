use vstd::prelude::*;
use crate::clock::{is_rfc3339, Timestamp};
use crate::codes::{IssueCategory, IssueSeverity, ResolutionStatus};
use crate::ident::fresh_id;
use crate::json::json_of_texts;
use crate::rank::{
    lemma_text_le_total, rank, ranked, ranked_selection, select_ranked, text_at_or_before, text_le, Ranked,
};
use crate::row::{
    check_columns, column_is, keep_where, fits_all, from_meeting_row, lemma_selected_meets, lemma_stamp_cell,
    list_at, list_cell, list_value, lookup_outcome, meets, misfit_error, models, opt_cell,
    opt_stamp_at, opt_stamp_value, opt_text_at, opt_text_cell, opt_text_value, select, selected,
    stamp_at, stamp_cell, stamp_wf, text_at, text_cell, text_value, user_column_filter, user_filter,
    Cell, ColumnKind, Record, SqlValue, StoreError,
};
use crate::text::texts_contain;

verus! {

/// A problem the user ran into, with what is known of its cause and cure.
#[derive(Debug, Clone, PartialEq)]
pub struct KnownIssue {
    pub id: String,
    pub user_id: String,
    pub issue_description: String,
    pub symptoms: Vec<String>,
    pub root_cause: Option<String>,
    pub workaround: Option<String>,
    pub permanent_solution: Option<String>,
    pub affected_components: Vec<String>,
    pub severity: IssueSeverity,
    pub issue_category: IssueCategory,
    pub learned_date: Timestamp,
    pub resolution_status: ResolutionStatus,
    pub resolution_date: Option<Timestamp>,
    pub prevention_notes: Option<String>,
    pub project_contexts: Vec<String>,
}

/// The mathematical value of a [`KnownIssue`].
pub struct IssueModel {
    pub id: Seq<char>,
    pub user_id: Seq<char>,
    pub issue_description: Seq<char>,
    pub symptoms: Seq<Seq<char>>,
    pub root_cause: Option<Seq<char>>,
    pub workaround: Option<Seq<char>>,
    pub permanent_solution: Option<Seq<char>>,
    pub affected_components: Seq<Seq<char>>,
    pub severity: IssueSeverity,
    pub issue_category: IssueCategory,
    pub learned_date: Seq<char>,
    pub resolution_status: ResolutionStatus,
    pub resolution_date: Option<Seq<char>>,
    pub prevention_notes: Option<Seq<char>>,
    pub project_contexts: Seq<Seq<char>>,
}

impl View for KnownIssue {
    type V = IssueModel;

    open spec fn view(&self) -> IssueModel {
        IssueModel {
            id: self.id@,
            user_id: self.user_id@,
            issue_description: self.issue_description@,
            symptoms: self.symptoms.deep_view(),
            root_cause: self.root_cause.deep_view(),
            workaround: self.workaround.deep_view(),
            permanent_solution: self.permanent_solution.deep_view(),
            affected_components: self.affected_components.deep_view(),
            severity: self.severity,
            issue_category: self.issue_category,
            learned_date: self.learned_date@,
            resolution_status: self.resolution_status,
            resolution_date: self.resolution_date.deep_view(),
            prevention_notes: self.prevention_notes.deep_view(),
            project_contexts: self.project_contexts.deep_view(),
        }
    }
}

impl IssueModel {
    /// Every timestamp the issue holds is RFC 3339 text.
    pub open spec fn wf(self) -> bool {
        is_rfc3339(self.learned_date) && stamp_wf(self.resolution_date)
    }
}

/// The column order of the issues table, up to its last mapped column.
pub open spec fn issue_kinds() -> Seq<ColumnKind> {
    seq![
        ColumnKind::Text,
        ColumnKind::Text,
        ColumnKind::Text,
        ColumnKind::Text,
        ColumnKind::OptText,
        ColumnKind::OptText,
        ColumnKind::OptText,
        ColumnKind::Text,
        ColumnKind::Text,
        ColumnKind::Text,
        ColumnKind::Text,
        ColumnKind::Text,
        ColumnKind::OptText,
        ColumnKind::OptText,
        ColumnKind::Text,
    ]
}

/// The mapped columns of the row that stores an issue.
pub open spec fn issue_row(m: IssueModel) -> Seq<Cell> {
    seq![
        Cell::Text(m.id),
        Cell::Text(m.user_id),
        Cell::Text(m.issue_description),
        Cell::Text(json_of_texts(m.symptoms)),
        opt_cell(m.root_cause),
        opt_cell(m.workaround),
        opt_cell(m.permanent_solution),
        Cell::Text(json_of_texts(m.affected_components)),
        Cell::Text(m.severity.code()),
        Cell::Text(m.issue_category.code()),
        Cell::Text(m.learned_date),
        Cell::Text(m.resolution_status.code()),
        opt_cell(m.resolution_date),
        opt_cell(m.prevention_notes),
        Cell::Text(json_of_texts(m.project_contexts)),
    ]
}

/// The values an update of an issue binds at `now`.
pub open spec fn issue_update_row(m: IssueModel, now: Seq<char>) -> Seq<Cell> {
    let row = issue_row(m);
    row.subrange(2, 10) + row.subrange(11, 15) + seq![Cell::Text(now), Cell::Text(m.id)]
}

/// The issue a row stores; the columns after the mapped ones are not read.
/// A learned date that does not parse is an encoding failure.
pub open spec fn issue_of_row(row: Seq<Cell>) -> Result<IssueModel, StoreError> {
    if !fits_all(row, issue_kinds()) {
        Err(misfit_error(row, issue_kinds()))
    } else if !is_rfc3339(text_cell(row[10])) {
        Err(StoreError::Encoding(10))
    } else {
        Ok(
            IssueModel {
                id: text_cell(row[0]),
                user_id: text_cell(row[1]),
                issue_description: text_cell(row[2]),
                symptoms: list_cell(row[3]),
                root_cause: opt_text_cell(row[4]),
                workaround: opt_text_cell(row[5]),
                permanent_solution: opt_text_cell(row[6]),
                affected_components: list_cell(row[7]),
                severity: IssueSeverity::from_code(text_cell(row[8])),
                issue_category: IssueCategory::from_code(text_cell(row[9])),
                learned_date: text_cell(row[10]),
                resolution_status: ResolutionStatus::from_code(text_cell(row[11])),
                resolution_date: stamp_cell(row[12]),
                prevention_notes: opt_text_cell(row[13]),
                project_contexts: list_cell(row[14]),
            },
        )
    }
}

fn issue_kind_list() -> (r: Vec<ColumnKind>)
    ensures
        r@ == issue_kinds(),
{
    let r = vec![
        ColumnKind::Text,
        ColumnKind::Text,
        ColumnKind::Text,
        ColumnKind::Text,
        ColumnKind::OptText,
        ColumnKind::OptText,
        ColumnKind::OptText,
        ColumnKind::Text,
        ColumnKind::Text,
        ColumnKind::Text,
        ColumnKind::Text,
        ColumnKind::Text,
        ColumnKind::OptText,
        ColumnKind::OptText,
        ColumnKind::Text,
    ];
    assert(r@ =~= issue_kinds());
    r
}

impl Record for KnownIssue {
    open spec fn model_of_row(row: Seq<Cell>) -> Result<IssueModel, StoreError> {
        issue_of_row(row)
    }

    fn from_row(row: &Vec<SqlValue>) -> (r: Result<KnownIssue, StoreError>) {
        let kinds = issue_kind_list();
        let ghost cells = row.deep_view();
        match check_columns(row, &kinds) {
            Err(e) => {
                return Err(e);
            },
            Ok(()) => {},
        }
        assert(forall|i: int| 0 <= i < 15 ==> cells[i] == row@[i]@);
        let learned_date = match stamp_at(row, 10) {
            Ok(t) => t,
            Err(e) => {
                return Err(e);
            },
        };
        let severity = text_at(row, 8);
        let category = text_at(row, 9);
        let resolution = text_at(row, 11);
        Ok(
            KnownIssue {
                id: text_at(row, 0),
                user_id: text_at(row, 1),
                issue_description: text_at(row, 2),
                symptoms: list_at(row, 3),
                root_cause: opt_text_at(row, 4),
                workaround: opt_text_at(row, 5),
                permanent_solution: opt_text_at(row, 6),
                affected_components: list_at(row, 7),
                severity: IssueSeverity::from_str(severity.as_str()),
                issue_category: IssueCategory::from_str(category.as_str()),
                learned_date,
                resolution_status: ResolutionStatus::from_str(resolution.as_str()),
                resolution_date: opt_stamp_at(row, 12),
                prevention_notes: opt_text_at(row, 13),
                project_contexts: list_at(row, 14),
            },
        )
    }
}

impl KnownIssue {
    /// A new unresolved issue with a fresh id, learned now, with no symptoms,
    /// components or project contexts yet.
    pub fn new(
        user_id: String,
        issue_description: String,
        severity: IssueSeverity,
        issue_category: IssueCategory,
    ) -> (r: KnownIssue)
        ensures
            r.id@.len() == 36,
            r@.wf(),
            r@.user_id == user_id@,
            r@.issue_description == issue_description@,
            r@.symptoms.len() == 0,
            r@.root_cause is None,
            r@.workaround is None,
            r@.permanent_solution is None,
            r@.affected_components.len() == 0,
            r@.severity == severity,
            r@.issue_category == issue_category,
            r@.resolution_status == ResolutionStatus::Unresolved,
            r@.resolution_date is None,
            r@.prevention_notes is None,
            r@.project_contexts.len() == 0,
    {
        KnownIssue {
            id: fresh_id(),
            user_id,
            issue_description,
            symptoms: Vec::new(),
            root_cause: None,
            workaround: None,
            permanent_solution: None,
            affected_components: Vec::new(),
            severity,
            issue_category,
            learned_date: Timestamp::now(),
            resolution_status: ResolutionStatus::Unresolved,
            resolution_date: None,
            prevention_notes: None,
            project_contexts: Vec::new(),
        }
    }

    /// Appends a symptom; the earlier ones keep their order.
    pub fn add_symptom(&mut self, symptom: String)
        ensures
            final(self)@ == (IssueModel { symptoms: old(self)@.symptoms.push(symptom@), ..old(self)@ }),
    {
        self.symptoms.push(symptom);
        assert(self@.symptoms =~= old(self)@.symptoms.push(symptom@));
    }

    /// The issue with a workaround.
    pub fn with_workaround(self, workaround: String) -> (r: KnownIssue)
        ensures
            r@ == (IssueModel { workaround: Some(workaround@), ..self@ }),
    {
        let mut i = self;
        i.workaround = Some(workaround);
        i
    }

    /// Sets the resolution status, resolved at `now`.
    pub fn mark_resolved_at(&mut self, status: ResolutionStatus, now: &Timestamp)
        ensures
            final(self)@ == (IssueModel {
                resolution_status: status,
                resolution_date: Some(now@),
                ..old(self)@
            }),
    {
        self.resolution_status = status;
        self.resolution_date = Some(now.duplicate());
    }

    /// Sets the resolution status, resolved now.
    pub fn mark_resolved(&mut self, status: ResolutionStatus)
        ensures
            old(self)@.wf() ==> final(self)@.wf(),
            final(self)@.resolution_date is Some,
            final(self)@ == (IssueModel {
                resolution_status: status,
                resolution_date: final(self)@.resolution_date,
                ..old(self)@
            }),
    {
        let now = Timestamp::now();
        self.mark_resolved_at(status, &now);
    }

    /// The values bound when the issue is inserted at `now`: the mapped
    /// columns, then the row's creation time and an empty update time. The
    /// row decodes back to the same issue, lists in the same order, when its
    /// timestamps parse.
    pub fn to_row(&self, now: &Timestamp) -> (r: Vec<SqlValue>)
        ensures
            r.deep_view() == issue_row(self@) + seq![Cell::Text(now@), Cell::Null],
            self@.wf() ==> issue_of_row(r.deep_view()) == Ok::<IssueModel, StoreError>(self@),
    {
        let mut r: Vec<SqlValue> = Vec::new();
        r.push(text_value(self.id.as_str()));
        r.push(text_value(self.user_id.as_str()));
        r.push(text_value(self.issue_description.as_str()));
        r.push(list_value(&self.symptoms));
        r.push(opt_text_value(&self.root_cause));
        r.push(opt_text_value(&self.workaround));
        r.push(opt_text_value(&self.permanent_solution));
        r.push(list_value(&self.affected_components));
        r.push(text_value(self.severity.as_str()));
        r.push(text_value(self.issue_category.as_str()));
        r.push(text_value(self.learned_date.as_str()));
        r.push(text_value(self.resolution_status.as_str()));
        r.push(opt_stamp_value(&self.resolution_date));
        r.push(opt_text_value(&self.prevention_notes));
        r.push(list_value(&self.project_contexts));
        let ghost mapped = r.deep_view();
        r.push(text_value(now.as_str()));
        r.push(SqlValue::Null);
        let ghost m = self@;
        assert(mapped =~= issue_row(m));
        assert(r.deep_view() =~= issue_row(m) + seq![Cell::Text(now@), Cell::Null]);
        proof {
            if m.wf() {
                let row = r.deep_view();
                assert(forall|i: int| 0 <= i < 15 ==> row[i] == mapped[i]);
                assert(fits_all(row, issue_kinds()));
                m.severity.lemma_code_round_trip();
                m.issue_category.lemma_code_round_trip();
                m.resolution_status.lemma_code_round_trip();
                lemma_stamp_cell(m.resolution_date);
                assert(list_cell(row[3]) == m.symptoms);
                assert(list_cell(row[7]) == m.affected_components);
                assert(list_cell(row[14]) == m.project_contexts);
                assert(issue_of_row(row) == Ok::<IssueModel, StoreError>(m));
            }
        }
        r
    }

    /// The values an update binds at `now`: every mapped column of the stored
    /// row but the id, the owner and the learned date, in column order; then
    /// the update time `now`, and the id that selects the row.
    pub fn update_params(&self, now: &Timestamp) -> (r: Vec<SqlValue>)
        ensures
            r.deep_view() == issue_update_row(self@, now@),
    {
        let mut r: Vec<SqlValue> = Vec::new();
        r.push(text_value(self.issue_description.as_str()));
        r.push(list_value(&self.symptoms));
        r.push(opt_text_value(&self.root_cause));
        r.push(opt_text_value(&self.workaround));
        r.push(opt_text_value(&self.permanent_solution));
        r.push(list_value(&self.affected_components));
        r.push(text_value(self.severity.as_str()));
        r.push(text_value(self.issue_category.as_str()));
        r.push(text_value(self.resolution_status.as_str()));
        r.push(opt_stamp_value(&self.resolution_date));
        r.push(opt_text_value(&self.prevention_notes));
        r.push(list_value(&self.project_contexts));
        r.push(text_value(now.as_str()));
        r.push(text_value(self.id.as_str()));
        assert(r.deep_view() =~= issue_update_row(self@, now@));
        r
    }
}

impl KnownIssue {
    /// An issue as a create request describes it: unresolved, with the given
    /// affected components, a fresh id and learned now.
    pub fn from_request(
        user_id: &str,
        issue_description: &str,
        category: &str,
        severity: &str,
        affected_components: Vec<String>,
    ) -> (r: KnownIssue)
        ensures
            r.id@.len() == 36,
            r@.wf(),
            r@.user_id == user_id@,
            r@.issue_description == issue_description@,
            r@.symptoms.len() == 0,
            r@.root_cause is None,
            r@.workaround is None,
            r@.permanent_solution is None,
            r@.affected_components == affected_components.deep_view(),
            r@.severity == IssueSeverity::from_code(severity@),
            r@.issue_category == IssueCategory::from_code(category@),
            r@.resolution_status == ResolutionStatus::Unresolved,
            r@.resolution_date is None,
            r@.prevention_notes is None,
            r@.project_contexts.len() == 0,
    {
        let mut i = KnownIssue::new(
            user_id.to_owned(),
            issue_description.to_owned(),
            IssueSeverity::from_str(severity),
            IssueCategory::from_str(category),
        );
        i.affected_components = affected_components;
        i
    }

    /// Applies the description an edit request carries, if any.
    pub fn apply_edits(&mut self, issue_description: Option<&str>)
        ensures
            final(self)@ == (IssueModel {
                issue_description: match issue_description {
                    Some(t) => t@,
                    None => old(self)@.issue_description,
                },
                ..old(self)@
            }),
    {
        if let Some(t) = issue_description {
            self.issue_description = t.to_owned();
        }
    }
}

/// The issues of a user, from the rows the engine returned, in row order.
pub fn find_issues_by_user(rows: &Vec<Vec<SqlValue>>, user_id: &str) -> (r: Result<
    Vec<KnownIssue>,
    StoreError,
>)
    ensures
        match r {
            Ok(v) => ranked_selection::<KnownIssue>(rows.deep_view(), seq![(1usize, user_id@)], models(v@)),
            Err(e) => selected::<KnownIssue>(rows.deep_view(), seq![(1usize, user_id@)]) == Err::<
                Seq<IssueModel>,
                StoreError,
            >(e),
        },
{
    let f = user_filter(user_id);
    select_ranked(rows, &f)
}

/// The issues of a user whose column `column` holds `value`, from the rows
/// the engine returned.
fn find_issues_where(rows: &Vec<Vec<SqlValue>>, user_id: &str, column: usize, value: &str) -> (r:
    Result<Vec<KnownIssue>, StoreError>)
    ensures
        match r {
            Ok(v) => ranked_selection::<KnownIssue>(rows.deep_view(),
                seq![(1usize, user_id@), (column, value@)], models(v@)),
            Err(e) => selected::<KnownIssue>(
                rows.deep_view(),
                seq![(1usize, user_id@), (column, value@)],
            ) == Err::<Seq<IssueModel>, StoreError>(e),
        },
{
    let f = user_column_filter(user_id, column, value);
    select_ranked(rows, &f)
}

/// The issues of a user with a resolution status.
pub fn find_issues_by_status(rows: &Vec<Vec<SqlValue>>, user_id: &str, status: &str) -> (r:
    Result<Vec<KnownIssue>, StoreError>)
    ensures
        match r {
            Ok(v) => ranked_selection::<KnownIssue>(rows.deep_view(),
                seq![(1usize, user_id@), (11usize, status@)], models(v@)),
            Err(e) => selected::<KnownIssue>(
                rows.deep_view(),
                seq![(1usize, user_id@), (11usize, status@)],
            ) == Err::<Seq<IssueModel>, StoreError>(e),
        },
{
    find_issues_where(rows, user_id, 11, status)
}

/// The issues of a user with a severity.
pub fn find_issues_by_severity(rows: &Vec<Vec<SqlValue>>, user_id: &str, severity: &str) -> (r:
    Result<Vec<KnownIssue>, StoreError>)
    ensures
        match r {
            Ok(v) => ranked_selection::<KnownIssue>(rows.deep_view(),
                seq![(1usize, user_id@), (8usize, severity@)], models(v@)),
            Err(e) => selected::<KnownIssue>(
                rows.deep_view(),
                seq![(1usize, user_id@), (8usize, severity@)],
            ) == Err::<Seq<IssueModel>, StoreError>(e),
        },
{
    find_issues_where(rows, user_id, 8, severity)
}

/// The issues of a user in a category.
pub fn find_issues_by_category(rows: &Vec<Vec<SqlValue>>, user_id: &str, category: &str) -> (r:
    Result<Vec<KnownIssue>, StoreError>)
    ensures
        match r {
            Ok(v) => ranked_selection::<KnownIssue>(rows.deep_view(),
                seq![(1usize, user_id@), (9usize, category@)], models(v@)),
            Err(e) => selected::<KnownIssue>(
                rows.deep_view(),
                seq![(1usize, user_id@), (9usize, category@)],
            ) == Err::<Seq<IssueModel>, StoreError>(e),
        },
{
    find_issues_where(rows, user_id, 9, category)
}

/// Whether an issue names a component among those it affects.
pub open spec fn affects(m: IssueModel, component: Seq<char>) -> bool {
    m.affected_components.contains(component)
}

/// The issues, in order, that affect a component.
pub open spec fn affecting(ms: Seq<IssueModel>, component: Seq<char>) -> Seq<IssueModel> {
    ms.filter(|m: IssueModel| affects(m, component))
}

/// The issues of a user that affect a component. The components are a
/// serialised list, so this filters the user's decoded issues in memory,
/// keeping their order.
pub fn find_issues_by_component(rows: &Vec<Vec<SqlValue>>, user_id: &str, component: &str) -> (r:
    Result<Vec<KnownIssue>, StoreError>)
    ensures
        match r {
            Ok(v) => exists|ms: Seq<IssueModel>|
                selected::<KnownIssue>(rows.deep_view(), seq![(1usize, user_id@)]) == Ok::<
                    Seq<IssueModel>,
                    StoreError,
                >(ms) && models(v@).to_multiset() == affecting(ms, component@).to_multiset() && ranked::<KnownIssue>(
                    models(v@),
                ),
            Err(e) => selected::<KnownIssue>(rows.deep_view(), seq![(1usize, user_id@)]) == Err::<
                Seq<IssueModel>,
                StoreError,
            >(e),
        },
{
    let f = user_filter(user_id);
    let all = match select::<KnownIssue>(rows, &f) {
        Ok(v) => v,
        Err(e) => {
            return Err(e);
        },
    };
    let ghost ms = models(all@);
    let ghost pred = |m: IssueModel| affects(m, component@);
    let out = keep_where(
        all,
        (|i: &KnownIssue| -> (b: bool)
            ensures
                b == affects(i@, component@),
            { texts_contain(&i.affected_components, component) }),
        Ghost(pred),
    );
    assert(pred =~= (|m: IssueModel| affects(m, component@)));
    assert(models(out@) == affecting(ms, component@));
    Ok(rank(out))
}

/// The issue with an id, from the rows a lookup returned.
pub fn find_issue_by_id(rows: &Vec<Vec<SqlValue>>) -> (r: Result<Option<KnownIssue>, StoreError>)
    ensures
        rows@.len() == 0 ==> r == Ok::<Option<KnownIssue>, StoreError>(None),
        rows@.len() > 0 ==> match r {
            Ok(Some(d)) => issue_of_row(rows@[0].deep_view()) == Ok::<IssueModel, StoreError>(d@),
            Ok(None) => false,
            Err(e) => issue_of_row(rows@[0].deep_view()) == Err::<IssueModel, StoreError>(e),
        },
{
    lookup_outcome(rows)
}

/// A component finder returns only issues of the user that affect the component.
pub proof fn lemma_component_finder(
    rows: Seq<Seq<Cell>>,
    user_id: Seq<char>,
    ms: Seq<IssueModel>,
    component: Seq<char>,
)
    requires
        selected::<KnownIssue>(rows, seq![(1usize, user_id)]) == Ok::<Seq<IssueModel>, StoreError>(
            ms,
        ),
    ensures
        forall|k: int|
            0 <= k < affecting(ms, component).len() ==> (#[trigger] affecting(ms, component)[k]).user_id
                == user_id && affects(affecting(ms, component)[k], component),
{
    let pred = |m: IssueModel| affects(m, component);
    let f = seq![(1usize, user_id)];
    lemma_selected_meets::<KnownIssue>(rows, f, ms);
    broadcast use vstd::seq_lib::group_filter_ensures;

    assert forall|k: int| 0 <= k < affecting(ms, component).len() implies (#[trigger] affecting(
        ms,
        component,
    )[k]).user_id == user_id && affects(affecting(ms, component)[k], component) by {
        let x = ms.filter(pred)[k];
        assert(ms.filter(pred).contains(x));
        ms.lemma_filter_contains_rev(pred, x);
        let i = choose|i: int| 0 <= i < ms.len() && ms[i] == x;
        assert(from_meeting_row::<KnownIssue>(rows, f, ms[i]));
        let j = choose|j: int|
            0 <= j < rows.len() && meets(#[trigger] rows[j], f) && issue_of_row(rows[j]) == Ok::<
                IssueModel,
                StoreError,
            >(ms[i]);
        assert(column_is(rows[j], f[0].0 as int, f[0].1));
    }
}

/// Issues are listed newest learned first.
impl Ranked for KnownIssue {
    open spec fn precedes(a: IssueModel, b: IssueModel) -> bool {
        text_le(b.learned_date, a.learned_date)
    }

    proof fn lemma_precedes_total(a: IssueModel, b: IssueModel) {
        lemma_text_le_total(a.learned_date, b.learned_date);
    }

    fn may_precede(&self, other: &KnownIssue) -> (r: bool) {
        text_at_or_before(other.learned_date.as_str(), self.learned_date.as_str())
    }
}

} // verus!
