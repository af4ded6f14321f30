use vstd::prelude::*;
use crate::clock::{is_rfc3339, Timestamp};
use crate::codes::PreferenceType;
use crate::ident::fresh_id;
use crate::json::json_of_texts;
use crate::rank::{rank, ranked, ranked_selection, select_ranked, Ranked};
use crate::row::{check_columns, count_at, keep_where, fits, fits_all, flag_at, list_at, list_cell, list_value, lookup_outcome, misfit_error, models, number_cell, opt_cell, opt_stamp_at, opt_stamp_value, opt_text_at, opt_text_cell, opt_text_value, select, selected, stamp_at, stamp_cell, stamp_wf, text_at, text_cell, text_value, user_column_filter, user_filter, Cell, ColumnKind, Record, SqlValue, StoreError};
use crate::scope::{decode_scope, encode_scope, lemma_scope_round_trip, ContextScope, ScopeModel};

verus! {

/// A preference the user has shown, and how often it was observed.
#[derive(Debug, Clone, PartialEq)]
pub struct UserPreference {
    pub id: String,
    pub user_id: String,
    pub preference_name: String,
    pub preference_value: String,
    pub preference_type: PreferenceType,
    pub scope: ContextScope,
    pub applies_to_automation: bool,
    pub rationale: Option<String>,
    pub priority: u32,
    pub frequency_observed: u32,
    pub tags: Vec<String>,
    pub created_at: Timestamp,
    pub updated_at: Option<Timestamp>,
    pub last_referenced: Option<Timestamp>,
}

/// The mathematical value of a [`UserPreference`].
pub struct PreferenceModel {
    pub id: Seq<char>,
    pub user_id: Seq<char>,
    pub preference_name: Seq<char>,
    pub preference_value: Seq<char>,
    pub preference_type: PreferenceType,
    pub scope: ScopeModel,
    pub applies_to_automation: bool,
    pub rationale: Option<Seq<char>>,
    pub priority: int,
    pub frequency_observed: int,
    pub tags: Seq<Seq<char>>,
    pub created_at: Seq<char>,
    pub updated_at: Option<Seq<char>>,
    pub last_referenced: Option<Seq<char>>,
}

impl View for UserPreference {
    type V = PreferenceModel;

    open spec fn view(&self) -> PreferenceModel {
        PreferenceModel {
            id: self.id@,
            user_id: self.user_id@,
            preference_name: self.preference_name@,
            preference_value: self.preference_value@,
            preference_type: self.preference_type,
            scope: self.scope@,
            applies_to_automation: self.applies_to_automation,
            rationale: self.rationale.deep_view(),
            priority: self.priority as int,
            frequency_observed: self.frequency_observed as int,
            tags: self.tags.deep_view(),
            created_at: self.created_at@,
            updated_at: self.updated_at.deep_view(),
            last_referenced: self.last_referenced.deep_view(),
        }
    }
}

impl PreferenceModel {
    /// Every timestamp the preference holds is RFC 3339 text.
    pub open spec fn wf(self) -> bool {
        is_rfc3339(self.created_at) && stamp_wf(self.updated_at) && stamp_wf(self.last_referenced)
    }

    /// The preference after one more observation at `now`.
    pub open spec fn observed(self, now: Seq<char>) -> PreferenceModel {
        PreferenceModel {
            frequency_observed: self.frequency_observed + 1,
            last_referenced: Some(now),
            updated_at: Some(now),
            ..self
        }
    }
}

/// The column order of the preferences table.
pub open spec fn preference_kinds() -> Seq<ColumnKind> {
    seq![
        ColumnKind::Text,
        ColumnKind::Text,
        ColumnKind::Text,
        ColumnKind::Text,
        ColumnKind::Text,
        ColumnKind::Text,
        ColumnKind::Flag,
        ColumnKind::OptText,
        ColumnKind::Count,
        ColumnKind::Count,
        ColumnKind::Text,
        ColumnKind::Text,
        ColumnKind::OptText,
        ColumnKind::OptText,
    ]
}

/// The stored form of a flag.
pub open spec fn flag_number(b: bool) -> int {
    if b {
        1
    } else {
        0
    }
}

/// The row that stores a preference.
pub open spec fn preference_row(m: PreferenceModel) -> Seq<Cell> {
    seq![
        Cell::Text(m.id),
        Cell::Text(m.user_id),
        Cell::Text(m.preference_name),
        Cell::Text(m.preference_value),
        Cell::Text(m.preference_type.code()),
        Cell::Text(encode_scope(m.scope)),
        Cell::Integer(flag_number(m.applies_to_automation)),
        opt_cell(m.rationale),
        Cell::Integer(m.priority),
        Cell::Integer(m.frequency_observed),
        Cell::Text(json_of_texts(m.tags)),
        Cell::Text(m.created_at),
        opt_cell(m.updated_at),
        opt_cell(m.last_referenced),
    ]
}

/// The values an update of a preference binds at `now`.
pub open spec fn preference_update_row(m: PreferenceModel, now: Seq<char>) -> Seq<Cell> {
    let row = preference_row(PreferenceModel { updated_at: Some(now), ..m });
    row.subrange(2, 11) + row.subrange(12, 14) + seq![Cell::Text(m.id)]
}

/// The preference a row stores. A creation time that does not parse is an
/// encoding failure; tags that do not parse are empty.
pub open spec fn preference_of_row(row: Seq<Cell>) -> Result<PreferenceModel, StoreError> {
    if !fits_all(row, preference_kinds()) {
        Err(misfit_error(row, preference_kinds()))
    } else if !is_rfc3339(text_cell(row[11])) {
        Err(StoreError::Encoding(11))
    } else {
        Ok(
            PreferenceModel {
                id: text_cell(row[0]),
                user_id: text_cell(row[1]),
                preference_name: text_cell(row[2]),
                preference_value: text_cell(row[3]),
                preference_type: PreferenceType::from_code(text_cell(row[4])),
                scope: decode_scope(text_cell(row[5])),
                applies_to_automation: number_cell(row[6]) != 0,
                rationale: opt_text_cell(row[7]),
                priority: number_cell(row[8]),
                frequency_observed: number_cell(row[9]),
                tags: list_cell(row[10]),
                created_at: text_cell(row[11]),
                updated_at: stamp_cell(row[12]),
                last_referenced: stamp_cell(row[13]),
            },
        )
    }
}

fn preference_kind_list() -> (r: Vec<ColumnKind>)
    ensures
        r@ == preference_kinds(),
{
    let r = vec![
        ColumnKind::Text,
        ColumnKind::Text,
        ColumnKind::Text,
        ColumnKind::Text,
        ColumnKind::Text,
        ColumnKind::Text,
        ColumnKind::Flag,
        ColumnKind::OptText,
        ColumnKind::Count,
        ColumnKind::Count,
        ColumnKind::Text,
        ColumnKind::Text,
        ColumnKind::OptText,
        ColumnKind::OptText,
    ];
    assert(r@ =~= preference_kinds());
    r
}

impl Record for UserPreference {
    open spec fn model_of_row(row: Seq<Cell>) -> Result<PreferenceModel, StoreError> {
        preference_of_row(row)
    }

    fn from_row(row: &Vec<SqlValue>) -> (r: Result<UserPreference, StoreError>) {
        let kinds = preference_kind_list();
        let ghost cells = row.deep_view();
        match check_columns(row, &kinds) {
            Err(e) => {
                return Err(e);
            },
            Ok(()) => {},
        }
        assert(forall|i: int| 0 <= i < 14 ==> cells[i] == row@[i]@);
        assert(fits(cells[6], ColumnKind::Flag));
        assert(fits(cells[8], ColumnKind::Count));
        assert(fits(cells[9], ColumnKind::Count));
        let created_at = match stamp_at(row, 11) {
            Ok(t) => t,
            Err(e) => {
                return Err(e);
            },
        };
        let kind = text_at(row, 4);
        let scope = text_at(row, 5);
        Ok(
            UserPreference {
                id: text_at(row, 0),
                user_id: text_at(row, 1),
                preference_name: text_at(row, 2),
                preference_value: text_at(row, 3),
                preference_type: PreferenceType::from_str(kind.as_str()),
                scope: ContextScope::from_str(scope.as_str()),
                applies_to_automation: flag_at(row, 6),
                rationale: opt_text_at(row, 7),
                priority: count_at(row, 8),
                frequency_observed: count_at(row, 9),
                tags: list_at(row, 10),
                created_at,
                updated_at: opt_stamp_at(row, 12),
                last_referenced: opt_stamp_at(row, 13),
            },
        )
    }
}

impl UserPreference {
    /// A new preference with a fresh id, created now: applies to automation,
    /// priority 3, observed once, without tags.
    pub fn new(
        user_id: String,
        preference_name: String,
        preference_value: String,
        preference_type: PreferenceType,
        scope: ContextScope,
    ) -> (r: UserPreference)
        ensures
            r.id@.len() == 36,
            r@.wf(),
            r@.user_id == user_id@,
            r@.preference_name == preference_name@,
            r@.preference_value == preference_value@,
            r@.preference_type == preference_type,
            r@.scope == scope@,
            r@.applies_to_automation,
            r@.rationale is None,
            r@.priority == 3,
            r@.frequency_observed == 1,
            r@.tags.len() == 0,
            r@.updated_at is None,
            r@.last_referenced is None,
    {
        UserPreference {
            id: fresh_id(),
            user_id,
            preference_name,
            preference_value,
            preference_type,
            scope,
            applies_to_automation: true,
            rationale: None,
            priority: 3,
            frequency_observed: 1,
            tags: Vec::new(),
            created_at: Timestamp::now(),
            updated_at: None,
            last_referenced: None,
        }
    }

    /// The preference with a rationale.
    pub fn with_rationale(self, rationale: String) -> (r: UserPreference)
        ensures
            r@ == (PreferenceModel { rationale: Some(rationale@), ..self@ }),
    {
        let mut p = self;
        p.rationale = Some(rationale);
        p
    }

    /// The preference with tags, in the given order.
    pub fn with_tags(self, tags: Vec<String>) -> (r: UserPreference)
        ensures
            r@ == (PreferenceModel { tags: tags.deep_view(), ..self@ }),
    {
        let mut p = self;
        p.tags = tags;
        p
    }

    /// Records one more observation at `now`.
    pub fn increment_frequency_at(&mut self, now: &Timestamp)
        requires
            old(self).frequency_observed < u32::MAX,
        ensures
            final(self)@ == old(self)@.observed(now@),
    {
        self.frequency_observed = self.frequency_observed + 1;
        self.last_referenced = Some(now.duplicate());
        self.updated_at = Some(now.duplicate());
    }

    /// Records one more observation now.
    pub fn increment_frequency(&mut self)
        requires
            old(self).frequency_observed < u32::MAX,
        ensures
            old(self)@.wf() ==> final(self)@.wf(),
            final(self)@.last_referenced is Some,
            final(self)@ == old(self)@.observed(final(self)@.last_referenced->Some_0),
    {
        let now = Timestamp::now();
        self.increment_frequency_at(&now);
    }

    /// The values bound when the preference is inserted, in column order. The
    /// row decodes back to the same preference when its timestamps parse.
    pub fn to_row(&self) -> (r: Vec<SqlValue>)
        ensures
            r.deep_view() == preference_row(self@),
            self@.wf() ==> preference_of_row(r.deep_view()) == Ok::<PreferenceModel, StoreError>(
                self@,
            ),
    {
        let mut r: Vec<SqlValue> = Vec::new();
        r.push(text_value(self.id.as_str()));
        r.push(text_value(self.user_id.as_str()));
        r.push(text_value(self.preference_name.as_str()));
        r.push(text_value(self.preference_value.as_str()));
        r.push(text_value(self.preference_type.as_str()));
        let scope = self.scope.to_string();
        r.push(text_value(scope.as_str()));
        r.push(SqlValue::Integer(if self.applies_to_automation { 1 } else { 0 }));
        r.push(opt_text_value(&self.rationale));
        r.push(SqlValue::Integer(self.priority as i64));
        r.push(SqlValue::Integer(self.frequency_observed as i64));
        r.push(list_value(&self.tags));
        r.push(text_value(self.created_at.as_str()));
        r.push(opt_stamp_value(&self.updated_at));
        r.push(opt_stamp_value(&self.last_referenced));
        let ghost m = self@;
        assert(r.deep_view() =~= preference_row(m));
        proof {
            if m.wf() {
                let row = r.deep_view();
                assert(fits_all(row, preference_kinds()));
                m.preference_type.lemma_code_round_trip();
                lemma_scope_round_trip(m.scope);
                assert(list_cell(row[10]) == m.tags);
            }
        }
        r
    }

    /// The values an update binds at `now`: every column of the stored row
    /// but the id, the owner and the creation time, in column order, with the
    /// update time set to `now`; then the id that selects the row.
    pub fn update_params(&self, now: &Timestamp) -> (r: Vec<SqlValue>)
        ensures
            r.deep_view() == preference_update_row(self@, now@),
    {
        let mut r: Vec<SqlValue> = Vec::new();
        r.push(text_value(self.preference_name.as_str()));
        r.push(text_value(self.preference_value.as_str()));
        r.push(text_value(self.preference_type.as_str()));
        r.push(text_value(self.scope.to_string().as_str()));
        r.push(SqlValue::Integer(if self.applies_to_automation { 1 } else { 0 }));
        r.push(opt_text_value(&self.rationale));
        r.push(SqlValue::Integer(self.priority as i64));
        r.push(SqlValue::Integer(self.frequency_observed as i64));
        r.push(list_value(&self.tags));
        r.push(text_value(now.as_str()));
        r.push(opt_stamp_value(&self.last_referenced));
        r.push(text_value(self.id.as_str()));
        assert(r.deep_view() =~= preference_update_row(self@, now@));
        r
    }
}

impl UserPreference {
    /// A preference as a create request describes it: global, priority 3,
    /// observed once, tags as given (none when absent), a fresh id and the
    /// current time.
    pub fn from_request(
        user_id: &str,
        preference_name: &str,
        preference_value: &str,
        preference_type: &str,
        applies_to_automation: bool,
        tags: Option<Vec<String>>,
    ) -> (r: UserPreference)
        ensures
            r.id@.len() == 36,
            r@.wf(),
            r@.user_id == user_id@,
            r@.preference_name == preference_name@,
            r@.preference_value == preference_value@,
            r@.preference_type == PreferenceType::from_code(preference_type@),
            r@.scope == ScopeModel::Global,
            r@.applies_to_automation == applies_to_automation,
            r@.rationale is None,
            r@.priority == 3,
            r@.frequency_observed == 1,
            r@.tags == match tags {
                Some(t) => t.deep_view(),
                None => Seq::<Seq<char>>::empty(),
            },
            r@.updated_at is None,
            r@.last_referenced is None,
    {
        let mut p = UserPreference::new(
            user_id.to_owned(),
            preference_name.to_owned(),
            preference_value.to_owned(),
            PreferenceType::from_str(preference_type),
            ContextScope::Global,
        );
        p.applies_to_automation = applies_to_automation;
        match tags {
            Some(t) => {
                p.tags = t;
            },
            None => {
                assert(p@.tags =~= Seq::<Seq<char>>::empty());
            },
        }
        p
    }

    /// Applies the fields an edit request carries, stamped at `now`; absent
    /// fields keep their value.
    pub fn apply_edits(
        &mut self,
        preference_value: Option<&str>,
        tags: Option<Vec<String>>,
        now: &Timestamp,
    )
        ensures
            final(self)@ == (PreferenceModel {
                preference_value: match preference_value {
                    Some(t) => t@,
                    None => old(self)@.preference_value,
                },
                tags: match tags {
                    Some(t) => t.deep_view(),
                    None => old(self)@.tags,
                },
                updated_at: Some(now@),
                ..old(self)@
            }),
    {
        if let Some(t) = preference_value {
            self.preference_value = t.to_owned();
        }
        if let Some(t) = tags {
            self.tags = t;
        }
        self.updated_at = Some(now.duplicate());
    }
}

/// The preferences of a user, from the rows the engine returned, in row order.
pub fn find_preferences_by_user(rows: &Vec<Vec<SqlValue>>, user_id: &str) -> (r: Result<
    Vec<UserPreference>,
    StoreError,
>)
    ensures
        match r {
            Ok(v) => ranked_selection::<UserPreference>(rows.deep_view(), seq![(1usize, user_id@)], models(v@)),
            Err(e) => selected::<UserPreference>(rows.deep_view(), seq![(1usize, user_id@)])
                == Err::<Seq<PreferenceModel>, StoreError>(e),
        },
{
    let f = user_filter(user_id);
    select_ranked(rows, &f)
}

/// The preferences of a user in a scope.
pub fn find_preferences_by_scope(rows: &Vec<Vec<SqlValue>>, user_id: &str, scope: &str) -> (r:
    Result<Vec<UserPreference>, StoreError>)
    ensures
        match r {
            Ok(v) => ranked_selection::<UserPreference>(rows.deep_view(),
                seq![(1usize, user_id@), (5usize, scope@)], models(v@)),
            Err(e) => selected::<UserPreference>(
                rows.deep_view(),
                seq![(1usize, user_id@), (5usize, scope@)],
            ) == Err::<Seq<PreferenceModel>, StoreError>(e),
        },
{
    let f = user_column_filter(user_id, 5, scope);
    select_ranked(rows, &f)
}

/// The preferences of a user of a type.
pub fn find_preferences_by_type(rows: &Vec<Vec<SqlValue>>, user_id: &str, pref_type: &str) -> (r:
    Result<Vec<UserPreference>, StoreError>)
    ensures
        match r {
            Ok(v) => ranked_selection::<UserPreference>(rows.deep_view(),
                seq![(1usize, user_id@), (4usize, pref_type@)], models(v@)),
            Err(e) => selected::<UserPreference>(
                rows.deep_view(),
                seq![(1usize, user_id@), (4usize, pref_type@)],
            ) == Err::<Seq<PreferenceModel>, StoreError>(e),
        },
{
    let f = user_column_filter(user_id, 4, pref_type);
    select_ranked(rows, &f)
}

/// The preferences, in order, that apply to automation.
pub open spec fn automation_applicable(ms: Seq<PreferenceModel>) -> Seq<PreferenceModel> {
    ms.filter(|m: PreferenceModel| m.applies_to_automation)
}

/// The preferences of a user that apply to automation, keeping their order.
pub fn find_automation_applicable_preferences(rows: &Vec<Vec<SqlValue>>, user_id: &str) -> (r:
    Result<Vec<UserPreference>, StoreError>)
    ensures
        match r {
            Ok(v) => exists|ms: Seq<PreferenceModel>|
                selected::<UserPreference>(rows.deep_view(), seq![(1usize, user_id@)]) == Ok::<
                    Seq<PreferenceModel>,
                    StoreError,
                >(ms) && models(v@).to_multiset() == automation_applicable(ms).to_multiset() && ranked::<UserPreference>(
                    models(v@),
                ),
            Err(e) => selected::<UserPreference>(rows.deep_view(), seq![(1usize, user_id@)])
                == Err::<Seq<PreferenceModel>, StoreError>(e),
        },
{
    let f = user_filter(user_id);
    let all = match select::<UserPreference>(rows, &f) {
        Ok(v) => v,
        Err(e) => {
            return Err(e);
        },
    };
    let ghost ms = models(all@);
    let ghost pred = |m: PreferenceModel| m.applies_to_automation;
    let out = keep_where(
        all,
        (|p: &UserPreference| -> (b: bool)
            ensures
                b == p@.applies_to_automation,
            { p.applies_to_automation }),
        Ghost(pred),
    );
    assert(pred =~= (|m: PreferenceModel| m.applies_to_automation));
    assert(models(out@) == automation_applicable(ms));
    Ok(rank(out))
}

/// The preference with an id, from the rows a lookup returned.
pub fn find_preference_by_id(rows: &Vec<Vec<SqlValue>>) -> (r: Result<Option<UserPreference>, StoreError>)
    ensures
        rows@.len() == 0 ==> r == Ok::<Option<UserPreference>, StoreError>(None),
        rows@.len() > 0 ==> match r {
            Ok(Some(p)) => preference_of_row(rows@[0].deep_view()) == Ok::<
                PreferenceModel,
                StoreError,
            >(p@),
            Ok(None) => false,
            Err(e) => preference_of_row(rows@[0].deep_view()) == Err::<PreferenceModel, StoreError>(
                e,
            ),
        },
{
    lookup_outcome(rows)
}

/// Preferences are listed by ascending priority.
impl Ranked for UserPreference {
    open spec fn precedes(a: PreferenceModel, b: PreferenceModel) -> bool {
        a.priority <= b.priority
    }

    proof fn lemma_precedes_total(a: PreferenceModel, b: PreferenceModel) {
    }

    fn may_precede(&self, other: &UserPreference) -> (r: bool) {
        self.priority <= other.priority
    }
}

} // verus!
