//! The query builder and remote-service client state. The builder is a
//! fluent accumulator of filters, projection, ordering and paging that
//! renders into the service's URL-encoded filter grammar
//! (`column=operator.value`, values percent-encoded); the classifier maps
//! an HTTP failure onto the typed error taxonomy. The transport itself
//! (sending the rendered request, reading the body) lives outside this
//! crate and hands the classifier plain status and text.

use vstd::prelude::*;
use vstd::string::StrSliceExecFns;
use vstd::string::StringExecFns;
use crate::strutil::spec_dec_digits;
use crate::strutil::spec_join;
use crate::strutil::spec_contains;
use crate::strutil::spec_is_blank;
use crate::strutil::spec_trim_end_len;
use crate::strutil::spec_trim_start_len;
use crate::strutil::spec_split;
use crate::strutil::u64_to_dec;
use crate::strutil::i64_to_dec;
use crate::strutil::str_contains;
use crate::strutil::str_ends_with;
use crate::strutil::str_trim_end_matches;
use crate::strutil::str_trim_start_matches;
use crate::strutil::str_split;
use crate::strutil::lemma_split_len;
use crate::supabase_error::SupabaseError;
use crate::supabase_error::SupabaseErrorView;
use crate::supabase_error::spec_extract_table_name;
use crate::supabase_error::spec_extract_table_and_column;
use crate::supabase_error::extract_table_name;
use crate::supabase_error::extract_table_and_column;

verus! {

/// What `urlencoding::encode` returns for given text: a function of the
/// text alone.
pub uninterp spec fn percent_encoded(s: Seq<char>) -> Seq<char>;

/// A character the wire encoding keeps as itself.
pub open spec fn spec_is_unreserved(c: char) -> bool {
    ('0' <= c && c <= '9') || ('A' <= c && c <= 'Z') || ('a' <= c && c <= 'z') || c == '-'
        || c == '.' || c == '_' || c == '~'
}

/// Relies on urlencoding::encode: percent-encodes every byte except
/// alphanumerics and `-`, `.`, `_`, `~`; text made of unreserved
/// characters alone comes back unchanged.
#[verifier::external_body]
fn percent_encode(s: &str) -> (r: String)
    ensures
        r@ == percent_encoded(s@),
        (forall|i: int| 0 <= i < s@.len() ==> spec_is_unreserved(s@[i])) ==> r@ == s@,
{
    urlencoding::encode(s).into_owned()
}

/// What serde_json finds at the top-level "message" key of a body: a
/// function of the text alone.
pub uninterp spec fn json_message_of(s: Seq<char>) -> Option<Seq<char>>;

/// Relies on serde_json::from_str and Value::get: the string under the
/// body's top-level "message" key, when the body parses as JSON and has
/// one.
#[verifier::external_body]
fn json_message_field(body: &str) -> (r: Option<String>)
    ensures
        r.deep_view() == json_message_of(body@),
{
    match serde_json::from_str::<serde_json::Value>(body) {
        Ok(v) => match v.get("message") {
            Some(m) => match m.as_str() {
                Some(s) => Some(s.to_string()),
                None => None,
            },
            None => None,
        },
        Err(_) => None,
    }
}

pub struct SupabaseClient {
    pub base_url: String,
    pub api_key: String,
}

pub struct QueryBuilder {
    pub table: String,
    pub filters: Vec<String>,
    pub select_columns: Option<String>,
    pub limit_value: Option<usize>,
    pub order_by: Option<(String, bool)>,
}

/// The mathematical value of a query under construction.
#[verifier::ext_equal]
pub struct QueryView {
    pub table: Seq<char>,
    pub filters: Seq<Seq<char>>,
    pub select_columns: Option<Seq<char>>,
    pub limit_value: Option<usize>,
    pub order_by: Option<(Seq<char>, bool)>,
}

impl View for QueryBuilder {
    type V = QueryView;

    open spec fn view(&self) -> QueryView {
        QueryView {
            table: self.table@,
            filters: self.filters.deep_view(),
            select_columns: self.select_columns.deep_view(),
            limit_value: self.limit_value,
            order_by: self.order_by.deep_view(),
        }
    }
}

/// One rendered filter: `column=operator.value`.
pub open spec fn spec_filter(column: Seq<char>, op: Seq<char>, value: Seq<char>) -> Seq<char> {
    column + "="@ + op + "."@ + value
}

/// A builder with one more filter and nothing else changed.
pub open spec fn spec_with_filter(q: QueryView, f: Seq<char>) -> QueryView {
    QueryView { filters: q.filters.push(f), ..q }
}

/// The rendered parameter list of a read: projection first, then the
/// filters in the order they were added, then the page limit, then the
/// ordering.
pub open spec fn spec_query_params(q: QueryView) -> Seq<Seq<char>> {
    let base: Seq<Seq<char>> = match q.select_columns {
        Some(c) => seq!["select="@ + c],
        None => Seq::empty(),
    };
    let with_filters = base + q.filters;
    let with_limit = match q.limit_value {
        Some(l) => with_filters.push("limit="@ + spec_dec_digits(l as nat)),
        None => with_filters,
    };
    match q.order_by {
        Some(ob) => with_limit.push(
            "order="@ + ob.0 + "."@ + (if ob.1 {
                "asc"@
            } else {
                "desc"@
            }),
        ),
        None => with_limit,
    }
}

/// The path a read renders to: the table, then `?` and the parameters
/// joined with `&`, or the bare table when there is nothing to pass.
pub open spec fn spec_query_path(q: QueryView) -> Seq<char> {
    let params = spec_query_params(q);
    if params.len() == 0 {
        q.table
    } else {
        q.table + "?"@ + spec_join(params, '&')
    }
}

/// The path a mutation scope renders to: the filters alone select the
/// affected rows.
pub open spec fn spec_scope_path(q: QueryView) -> Seq<char> {
    if q.filters.len() == 0 {
        q.table
    } else {
        q.table + "?"@ + spec_join(q.filters, '&')
    }
}

/// The path of an exact count over the current filters.
pub open spec fn spec_count_path(q: QueryView) -> Seq<char> {
    q.table + "?"@ + spec_join(seq!["count=exact"@] + q.filters, '&')
}

fn make_filter(column: &str, op: &str, value: &str) -> (r: String)
    ensures
        r@ == spec_filter(column@, op@, value@),
{
    let mut s = column.to_owned();
    s.append("=");
    s.append(op);
    s.append(".");
    s.append(value);
    proof {
        assert(s@ =~= spec_filter(column@, op@, value@));
    }
    s
}

fn join_amp(parts: &Vec<String>) -> (r: String)
    ensures
        r@ == spec_join(parts.deep_view(), '&'),
{
    let mut out = String::new();
    let mut i: usize = 0;
    while i < parts.len()
        invariant
            0 <= i <= parts@.len(),
            out@ == spec_join(parts.deep_view().subrange(0, i as int), '&'),
        decreases parts@.len() - i,
    {
        if i > 0 {
            out.append("&");
        }
        out.append(parts[i].as_str());
        i += 1;
        proof {
            reveal_strlit("&");
            let dv = parts.deep_view();
            let pre = dv.subrange(0, i - 1);
            let post = dv.subrange(0, i as int);
            assert(post.drop_last() =~= pre);
            assert(post.last() == dv[i - 1]);
            assert(dv[i - 1] == parts@[i - 1]@);
            if i == 1 {
                assert(out@ =~= spec_join(post, '&'));
            } else {
                assert(out@ =~= spec_join(pre, '&') + seq!['&'] + dv[i - 1]);
            }
        }
    }
    proof {
        assert(parts.deep_view().subrange(0, parts.deep_view().len() as int)
            =~= parts.deep_view());
    }
    out
}

impl QueryBuilder {
    fn with_filter(self, f: String) -> (r: Self)
        ensures
            r@ == spec_with_filter(self@, f@),
    {
        let QueryBuilder { table, mut filters, select_columns, limit_value, order_by } = self;
        let ghost old_view = filters.deep_view();
        filters.push(f);
        let r = QueryBuilder { table, filters, select_columns, limit_value, order_by };
        proof {
            assert(r.filters.deep_view() =~= old_view.push(f@));
            assert(r@ =~= spec_with_filter(self@, f@));
        }
        r
    }

    /// Projects the listed columns.
    pub fn select(self, columns: &str) -> (r: Self)
        ensures
            r@ == (QueryView { select_columns: Some(columns@), ..self@ }),
    {
        let QueryBuilder { table, filters, select_columns: _, limit_value, order_by } = self;
        let r = QueryBuilder {
            table,
            filters,
            select_columns: Some(columns.to_owned()),
            limit_value,
            order_by,
        };
        proof {
            assert(r@ =~= (QueryView { select_columns: Some(columns@), ..self@ }));
        }
        r
    }

    /// Equality on text; the value is percent-encoded.
    pub fn eq(self, column: &str, value: &str) -> (r: Self)
        ensures
            r@ == spec_with_filter(
                self@,
                spec_filter(column@, "eq"@, percent_encoded(value@)),
            ),
    {
        let enc = percent_encode(value);
        let f = make_filter(column, "eq", enc.as_str());
        self.with_filter(f)
    }

    /// Equality on a boolean.
    pub fn eq_bool(self, column: &str, value: bool) -> (r: Self)
        ensures
            r@ == spec_with_filter(
                self@,
                spec_filter(column@, "eq"@, if value { "true"@ } else { "false"@ }),
            ),
    {
        let f = make_filter(column, "eq", if value { "true" } else { "false" });
        self.with_filter(f)
    }

    /// Equality on a number.
    pub fn eq_num(self, column: &str, value: i64) -> (r: Self)
        ensures
            r@ == spec_with_filter(
                self@,
                spec_filter(column@, "eq"@, crate::strutil::spec_dec_signed(value as int)),
            ),
    {
        let d = i64_to_dec(value);
        let f = make_filter(column, "eq", d.as_str());
        self.with_filter(f)
    }

    /// Inequality on text; the value is percent-encoded.
    pub fn neq(self, column: &str, value: &str) -> (r: Self)
        ensures
            r@ == spec_with_filter(
                self@,
                spec_filter(column@, "neq"@, percent_encoded(value@)),
            ),
    {
        let enc = percent_encode(value);
        let f = make_filter(column, "neq", enc.as_str());
        self.with_filter(f)
    }

    pub fn gt(self, column: &str, value: i64) -> (r: Self)
        ensures
            r@ == spec_with_filter(
                self@,
                spec_filter(column@, "gt"@, crate::strutil::spec_dec_signed(value as int)),
            ),
    {
        let d = i64_to_dec(value);
        let f = make_filter(column, "gt", d.as_str());
        self.with_filter(f)
    }

    pub fn gte(self, column: &str, value: i64) -> (r: Self)
        ensures
            r@ == spec_with_filter(
                self@,
                spec_filter(column@, "gte"@, crate::strutil::spec_dec_signed(value as int)),
            ),
    {
        let d = i64_to_dec(value);
        let f = make_filter(column, "gte", d.as_str());
        self.with_filter(f)
    }

    pub fn lt(self, column: &str, value: i64) -> (r: Self)
        ensures
            r@ == spec_with_filter(
                self@,
                spec_filter(column@, "lt"@, crate::strutil::spec_dec_signed(value as int)),
            ),
    {
        let d = i64_to_dec(value);
        let f = make_filter(column, "lt", d.as_str());
        self.with_filter(f)
    }

    pub fn lte(self, column: &str, value: i64) -> (r: Self)
        ensures
            r@ == spec_with_filter(
                self@,
                spec_filter(column@, "lte"@, crate::strutil::spec_dec_signed(value as int)),
            ),
    {
        let d = i64_to_dec(value);
        let f = make_filter(column, "lte", d.as_str());
        self.with_filter(f)
    }

    /// Pattern match; the pattern is percent-encoded.
    pub fn like(self, column: &str, pattern: &str) -> (r: Self)
        ensures
            r@ == spec_with_filter(
                self@,
                spec_filter(column@, "like"@, percent_encoded(pattern@)),
            ),
    {
        let enc = percent_encode(pattern);
        let f = make_filter(column, "like", enc.as_str());
        self.with_filter(f)
    }

    /// Case-insensitive pattern match; the pattern is percent-encoded.
    pub fn ilike(self, column: &str, pattern: &str) -> (r: Self)
        ensures
            r@ == spec_with_filter(
                self@,
                spec_filter(column@, "ilike"@, percent_encoded(pattern@)),
            ),
    {
        let enc = percent_encode(pattern);
        let f = make_filter(column, "ilike", enc.as_str());
        self.with_filter(f)
    }

    /// Membership in a set of values, each percent-encoded, joined with
    /// commas inside parentheses.
    pub fn in_list(self, column: &str, values: &Vec<String>) -> (r: Self)
        ensures
            r@ == spec_with_filter(
                self@,
                spec_filter(
                    column@,
                    "in"@,
                    "("@ + spec_join(
                        values.deep_view().map_values(|v: Seq<char>| percent_encoded(v)),
                        ',',
                    ) + ")"@,
                ),
            ),
    {
        let ghost target = values.deep_view().map_values(|v: Seq<char>| percent_encoded(v));
        let mut joined = String::new();
        let mut i: usize = 0;
        while i < values.len()
            invariant
                0 <= i <= values@.len(),
                target == values.deep_view().map_values(|v: Seq<char>| percent_encoded(v)),
                target.len() == values@.len(),
                joined@ == spec_join(target.subrange(0, i as int), ','),
            decreases values@.len() - i,
        {
            if i > 0 {
                joined.append(",");
            }
            let enc = percent_encode(values[i].as_str());
            joined.append(enc.as_str());
            i += 1;
            proof {
                reveal_strlit(",");
                let pre = target.subrange(0, i - 1);
                let post = target.subrange(0, i as int);
                assert(post.drop_last() =~= pre);
                assert(post.last() == target[i - 1]);
                assert(target[i - 1] == percent_encoded(values@[i - 1]@));
                if i == 1 {
                    assert(joined@ =~= spec_join(post, ','));
                } else {
                    assert(joined@ =~= spec_join(pre, ',') + seq![','] + target[i - 1]);
                }
            }
        }
        proof {
            assert(target.subrange(0, target.len() as int) =~= target);
        }
        let mut value = "(".to_owned();
        value.append(joined.as_str());
        value.append(")");
        proof {
            assert(value@ =~= "("@ + spec_join(target, ',') + ")"@);
        }
        let f = make_filter(column, "in", value.as_str());
        self.with_filter(f)
    }

    /// The column is null.
    pub fn is_null(self, column: &str) -> (r: Self)
        ensures
            r@ == spec_with_filter(self@, column@ + "="@ + "is.null"@),
    {
        let mut f = column.to_owned();
        f.append("=");
        f.append("is.null");
        proof {
            assert(f@ =~= column@ + "="@ + "is.null"@);
        }
        self.with_filter(f)
    }

    /// The column is not null.
    pub fn is_not_null(self, column: &str) -> (r: Self)
        ensures
            r@ == spec_with_filter(self@, column@ + "="@ + "not.is.null"@),
    {
        let mut f = column.to_owned();
        f.append("=");
        f.append("not.is.null");
        proof {
            assert(f@ =~= column@ + "="@ + "not.is.null"@);
        }
        self.with_filter(f)
    }

    /// Caps the row count of a read.
    pub fn limit(self, count: usize) -> (r: Self)
        ensures
            r@ == (QueryView { limit_value: Some(count), ..self@ }),
    {
        let QueryBuilder { table, filters, select_columns, limit_value: _, order_by } = self;
        let r = QueryBuilder { table, filters, select_columns, limit_value: Some(count), order_by };
        proof {
            assert(r@ =~= (QueryView { limit_value: Some(count), ..self@ }));
        }
        r
    }

    /// Orders by a column; the column name is percent-encoded.
    pub fn order(self, column: &str, ascending: bool) -> (r: Self)
        ensures
            r@ == (QueryView {
                order_by: Some((percent_encoded(column@), ascending)),
                ..self@
            }),
    {
        let QueryBuilder { table, filters, select_columns, limit_value, order_by: _ } = self;
        let enc = percent_encode(column);
        let r = QueryBuilder {
            table,
            filters,
            select_columns,
            limit_value,
            order_by: Some((enc, ascending)),
        };
        proof {
            assert(r@ =~= (QueryView {
                order_by: Some((percent_encoded(column@), ascending)),
                ..self@
            }));
        }
        r
    }

    /// Skips rows for paging; rendered among the filters.
    pub fn offset(self, count: usize) -> (r: Self)
        ensures
            r@ == spec_with_filter(self@, "offset="@ + spec_dec_digits(count as nat)),
    {
        let mut f = "offset=".to_owned();
        let d = u64_to_dec(count as u64);
        f.append(d.as_str());
        proof {
            assert(f@ =~= "offset="@ + spec_dec_digits(count as nat));
        }
        self.with_filter(f)
    }

    /// Filter by the identity column.
    pub fn id(self, id: &str) -> (r: Self)
        ensures
            r@ == spec_with_filter(self@, spec_filter("id"@, "eq"@, percent_encoded(id@))),
    {
        self.eq("id", id)
    }

    /// Filter by a numeric identity column.
    pub fn id_num(self, id: i64) -> (r: Self)
        ensures
            r@ == spec_with_filter(
                self@,
                spec_filter("id"@, "eq"@, crate::strutil::spec_dec_signed(id as int)),
            ),
    {
        self.eq_num("id", id)
    }

    /// Filter by the verification flag.
    pub fn is_verified(self, verified: bool) -> (r: Self)
        ensures
            r@ == spec_with_filter(
                self@,
                spec_filter("verified"@, "eq"@, if verified { "true"@ } else { "false"@ }),
            ),
    {
        self.eq_bool("verified", verified)
    }

    /// Ascending order.
    pub fn order_asc(self, column: &str) -> (r: Self)
        ensures
            r@ == (QueryView { order_by: Some((percent_encoded(column@), true)), ..self@ }),
    {
        self.order(column, true)
    }

    /// Descending order.
    pub fn order_desc(self, column: &str) -> (r: Self)
        ensures
            r@ == (QueryView { order_by: Some((percent_encoded(column@), false)), ..self@ }),
    {
        self.order(column, false)
    }

    /// Renders the read request's path with every accumulated parameter.
    pub fn execute_path(self) -> (r: String)
        ensures
            r@ == spec_query_path(self@),
    {
        let ghost qv = self@;
        let mut params: Vec<String> = Vec::new();
        match &self.select_columns {
            Some(c) => {
                let mut s = "select=".to_owned();
                s.append(c.as_str());
                params.push(s);
            },
            None => {},
        }
        let ghost base: Seq<Seq<char>> = params.deep_view();
        proof {
            match qv.select_columns {
                Some(c) => {
                    assert(base =~= seq!["select="@ + c]);
                },
                None => {
                    assert(base =~= Seq::<Seq<char>>::empty());
                },
            }
        }
        let mut i: usize = 0;
        while i < self.filters.len()
            invariant
                0 <= i <= self.filters@.len(),
                qv.filters == self.filters.deep_view(),
                params.deep_view() == base + qv.filters.subrange(0, i as int),
            decreases self.filters@.len() - i,
        {
            let ghost prev = params.deep_view();
            params.push(self.filters[i].clone());
            i += 1;
            proof {
                assert(params.deep_view() =~= prev.push(qv.filters[i - 1]));
                assert(base + qv.filters.subrange(0, i as int)
                    =~= prev.push(qv.filters[i - 1]));
            }
        }
        proof {
            assert(qv.filters.subrange(0, qv.filters.len() as int) =~= qv.filters);
        }
        match self.limit_value {
            Some(l) => {
                let ghost prev = params.deep_view();
                let mut s = "limit=".to_owned();
                let d = u64_to_dec(l as u64);
                s.append(d.as_str());
                params.push(s);
                proof {
                    assert(params.deep_view()
                        =~= prev.push("limit="@ + spec_dec_digits(l as nat)));
                }
            },
            None => {},
        }
        match &self.order_by {
            Some(ob) => {
                let ghost prev = params.deep_view();
                let mut s = "order=".to_owned();
                s.append(ob.0.as_str());
                s.append(".");
                s.append(if ob.1 { "asc" } else { "desc" });
                params.push(s);
                proof {
                    assert(params.deep_view() =~= prev.push(
                        "order="@ + (qv.order_by->0).0 + "."@ + (if (qv.order_by->0).1 {
                            "asc"@
                        } else {
                            "desc"@
                        }),
                    ));
                }
            },
            None => {},
        }
        proof {
            assert(params.deep_view() =~= spec_query_params(qv));
        }
        if params.len() == 0 {
            self.table
        } else {
            let joined = join_amp(&params);
            let mut path = self.table;
            path.append("?");
            path.append(joined.as_str());
            proof {
                assert(path@ =~= spec_query_path(qv));
            }
            path
        }
    }

    /// Renders the path that scopes an update to the accumulated filters.
    pub fn update_path(self) -> (r: String)
        ensures
            r@ == spec_scope_path(self@),
    {
        self.scope_path()
    }

    /// Renders the path that scopes a deletion to the accumulated filters.
    pub fn delete_path(self) -> (r: String)
        ensures
            r@ == spec_scope_path(self@),
    {
        self.scope_path()
    }

    /// Renders the insertion path: the bare table, the payload travels in
    /// the body.
    pub fn insert_path(self) -> (r: String)
        ensures
            r@ == self@.table,
    {
        self.table
    }

    /// Renders the path of an exact count over the accumulated filters.
    pub fn count_path(self) -> (r: String)
        ensures
            r@ == spec_count_path(self@),
    {
        let ghost qv = self@;
        let mut params: Vec<String> = Vec::new();
        params.push("count=exact".to_owned());
        let mut i: usize = 0;
        proof {
            assert(params.deep_view() =~= seq!["count=exact"@]);
            assert(params.deep_view()
                =~= seq!["count=exact"@] + qv.filters.subrange(0, 0));
        }
        while i < self.filters.len()
            invariant
                0 <= i <= self.filters@.len(),
                qv.filters == self.filters.deep_view(),
                params.deep_view() == seq!["count=exact"@] + qv.filters.subrange(0, i as int),
            decreases self.filters@.len() - i,
        {
            let ghost prev = params.deep_view();
            params.push(self.filters[i].clone());
            i += 1;
            proof {
                assert(params.deep_view() =~= prev.push(qv.filters[i - 1]));
                assert(seq!["count=exact"@] + qv.filters.subrange(0, i as int)
                    =~= prev.push(qv.filters[i - 1]));
            }
        }
        proof {
            assert(qv.filters.subrange(0, qv.filters.len() as int) =~= qv.filters);
        }
        let joined = join_amp(&params);
        let mut path = self.table;
        path.append("?");
        path.append(joined.as_str());
        proof {
            assert(path@ =~= spec_count_path(qv));
        }
        path
    }

    fn scope_path(self) -> (r: String)
        ensures
            r@ == spec_scope_path(self@),
    {
        let ghost qv = self@;
        if self.filters.len() == 0 {
            self.table
        } else {
            let joined = join_amp(&self.filters);
            let mut path = self.table;
            path.append("?");
            path.append(joined.as_str());
            proof {
                assert(path@ =~= spec_scope_path(qv));
            }
            path
        }
    }
}

/// The normalized service base: kept as given when it already ends with
/// the REST mount, else trailing slashes dropped and the mount appended.
pub open spec fn spec_normalized_base(url: Seq<char>) -> Seq<char> {
    if crate::strutil::spec_ends_with(url, "/rest/v1"@) {
        url
    } else {
        url.subrange(0, spec_trim_end_len(url, '/')) + "/rest/v1"@
    }
}

impl SupabaseClient {
    /// Builds a client from a base address and key; blank values are the
    /// one configuration this layer refuses to hold.
    pub fn new(base_url: String, api_key: String) -> (r: Self)
        requires
            !spec_is_blank(base_url@),
            !spec_is_blank(api_key@),
        ensures
            r.base_url@ == spec_normalized_base(base_url@),
            r.api_key@ == api_key@,
    {
        if str_ends_with(base_url.as_str(), "/rest/v1") {
            SupabaseClient { base_url, api_key }
        } else {
            let trimmed = str_trim_end_matches(base_url.as_str(), '/');
            let mut b = trimmed.to_owned();
            b.append("/rest/v1");
            SupabaseClient { base_url: b, api_key }
        }
    }

    /// Opens a query builder over one table.
    pub fn from(&self, table: &str) -> (q: QueryBuilder)
        ensures
            q@ == (QueryView {
                table: table@,
                filters: Seq::empty(),
                select_columns: None,
                limit_value: None,
                order_by: None,
            }),
    {
        let q = QueryBuilder {
            table: table.to_owned(),
            filters: Vec::new(),
            select_columns: None,
            limit_value: None,
            order_by: None,
        };
        proof {
            assert(q@ =~= (QueryView {
                table: table@,
                filters: Seq::empty(),
                select_columns: None,
                limit_value: None,
                order_by: None,
            }));
        }
        q
    }

    /// The absolute address of one rendered path.
    pub fn build_url(&self, path: &str) -> (r: String)
        ensures
            r@ == self.base_url@.subrange(0, spec_trim_end_len(self.base_url@, '/')) + "/"@
                + path@.subrange(spec_trim_start_len(path@, '/'), path@.len() as int),
    {
        let base = str_trim_end_matches(self.base_url.as_str(), '/');
        let rest = str_trim_start_matches(path, '/');
        let mut url = base.to_owned();
        url.append("/");
        url.append(rest);
        url
    }
}

/// How a bad-request body is classified: known substrings name a missing
/// table or column, a known filter complaint names the filter grammar,
/// anything else is a generic query failure.
pub open spec fn spec_classify_bad_request(body: Seq<char>, msg: Option<Seq<char>>)
    -> SupabaseErrorView {
    let rel = spec_contains(body, "relation"@) && spec_contains(body, "does not exist"@);
    let col = spec_contains(body, "column"@) && spec_contains(body, "does not exist"@);
    if rel && msg is Some && spec_extract_table_name(msg->0) is Some {
        SupabaseErrorView::TableNotFound { table: spec_extract_table_name(msg->0)->0 }
    } else if col && msg is Some && spec_extract_table_and_column(msg->0) is Some {
        SupabaseErrorView::ColumnNotFound {
            table: (spec_extract_table_and_column(msg->0)->0).0,
            column: (spec_extract_table_and_column(msg->0)->0).1,
        }
    } else if spec_contains(body, "failed to parse filter"@) {
        SupabaseErrorView::QueryError { message: "Invalid filter syntax"@ }
    } else {
        SupabaseErrorView::QueryError { message: body }
    }
}

/// How an unprocessable-entity body is classified: a filter complaint in
/// the parsed message is a query failure, anything else a validation
/// failure carrying the raw body.
pub open spec fn spec_classify_unprocessable(body: Seq<char>, msg: Option<Seq<char>>)
    -> SupabaseErrorView {
    if msg is Some && spec_contains(msg->0, "failed to parse filter"@) {
        SupabaseErrorView::QueryError { message: "Invalid filter syntax"@ }
    } else {
        SupabaseErrorView::ValidationError { field: "unknown"@, reason: body }
    }
}

/// The error one failed response classifies to, given its status, body
/// text, the request path, and whatever "message" the body's JSON holds.
pub open spec fn spec_classify_failure(
    status: u16,
    body: Seq<char>,
    path: Seq<char>,
    msg: Option<Seq<char>>,
) -> SupabaseErrorView {
    if status == 400 {
        spec_classify_bad_request(body, msg)
    } else if status == 401 {
        SupabaseErrorView::AuthError { message: "Unauthorized - check your API key"@ }
    } else if status == 403 {
        SupabaseErrorView::AuthError { message: "Forbidden - insufficient permissions"@ }
    } else if status == 404 {
        SupabaseErrorView::TableNotFound { table: spec_split(path, '?')[0] }
    } else if status == 409 {
        SupabaseErrorView::InsertConflict {
            message: "Insert conflict - duplicate key or constraint violation"@,
        }
    } else if status == 422 {
        spec_classify_unprocessable(body, msg)
    } else if status == 429 {
        SupabaseErrorView::RateLimited { message: "Rate limit exceeded"@ }
    } else if 500 <= status <= 599 {
        SupabaseErrorView::HttpError { status, message: "Server error"@ }
    } else {
        SupabaseErrorView::HttpError { status, message: body }
    }
}

/// Classifies one failed response. The caller decodes successful bodies
/// itself; everything with a non-success status lands here and comes back
/// as a typed error, never as success.
pub fn classify_failure(status: u16, body: &str, path: &str) -> (r: SupabaseError)
    requires
        !(200 <= status < 300),
    ensures
        r@ == spec_classify_failure(status, body@, path@, json_message_of(body@)),
{
    if status == 400 {
        let msg = json_message_field(body);
        let rel = str_contains(body, "relation") && str_contains(body, "does not exist");
        let col = str_contains(body, "column") && str_contains(body, "does not exist");
        if rel {
            match &msg {
                Some(m) => {
                    match extract_table_name(m.as_str()) {
                        Some(table) => {
                            return SupabaseError::TableNotFound { table };
                        },
                        None => {},
                    }
                },
                None => {},
            }
        }
        if col {
            match &msg {
                Some(m) => {
                    match extract_table_and_column(m.as_str()) {
                        Some(tc) => {
                            return SupabaseError::ColumnNotFound { table: tc.0, column: tc.1 };
                        },
                        None => {},
                    }
                },
                None => {},
            }
        }
        if str_contains(body, "failed to parse filter") {
            SupabaseError::QueryError { message: "Invalid filter syntax".to_owned() }
        } else {
            SupabaseError::QueryError { message: body.to_owned() }
        }
    } else if status == 401 {
        SupabaseError::AuthError { message: "Unauthorized - check your API key".to_owned() }
    } else if status == 403 {
        SupabaseError::AuthError { message: "Forbidden - insufficient permissions".to_owned() }
    } else if status == 404 {
        let parts = str_split(path, '?');
        proof {
            lemma_split_len(path@, '?');
            assert(parts.deep_view()[0] == parts@[0]@);
        }
        SupabaseError::TableNotFound { table: parts[0].clone() }
    } else if status == 409 {
        SupabaseError::InsertConflict {
            message: "Insert conflict - duplicate key or constraint violation".to_owned(),
        }
    } else if status == 422 {
        let msg = json_message_field(body);
        match &msg {
            Some(m) => {
                if str_contains(m.as_str(), "failed to parse filter") {
                    return SupabaseError::QueryError {
                        message: "Invalid filter syntax".to_owned(),
                    };
                }
            },
            None => {},
        }
        SupabaseError::ValidationError { field: "unknown".to_owned(), reason: body.to_owned() }
    } else if status == 429 {
        SupabaseError::RateLimited { message: "Rate limit exceeded".to_owned() }
    } else if 500 <= status && status <= 599 {
        SupabaseError::HttpError { status, message: "Server error".to_owned() }
    } else {
        SupabaseError::HttpError { status, message: body.to_owned() }
    }
}

/// Reduces a decoded result set to the single row a unique filter owes:
/// no rows is the typed absence, several rows the typed ambiguity.
pub fn single_of<T>(results: Vec<T>) -> (r: Result<T, SupabaseError>)
    ensures
        match r {
            Ok(v) => results@.len() == 1 && v == results@[0],
            Err(e) => (results@.len() == 0 && e@ is NotFound) || (results@.len() > 1
                && e@ is MultipleResults),
        },
{
    let mut results = results;
    if results.len() == 0 {
        Err(SupabaseError::NotFound)
    } else if results.len() == 1 {
        match results.pop() {
            Some(v) => Ok(v),
            None => {
                proof {
                    assert(false);
                }
                Err(SupabaseError::NotFound)
            },
        }
    } else {
        Err(SupabaseError::MultipleResults)
    }
}

/// Reduces an insertion's echoed row set to the created row: the first
/// echoed row, or the typed absence when the service echoed none back.
pub fn first_of<T>(results: Vec<T>) -> (r: Result<T, SupabaseError>)
    ensures
        match r {
            Ok(v) => results@.len() >= 1 && v == results@[0],
            Err(e) => results@.len() == 0 && e@ is NotFound,
        },
{
    let mut results = results;
    if results.len() == 0 {
        Err(SupabaseError::NotFound)
    } else {
        Ok(results.remove(0))
    }
}

/// The connectivity reading of a probe's outcome: any answer from the
/// service, even a client-side failure, means the service is reachable;
/// only transport failures and server breakdowns do not.
pub fn health_check_outcome(outcome: Result<(), SupabaseError>) -> (r: Result<(), SupabaseError>)
    ensures
        match outcome {
            Ok(_) => r is Ok,
            Err(e) => if e@ is AuthError || e@ is TableNotFound || (
                e@ matches SupabaseErrorView::HttpError { status, .. } && 400 <= status <= 499) {
                r is Ok
            } else {
                r matches Err(e2) && e2@ == e@
            },
        },
{
    match outcome {
        Ok(_) => Ok(()),
        Err(e) => {
            let reachable = match &e {
                SupabaseError::AuthError { .. } => true,
                SupabaseError::TableNotFound { .. } => true,
                SupabaseError::HttpError { status, .. } => 400 <= *status && *status <= 499,
                _ => false,
            };
            if reachable {
                Ok(())
            } else {
                Err(e)
            }
        },
    }
}

/// The authentication reading of a probe's outcome: success only when the
/// probe succeeded; every failure is handed back unchanged.
pub fn check_auth_outcome(outcome: Result<(), SupabaseError>) -> (r: Result<(), SupabaseError>)
    ensures
        match outcome {
            Ok(_) => r is Ok,
            Err(e) => r matches Err(e2) && e2@ == e@,
        },
{
    match outcome {
        Ok(_) => Ok(()),
        Err(e) => Err(e),
    }
}

} // verus!
