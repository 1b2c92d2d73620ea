//! The queries that the client builds step by step before sending them: a listing of
//! documents of one type, and a report run.
use crate::client::query::{
    json_string_array, json_string_list, json_string_rows, json_string_table, number_param,
    param, query_path, rows_view, with_query,
};
use crate::client::url::url_encode;
use crate::keyed::{as_map, distinct_keys, entries_view, TextMap};
use crate::text::{decimal, opt_view, owned, push_str, texts_view};
use vstd::prelude::*;

verus! {

/// A listing of the documents of one type, with optional filters, fields, order and
/// paging.
pub struct ResourceQuery {
    doctype: String,
    filters: Vec<(String, String, String)>,
    fields: Option<Vec<String>>,
    order_by: Option<String>,
    limit: Option<u32>,
    limit_start: Option<u32>,
}

pub struct ResourceQueryView {
    pub doctype: Seq<char>,
    pub filters: Seq<(Seq<char>, Seq<char>, Seq<char>)>,
    pub fields: Option<Seq<Seq<char>>>,
    pub order_by: Option<Seq<char>>,
    pub limit: Option<u32>,
    pub limit_start: Option<u32>,
}

impl View for ResourceQuery {
    type V = ResourceQueryView;

    closed spec fn view(&self) -> ResourceQueryView {
        ResourceQueryView {
            doctype: self.doctype@,
            filters: self.filters@.map_values(
                |f: (String, String, String)| (f.0@, f.1@, f.2@),
            ),
            fields: match self.fields {
                Some(f) => Some(texts_view(f@)),
                None => None,
            },
            order_by: opt_view(self.order_by),
            limit: self.limit,
            limit_start: self.limit_start,
        }
    }
}

/// The query parameters of a listing: the filters as a JSON array of
/// `[field, operator, value]` triples, the fields as a JSON array, the order, the page
/// length and the first row, each only when set.
pub open spec fn resource_params(q: ResourceQueryView) -> Seq<Seq<char>> {
    (if q.filters.len() > 0 {
        seq![
            param(
                "filters"@,
                json_string_rows(
                    q.filters.map_values(
                        |f: (Seq<char>, Seq<char>, Seq<char>)| seq![f.0, f.1, f.2],
                    ),
                ),
            ),
        ]
    } else {
        Seq::empty()
    }) + (match q.fields {
        Some(f) => seq![param("fields"@, json_string_array(f))],
        None => Seq::empty(),
    }) + (match q.order_by {
        Some(o) => seq![param("order_by"@, o)],
        None => Seq::empty(),
    }) + (match q.limit {
        Some(l) => seq![number_param("limit_page_length"@, l as nat)],
        None => Seq::empty(),
    }) + (match q.limit_start {
        Some(s) => seq![number_param("limit_start"@, s as nat)],
        None => Seq::empty(),
    })
}

/// The request path of a listing.
pub open spec fn resource_query_path(q: ResourceQueryView) -> Seq<char> {
    with_query("/api/resource/"@ + q.doctype, resource_params(q))
}

/// How many rows a page of [`ResourceQuery::all`] asks for.
pub const PAGE_SIZE: u32 = 200;

impl ResourceQuery {
    /// A listing of all documents of `doctype`, with nothing else set.
    pub fn new(doctype: &str) -> (q: ResourceQuery)
        ensures
            q@ == (ResourceQueryView {
                doctype: doctype@,
                filters: Seq::empty(),
                fields: None,
                order_by: None,
                limit: None,
                limit_start: None,
            }),
    {
        let q = ResourceQuery {
            doctype: owned(doctype),
            filters: Vec::new(),
            fields: None,
            order_by: None,
            limit: None,
            limit_start: None,
        };
        assert(q@.filters =~= Seq::<(Seq<char>, Seq<char>, Seq<char>)>::empty());
        q
    }

    /// Adds the filter `field operator value` after the others.
    pub fn filter(self, field: &str, operator: &str, value: &str) -> (q: ResourceQuery)
        ensures
            q@ == (ResourceQueryView {
                filters: self@.filters.push((field@, operator@, value@)),
                ..self@
            }),
    {
        let mut q = self;
        let ghost before = q@.filters;
        q.filters.push((owned(field), owned(operator), owned(value)));
        assert(q@.filters =~= before.push((field@, operator@, value@)));
        q
    }

    /// Asks for these fields only.
    pub fn fields(self, fields: Vec<&str>) -> (q: ResourceQuery)
        ensures
            q@ == (ResourceQueryView {
                fields: Some(fields@.map_values(|f: &str| f@)),
                ..self@
            }),
    {
        let mut names: Vec<String> = Vec::new();
        for i in 0..fields.len()
            invariant
                names.len() == i,
                forall|j: int| 0 <= j < i ==> (#[trigger] names@[j])@ == fields@[j]@,
        {
            names.push(owned(fields[i]));
        }
        assert(texts_view(names@) =~= fields@.map_values(|f: &str| f@));
        let mut q = self;
        q.fields = Some(names);
        q
    }

    /// Orders the listing, for instance `modified desc`.
    pub fn order_by(self, order: &str) -> (q: ResourceQuery)
        ensures
            q@ == (ResourceQueryView { order_by: Some(order@), ..self@ }),
    {
        let mut q = self;
        q.order_by = Some(owned(order));
        q
    }

    /// Sets the page length; 0 stands for the default page of 200 rows.
    pub fn limit(self, limit: u32) -> (q: ResourceQuery)
        ensures
            q@ == (ResourceQueryView {
                limit: Some(if limit == 0 { PAGE_SIZE } else { limit }),
                ..self@
            }),
    {
        let mut q = self;
        if limit == 0 {
            q.limit = Some(PAGE_SIZE);
        } else {
            q.limit = Some(limit);
        }
        q
    }

    /// Sets the first row.
    pub fn limit_start(self, start: u32) -> (q: ResourceQuery)
        ensures
            q@ == (ResourceQueryView { limit_start: Some(start), ..self@ }),
    {
        let mut q = self;
        q.limit_start = Some(start);
        q
    }

    /// The same listing, one page of [`PAGE_SIZE`] rows from row `start`.
    pub fn page(&self, start: u32) -> (q: ResourceQuery)
        ensures
            q@ == (ResourceQueryView {
                limit: Some(PAGE_SIZE),
                limit_start: Some(start),
                ..self@
            }),
    {
        let mut filters: Vec<(String, String, String)> = Vec::new();
        for i in 0..self.filters.len()
            invariant
                filters.len() == i,
                forall|j: int|
                    0 <= j < i ==> (#[trigger] filters@[j]).0@ == self.filters@[j].0@
                        && filters@[j].1@ == self.filters@[j].1@ && filters@[j].2@
                        == self.filters@[j].2@,
        {
            let f = &self.filters[i];
            filters.push((f.0.clone(), f.1.clone(), f.2.clone()));
        }
        let fields = match &self.fields {
            Some(f) => Some(crate::text::copy_texts(f)),
            None => None,
        };
        let q = ResourceQuery {
            doctype: self.doctype.clone(),
            filters,
            fields,
            order_by: crate::text::copy_opt(&self.order_by),
            limit: Some(PAGE_SIZE),
            limit_start: Some(start),
        };
        assert(q@.filters =~= self@.filters);
        q
    }

    /// The request path of this listing.
    pub fn path(&self) -> (r: String)
        ensures
            r@ == resource_query_path(self@),
    {
        let mut params: Vec<String> = Vec::new();
        let ghost q = self@;
        if self.filters.len() > 0 {
            let mut rows: Vec<Vec<String>> = Vec::new();
            for i in 0..self.filters.len()
                invariant
                    q == self@,
                    rows.len() == i,
                    forall|j: int|
                        0 <= j < i ==> texts_view((#[trigger] rows@[j])@) == seq![
                            q.filters[j].0,
                            q.filters[j].1,
                            q.filters[j].2,
                        ],
            {
                let f = &self.filters[i];
                let mut row: Vec<String> = Vec::new();
                row.push(f.0.clone());
                row.push(f.1.clone());
                row.push(f.2.clone());
                assert(texts_view(row@) =~= seq![q.filters[i as int].0, q.filters[i as int].1, q.filters[i as int].2]);
                rows.push(row);
            }
            assert(rows_view(rows@) =~= q.filters.map_values(
                |f: (Seq<char>, Seq<char>, Seq<char>)| seq![f.0, f.1, f.2],
            ));
            let text = json_string_table(&rows);
            params.push(param_text("filters", text.as_str()));
        }
        let ghost p1 = texts_view(params@);
        match &self.fields {
            Some(f) => {
                let text = json_string_list(f);
                params.push(param_text("fields", text.as_str()));
            },
            None => {},
        }
        let ghost p2 = texts_view(params@);
        match &self.order_by {
            Some(o) => params.push(param_text("order_by", o.as_str())),
            None => {},
        }
        let ghost p3 = texts_view(params@);
        match self.limit {
            Some(l) => params.push(number_text("limit_page_length", l)),
            None => {},
        }
        let ghost p4 = texts_view(params@);
        match self.limit_start {
            Some(s) => params.push(number_text("limit_start", s)),
            None => {},
        }
        assert(texts_view(params@) =~= resource_params(q));
        let mut path = owned("/api/resource/");
        push_str(&mut path, self.doctype.as_str());
        query_path(path.as_str(), &params)
    }
}

fn param_text(name: &str, value: &str) -> (r: String)
    ensures
        r@ == param(name@, value@),
{
    let mut r = owned(name);
    push_str(&mut r, "=");
    push_str(&mut r, url_encode(value).as_str());
    r
}

fn number_text(name: &str, value: u32) -> (r: String)
    ensures
        r@ == number_param(name@, value as nat),
{
    let mut r = owned(name);
    push_str(&mut r, "=");
    push_str(&mut r, decimal(value as u64).as_str());
    r
}

/// Where [`ResourceQuery::all`] goes after a page: an empty page ends the listing;
/// otherwise the next page starts [`PAGE_SIZE`] rows further.
pub fn next_page_start(start: u32, page_rows: usize) -> (r: Option<u32>)
    requires
        page_rows > 0 ==> start + PAGE_SIZE <= u32::MAX,
    ensures
        page_rows == 0 ==> r is None,
        page_rows > 0 ==> r == Some((start + PAGE_SIZE) as u32),
{
    if page_rows == 0 {
        None
    } else {
        Some(start + PAGE_SIZE)
    }
}

/// A report run: the report's name and its filters, each field at most once.
pub struct ReportQuery {
    report_name: String,
    filters: TextMap,
}

pub struct ReportQueryView {
    pub report_name: Seq<char>,
    pub filters: Map<Seq<char>, Seq<char>>,
}

impl View for ReportQuery {
    type V = ReportQueryView;

    closed spec fn view(&self) -> ReportQueryView {
        ReportQueryView { report_name: self.report_name@, filters: self.filters@ }
    }
}

/// The JSON text of a report run: the object with members `report_name` (a string) and
/// `filters` (an object of string members), as `serde_json` writes it.
pub uninterp spec fn report_request_json(report_name: Seq<char>, filters: Map<Seq<char>, Seq<char>>) -> Seq<
    char,
>;

/// `serde_json::Value::Object` with members `report_name` and `filters`, written by
/// `to_string`: the text named by [`report_request_json`]. The members of `filters` are
/// the distinct pairs given, so the text depends on the map they make and not on their
/// order.
#[verifier::external_body]
fn report_json(report_name: &str, filters: &Vec<(String, String)>) -> (r: String)
    requires
        distinct_keys(entries_view(filters@)),
    ensures
        r@ == report_request_json(report_name@, as_map(entries_view(filters@))),
{
    let mut members = serde_json::Map::new();
    for (k, v) in filters {
        members.insert(k.clone(), serde_json::Value::String(v.clone()));
    }
    let mut body = serde_json::Map::new();
    body.insert("report_name".to_string(), serde_json::Value::String(report_name.to_string()));
    body.insert("filters".to_string(), serde_json::Value::Object(members));
    serde_json::Value::Object(body).to_string()
}

impl ReportQuery {
    /// A run of the report `report_name` without filters.
    pub fn new(report_name: &str) -> (q: ReportQuery)
        ensures
            q@ == (ReportQueryView {
                report_name: report_name@,
                filters: Map::empty(),
            }),
    {
        ReportQuery { report_name: owned(report_name), filters: TextMap::new() }
    }

    /// Sets the filter on `field` to `value`, replacing an earlier one on that field.
    pub fn add_filter(self, field: &str, value: &str) -> (q: ReportQuery)
        ensures
            q@ == (ReportQueryView {
                report_name: self@.report_name,
                filters: self@.filters.insert(field@, value@),
            }),
    {
        let mut q = self;
        q.filters.set(owned(field), owned(value));
        q
    }

    /// The JSON body that runs the report.
    pub fn body(&self) -> (r: String)
        ensures
            r@ == report_request_json(self@.report_name, self@.filters),
    {
        report_json(self.report_name.as_str(), self.filters.entries())
    }
}


/// A listing sends every filter that was added, in order: its first parameter is
/// `filters`, a JSON array with one row per filter, the `k`-th row being the `k`-th
/// filter's `[field, operator, value]`.
pub proof fn law_listing_sends_every_filter(
    q: ResourceQueryView,
    rows: Seq<Seq<Seq<char>>>,
)
    requires
        q.filters.len() > 0,
        rows.len() == q.filters.len(),
        forall|k: int|
            0 <= k < rows.len() ==> #[trigger] rows[k] == seq![
                q.filters[k].0,
                q.filters[k].1,
                q.filters[k].2,
            ],
    ensures
        resource_params(q).len() > 0,
        resource_params(q)[0] == param("filters"@, json_string_rows(rows)),
{
    assert(q.filters.map_values(|f: (Seq<char>, Seq<char>, Seq<char>)| seq![f.0, f.1, f.2])
        =~= rows);
}

} // verus!
