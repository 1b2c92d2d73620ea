//! The requests that the client's API methods send: their paths with query strings,
//! their form fields, and their JSON bodies.
use crate::client::url::{url_encode, url_encoded};
use crate::json::{json_quote, json_quoted};
use crate::keyed::entries_view;
use crate::text::{decimal, nat_decimal, owned, push_str, texts_view};
use vstd::prelude::*;

verus! {

// ---------------------------------------------------------------- texts

/// The parts joined, `sep` between each two.
pub open spec fn joined(parts: Seq<Seq<char>>, sep: Seq<char>) -> Seq<char>
    decreases parts.len(),
{
    if parts.len() == 0 {
        Seq::empty()
    } else if parts.len() == 1 {
        parts[0]
    } else {
        joined(parts.drop_last(), sep) + sep + parts.last()
    }
}

/// The texts of `parts` joined with `sep` between each two; `slice::join`.
pub fn join_texts(parts: &Vec<String>, sep: &str) -> (r: String)
    ensures
        r@ == joined(texts_view(parts@), sep@),
{
    let ghost all = texts_view(parts@);
    let mut r = String::new();
    for i in 0..parts.len()
        invariant
            all == texts_view(parts@),
            r@ == joined(all.take(i as int), sep@),
    {
        let ghost pre = all.take(i as int);
        if i > 0 {
            push_str(&mut r, sep);
        }
        push_str(&mut r, parts[i].as_str());
        proof {
            let next = all.take(i + 1);
            assert(next.drop_last() =~= pre);
            assert(next.last() == parts@[i as int]@);
            if i == 0 {
                assert(pre.len() == 0);
            }
        }
    }
    assert(all.take(parts.len() as int) =~= all);
    r
}

/// A JSON array of the given JSON texts.
pub open spec fn json_array(elements: Seq<Seq<char>>) -> Seq<char> {
    "["@ + joined(elements, ","@) + "]"@
}

/// A JSON array of strings.
pub open spec fn json_string_array(items: Seq<Seq<char>>) -> Seq<char> {
    json_array(items.map_values(|s: Seq<char>| json_quoted(s)))
}

/// A JSON array of arrays of strings.
pub open spec fn json_string_rows(rows: Seq<Seq<Seq<char>>>) -> Seq<char> {
    json_array(rows.map_values(|r: Seq<Seq<char>>| json_string_array(r)))
}

/// `serde_json::to_string` of a list of strings: an array of the strings in order,
/// without spaces. Serializing strings cannot fail.
#[verifier::external_body]
pub(crate) fn json_string_list(items: &Vec<String>) -> (r: String)
    ensures
        r@ == json_string_array(texts_view(items@)),
{
    serde_json::to_string(items).unwrap_or_default()
}

pub open spec fn rows_view(rows: Seq<Vec<String>>) -> Seq<Seq<Seq<char>>> {
    rows.map_values(|r: Vec<String>| texts_view(r@))
}

/// `serde_json::to_string` of a list of lists of strings: nested arrays in order,
/// without spaces. Serializing strings cannot fail.
#[verifier::external_body]
pub(crate) fn json_string_table(rows: &Vec<Vec<String>>) -> (r: String)
    ensures
        r@ == json_string_rows(rows_view(rows@)),
{
    serde_json::to_string(rows).unwrap_or_default()
}

/// `path`, and when there are parameters, `?` and the parameters joined with `&`.
pub open spec fn with_query(path: Seq<char>, params: Seq<Seq<char>>) -> Seq<char> {
    if params.len() == 0 {
        path
    } else {
        path + "?"@ + joined(params, "&"@)
    }
}

pub(crate) fn query_path(path: &str, params: &Vec<String>) -> (r: String)
    ensures
        r@ == with_query(path@, texts_view(params@)),
{
    let mut r = owned(path);
    if params.len() > 0 {
        push_str(&mut r, "?");
        let q = join_texts(params, "&");
        push_str(&mut r, q.as_str());
    }
    r
}

/// `name=` and the value percent-encoded.
pub open spec fn param(name: Seq<char>, value: Seq<char>) -> Seq<char> {
    name + "="@ + url_encoded(value)
}

fn encoded_param(name: &str, value: &str) -> (r: String)
    ensures
        r@ == param(name@, value@),
{
    let mut r = owned(name);
    push_str(&mut r, "=");
    let v = url_encode(value);
    push_str(&mut r, v.as_str());
    r
}

/// `name=` and the decimal number.
pub open spec fn number_param(name: Seq<char>, value: nat) -> Seq<char> {
    name + "="@ + nat_decimal(value)
}

fn decimal_param(name: &str, value: u64) -> (r: String)
    ensures
        r@ == number_param(name@, value as nat),
{
    let mut r = owned(name);
    push_str(&mut r, "=");
    let v = decimal(value);
    push_str(&mut r, v.as_str());
    r
}

// ---------------------------------------------------------------- list queries

/// The path of `frappe.desk.reportview.get_list` with its ten parameters.
pub open spec fn get_list_path_spec(
    doctype: Seq<char>,
    fields_json: Seq<char>,
    filters_json: Seq<char>,
    or_filters_json: Seq<char>,
    order_by: Seq<char>,
    start: u32,
    page_length: u32,
    view: Seq<char>,
    group_by: Seq<char>,
    with_comment_count: bool,
) -> Seq<char> {
    with_query(
        "/api/method/frappe.desk.reportview.get_list"@,
        seq![
            param("doctype"@, doctype),
            param("fields"@, fields_json),
            param("filters"@, filters_json),
            param("or_filters"@, or_filters_json),
            param("order_by"@, order_by),
            number_param("start"@, start as nat),
            number_param("page_length"@, page_length as nat),
            param("view"@, view),
            param("group_by"@, group_by),
            number_param("with_comment_count"@, if with_comment_count { 1 } else { 0 }),
        ],
    )
}

/// The request path of `get_list`.
pub fn get_list_path(
    doctype: &str,
    fields_json: &str,
    filters_json: &str,
    or_filters_json: &str,
    order_by: &str,
    start: u32,
    page_length: u32,
    view: &str,
    group_by: &str,
    with_comment_count: bool,
) -> (r: String)
    ensures
        r@ == get_list_path_spec(
            doctype@,
            fields_json@,
            filters_json@,
            or_filters_json@,
            order_by@,
            start,
            page_length,
            view@,
            group_by@,
            with_comment_count,
        ),
{
    let mut params: Vec<String> = Vec::new();
    params.push(encoded_param("doctype", doctype));
    params.push(encoded_param("fields", fields_json));
    params.push(encoded_param("filters", filters_json));
    params.push(encoded_param("or_filters", or_filters_json));
    params.push(encoded_param("order_by", order_by));
    params.push(decimal_param("start", start as u64));
    params.push(decimal_param("page_length", page_length as u64));
    params.push(encoded_param("view", view));
    params.push(encoded_param("group_by", group_by));
    params.push(
        decimal_param(
            "with_comment_count",
            if with_comment_count {
                1
            } else {
                0
            },
        ),
    );
    let r = query_path("/api/method/frappe.desk.reportview.get_list", &params);
    assert(texts_view(params@) =~= seq![
        param("doctype"@, doctype@),
        param("fields"@, fields_json@),
        param("filters"@, filters_json@),
        param("or_filters"@, or_filters_json@),
        param("order_by"@, order_by@),
        number_param("start"@, start as nat),
        number_param("page_length"@, page_length as nat),
        param("view"@, view@),
        param("group_by"@, group_by@),
        number_param("with_comment_count"@, if with_comment_count { 1 } else { 0 }),
    ]);
    r
}

/// The request path of `get_doctype_meta`.
pub fn doctype_meta_path(doctype: &str) -> (r: String)
    ensures
        r@ == "/api/method/frappe.desk.form.load.getdoctype?doctype="@ + url_encoded(doctype@)
            + "&with_parent=1"@,
{
    let mut r = owned("/api/method/frappe.desk.form.load.getdoctype?doctype=");
    let d = url_encode(doctype);
    push_str(&mut r, d.as_str());
    push_str(&mut r, "&with_parent=1");
    r
}

/// The fields that `file_list` asks for.
pub open spec fn file_list_fields() -> Seq<Seq<char>> {
    seq![
        "file_name"@,
        "file_url"@,
        "file_size"@,
        "file_type"@,
        "is_private"@,
        "attached_to_doctype"@,
        "attached_to_name"@,
        "attached_to_field"@,
        "creation"@,
        "modified"@,
    ]
}

/// The filters of `file_list`: the folder first, then the extra filters in order.
pub open spec fn file_list_filters(
    folder: Seq<char>,
    extra: Seq<(Seq<char>, Seq<char>, Seq<char>, Seq<char>)>,
) -> Seq<Seq<Seq<char>>> {
    seq![seq!["File"@, "folder"@, "="@, folder]] + extra.map_values(
        |f: (Seq<char>, Seq<char>, Seq<char>, Seq<char>)| seq![f.0, f.1, f.2, f.3],
    )
}

/// The request path of `file_list`: the files of `folder` (and any extra filters),
/// newest first, at most `limit` of them.
pub open spec fn file_list_path_spec(
    folder: Seq<char>,
    limit: u32,
    extra: Seq<(Seq<char>, Seq<char>, Seq<char>, Seq<char>)>,
) -> Seq<char> {
    "/api/resource/File?filters="@ + url_encoded(json_string_rows(file_list_filters(folder, extra)))
        + "&fields="@ + url_encoded(json_string_array(file_list_fields())) + "&limit_page_length="@
        + nat_decimal(limit as nat) + "&order_by=creation%20desc"@
}

pub open spec fn filter_rows_view(extra: Seq<(&str, &str, &str, &str)>) -> Seq<
    (Seq<char>, Seq<char>, Seq<char>, Seq<char>),
> {
    extra.map_values(|f: (&str, &str, &str, &str)| (f.0@, f.1@, f.2@, f.3@))
}

fn text_row(a: &str, b: &str, c: &str, d: &str) -> (r: Vec<String>)
    ensures
        texts_view(r@) == seq![a@, b@, c@, d@],
{
    let mut r: Vec<String> = Vec::new();
    r.push(owned(a));
    r.push(owned(b));
    r.push(owned(c));
    r.push(owned(d));
    assert(texts_view(r@) =~= seq![a@, b@, c@, d@]);
    r
}

/// The request path of `file_list`.
pub fn file_list_path(folder: &str, limit: u32, extra_filters: Option<Vec<(&str, &str, &str, &str)>>) -> (r:
    String)
    ensures
        r@ == file_list_path_spec(
            folder@,
            limit,
            match extra_filters {
                Some(e) => filter_rows_view(e@),
                None => Seq::empty(),
            },
        ),
{
    let ghost extra = match &extra_filters {
        Some(e) => filter_rows_view(e@),
        None => Seq::empty(),
    };
    let mut rows: Vec<Vec<String>> = Vec::new();
    rows.push(text_row("File", "folder", "=", folder));
    let extra_rows: Vec<(&str, &str, &str, &str)> = match extra_filters {
        Some(e) => e,
        None => Vec::new(),
    };
    assert(filter_rows_view(extra_rows@) == extra);
    for i in 0..extra_rows.len()
        invariant
            rows.len() == i + 1,
            extra == filter_rows_view(extra_rows@),
            rows_view(rows@) =~= file_list_filters(folder@, extra.take(i as int)),
    {
        let (a, b, c, d) = extra_rows[i];
        let ghost before = rows_view(rows@);
        rows.push(text_row(a, b, c, d));
        proof {
            assert(extra[i as int] == (a@, b@, c@, d@));
            assert(extra.take(i + 1) =~= extra.take(i as int).push(extra[i as int]));
            assert(rows_view(rows@) =~= before.push(seq![a@, b@, c@, d@]));
            assert(file_list_filters(folder@, extra.take(i + 1)) =~= file_list_filters(
                folder@,
                extra.take(i as int),
            ).push(seq![a@, b@, c@, d@]));
        }
    }
    assert(extra.take(extra_rows.len() as int) =~= extra);
    let filters_json = json_string_table(&rows);
    let mut fields: Vec<String> = Vec::new();
    fields.push(owned("file_name"));
    fields.push(owned("file_url"));
    fields.push(owned("file_size"));
    fields.push(owned("file_type"));
    fields.push(owned("is_private"));
    fields.push(owned("attached_to_doctype"));
    fields.push(owned("attached_to_name"));
    fields.push(owned("attached_to_field"));
    fields.push(owned("creation"));
    fields.push(owned("modified"));
    assert(texts_view(fields@) =~= file_list_fields());
    let fields_json = json_string_list(&fields);
    let mut r = owned("/api/resource/File?filters=");
    push_str(&mut r, url_encode(filters_json.as_str()).as_str());
    push_str(&mut r, "&fields=");
    push_str(&mut r, url_encode(fields_json.as_str()).as_str());
    push_str(&mut r, "&limit_page_length=");
    push_str(&mut r, decimal(limit as u64).as_str());
    push_str(&mut r, "&order_by=creation%20desc");
    r
}

// ---------------------------------------------------------------- single requests

/// The request path of `get_notifications`.
pub fn notifications_path(limit: u32) -> (r: String)
    ensures
        r@
            == "/api/method/frappe.desk.doctype.notification_log.notification_log.get_notification_logs?limit="@
            + nat_decimal(limit as nat),
{
    let mut r = owned(
        "/api/method/frappe.desk.doctype.notification_log.notification_log.get_notification_logs?limit=",
    );
    push_str(&mut r, decimal(limit as u64).as_str());
    r
}

/// The request path of `get_events`; the dates go in as they are.
pub fn events_path(start: &str, end: &str) -> (r: String)
    ensures
        r@ == "/api/method/frappe.desk.doctype.event.event.get_events?start="@ + start@ + "&end="@
            + end@,
{
    let mut r = owned("/api/method/frappe.desk.doctype.event.event.get_events?start=");
    push_str(&mut r, start);
    push_str(&mut r, "&end=");
    push_str(&mut r, end);
    r
}

/// The JSON text of a desktop page: the object with members `name`, `public` and
/// `title`, in that order (a `serde_json` object keeps its members sorted by key),
/// with no spaces.
pub open spec fn desktop_page_json(name: Seq<char>, title: Seq<char>, public: bool) -> Seq<char> {
    "{\"name\":"@ + json_quoted(name) + ",\"public\":"@ + if public {
        "true"@
    } else {
        "false"@
    } + ",\"title\":"@ + json_quoted(title) + "}"@
}

/// `serde_json::Value::Object` with members `name`, `title` (strings) and `public`
/// (a boolean), written by `to_string`: the members come out sorted by key, each string
/// quoted as [`json_quoted`] says, which is the text [`desktop_page_json`] states.
#[verifier::external_body]
fn desktop_page_text(name: &str, title: &str, public: bool) -> (r: String)
    ensures
        r@ == desktop_page_json(name@, title@, public),
{
    let mut page = serde_json::Map::new();
    page.insert("name".to_string(), serde_json::Value::String(name.to_string()));
    page.insert("title".to_string(), serde_json::Value::String(title.to_string()));
    page.insert("public".to_string(), serde_json::Value::Bool(public));
    serde_json::Value::Object(page).to_string()
}

/// The request path of `get_desktop_page`.
pub fn desktop_page_path(name: &str, title: &str, public: bool) -> (r: String)
    ensures
        r@ == "/api/method/frappe.desk.desktop.get_desktop_page?page="@ + url_encoded(
            desktop_page_json(name@, title@, public),
        ),
{
    let page = desktop_page_text(name, title, public);
    let mut r = owned("/api/method/frappe.desk.desktop.get_desktop_page?page=");
    push_str(&mut r, url_encode(page.as_str()).as_str());
    r
}

/// The request path of `download_pdf_kartu_piutang`.
pub open spec fn pdf_path_spec(
    doctype: Seq<char>,
    name: Seq<char>,
    format: Seq<char>,
    no_letterhead: bool,
) -> Seq<char> {
    "/api/method/frappe.utils.print_format.download_pdf?doctype="@ + url_encoded(doctype)
        + "&name="@ + url_encoded(name) + "&format="@ + url_encoded(format) + "&no_letterhead="@
        + if no_letterhead {
        "1"@
    } else {
        "0"@
    }
}

/// The request path of `download_pdf_kartu_piutang`.
pub fn pdf_download_path(doctype: &str, name: &str, format: &str, no_letterhead: bool) -> (r:
    String)
    ensures
        r@ == pdf_path_spec(doctype@, name@, format@, no_letterhead),
{
    let mut r = owned("/api/method/frappe.utils.print_format.download_pdf?doctype=");
    push_str(&mut r, url_encode(doctype).as_str());
    push_str(&mut r, "&name=");
    push_str(&mut r, url_encode(name).as_str());
    push_str(&mut r, "&format=");
    push_str(&mut r, url_encode(format).as_str());
    push_str(&mut r, "&no_letterhead=");
    push_str(
        &mut r,
        if no_letterhead {
            "1"
        } else {
            "0"
        },
    );
    r
}

/// The path of a document: `/api/resource/<doctype>/<name>`, as they are.
pub fn doc_path(doctype: &str, name: &str) -> (r: String)
    ensures
        r@ == "/api/resource/"@ + doctype@ + "/"@ + name@,
{
    let mut r = owned("/api/resource/");
    push_str(&mut r, doctype);
    push_str(&mut r, "/");
    push_str(&mut r, name);
    r
}

/// The path of a document type's collection: `/api/resource/<doctype>`.
pub fn resource_path(doctype: &str) -> (r: String)
    ensures
        r@ == "/api/resource/"@ + doctype@,
{
    let mut r = owned("/api/resource/");
    push_str(&mut r, doctype);
    r
}

/// The path of a whitelisted method: `/api/method/<method>`.
pub fn method_path(method: &str) -> (r: String)
    ensures
        r@ == "/api/method/"@ + method@,
{
    let mut r = owned("/api/method/");
    push_str(&mut r, method);
    r
}

/// A JSON object of string members, in the given order.
pub open spec fn json_string_object(entries: Seq<(Seq<char>, Seq<char>)>) -> Seq<char> {
    "{"@ + joined(
        entries.map_values(|e: (Seq<char>, Seq<char>)| json_quoted(e.0) + ":"@ + json_quoted(e.1)),
        ","@,
    ) + "}"@
}

/// The body of `call_method`: the arguments as a JSON object, in the order given (the
/// order in which their map is walked), or `{}` without arguments.
pub fn method_args_body(args: Option<&Vec<(String, String)>>) -> (r: String)
    ensures
        r@ == match args {
            Some(a) => json_string_object(entries_view(a@)),
            None => "{}"@,
        },
{
    match args {
        None => owned("{}"),
        Some(a) => {
            let ghost ev = entries_view(a@);
            let ghost members = ev.map_values(
                |e: (Seq<char>, Seq<char>)| json_quoted(e.0) + ":"@ + json_quoted(e.1),
            );
            let mut parts: Vec<String> = Vec::new();
            for i in 0..a.len()
                invariant
                    ev == entries_view(a@),
                    members == ev.map_values(
                        |e: (Seq<char>, Seq<char>)| json_quoted(e.0) + ":"@ + json_quoted(e.1),
                    ),
                    texts_view(parts@) =~= members.take(i as int),
            {
                let mut m = json_quote(a[i].0.as_str());
                push_str(&mut m, ":");
                push_str(&mut m, json_quote(a[i].1.as_str()).as_str());
                parts.push(m);
                proof {
                    assert(members.take(i + 1) =~= members.take(i as int).push(members[i as int]));
                }
            }
            assert(members.take(a.len() as int) =~= members);
            let mut r = owned("{");
            push_str(&mut r, join_texts(&parts, ",").as_str());
            push_str(&mut r, "}");
            r
        },
    }
}

// ---------------------------------------------------------------- form requests

/// A form request: the method's path and its fields in order.
pub struct FormRequest {
    pub path: String,
    pub form: Vec<(String, String)>,
}

pub struct FormRequestView {
    pub path: Seq<char>,
    pub form: Seq<(Seq<char>, Seq<char>)>,
}

impl View for FormRequest {
    type V = FormRequestView;

    open spec fn view(&self) -> FormRequestView {
        FormRequestView { path: self.path@, form: entries_view(self.form@) }
    }
}

fn field(name: &str, value: &str) -> (r: (String, String))
    ensures
        r.0@ == name@,
        r.1@ == value@,
{
    (owned(name), owned(value))
}

/// `global_search`: the query, from the first result, at most `limit` results, and the
/// document type (empty for all).
pub fn global_search_form(query: &str, limit: u32, doctype: Option<&str>) -> (r: FormRequest)
    ensures
        r@ == (FormRequestView {
            path: "/api/method/frappe.utils.global_search.search"@,
            form: seq![
                ("text"@, query@),
                ("start"@, "0"@),
                ("limit"@, nat_decimal(limit as nat)),
                ("doctype"@, match doctype {
                    Some(d) => d@,
                    None => Seq::empty(),
                }),
            ],
        }),
{
    let mut form: Vec<(String, String)> = Vec::new();
    form.push(field("text", query));
    form.push(field("start", "0"));
    form.push((owned("limit"), decimal(limit as u64)));
    match doctype {
        Some(d) => form.push(field("doctype", d)),
        None => form.push((owned("doctype"), String::new())),
    }
    let r = FormRequest { path: owned("/api/method/frappe.utils.global_search.search"), form };
    assert(r@.form =~= seq![
        ("text"@, query@),
        ("start"@, "0"@),
        ("limit"@, nat_decimal(limit as nat)),
        ("doctype"@, match doctype {
            Some(d) => d@,
            None => Seq::empty(),
        }),
    ]);
    r
}

/// `search_link`: text, document type, referring document type and page length.
pub fn search_link_form(txt: &str, doctype: &str, reference_doctype: &str, page_length: u32) -> (r:
    FormRequest)
    ensures
        r@ == (FormRequestView {
            path: "/api/method/frappe.desk.search.search_link"@,
            form: seq![
                ("txt"@, txt@),
                ("doctype"@, doctype@),
                ("reference_doctype"@, reference_doctype@),
                ("page_length"@, nat_decimal(page_length as nat)),
            ],
        }),
{
    let mut form: Vec<(String, String)> = Vec::new();
    form.push(field("txt", txt));
    form.push(field("doctype", doctype));
    form.push(field("reference_doctype", reference_doctype));
    form.push((owned("page_length"), decimal(page_length as u64)));
    let r = FormRequest { path: owned("/api/method/frappe.desk.search.search_link"), form };
    assert(r@.form =~= seq![
        ("txt"@, txt@),
        ("doctype"@, doctype@),
        ("reference_doctype"@, reference_doctype@),
        ("page_length"@, nat_decimal(page_length as nat)),
    ]);
    r
}

/// `get_count`: document type, filters, fields and whether to count distinct rows
/// (`true` or `false`).
pub fn get_count_form(doctype: &str, filters_json: &str, fields_json: &str, distinct: bool) -> (r:
    FormRequest)
    ensures
        r@ == (FormRequestView {
            path: "/api/method/frappe.desk.reportview.get_count"@,
            form: seq![
                ("doctype"@, doctype@),
                ("filters"@, filters_json@),
                ("fields"@, fields_json@),
                ("distinct"@, if distinct {
                    "true"@
                } else {
                    "false"@
                }),
            ],
        }),
{
    let mut form: Vec<(String, String)> = Vec::new();
    form.push(field("doctype", doctype));
    form.push(field("filters", filters_json));
    form.push(field("fields", fields_json));
    form.push(
        field(
            "distinct",
            if distinct {
                "true"
            } else {
                "false"
            },
        ),
    );
    let r = FormRequest { path: owned("/api/method/frappe.desk.reportview.get_count"), form };
    assert(r@.form =~= seq![
        ("doctype"@, doctype@),
        ("filters"@, filters_json@),
        ("fields"@, fields_json@),
        ("distinct"@, if distinct {
            "true"@
        } else {
            "false"@
        }),
    ]);
    r
}

/// A form request of one method with the given fields.
fn form_of(path: &str, names: &Vec<&str>, values: &Vec<&str>) -> (r: FormRequest)
    requires
        names.len() == values.len(),
    ensures
        r@.path == path@,
        r@.form.len() == names.len(),
        forall|i: int| 0 <= i < names.len() ==> #[trigger] r@.form[i] == (names@[i]@, values@[i]@),
{
    let mut form: Vec<(String, String)> = Vec::new();
    for i in 0..names.len()
        invariant
            names.len() == values.len(),
            form.len() == i,
            forall|j: int| 0 <= j < i ==> (#[trigger] form@[j]).0@ == names@[j]@ && form@[j].1@
                == values@[j]@,
    {
        form.push(field(names[i], values[i]));
    }
    FormRequest { path: owned(path), form }
}

/// `get_transitions`: the document as JSON.
pub fn get_transitions_form(doc_json: &str) -> (r: FormRequest)
    ensures
        r@ == (FormRequestView {
            path: "/api/method/frappe.model.workflow.get_transitions"@,
            form: seq![("doc"@, doc_json@)],
        }),
{
    let r = form_of("/api/method/frappe.model.workflow.get_transitions", &vec!["doc"], &vec![doc_json]);
    assert(r@.form =~= seq![("doc"@, doc_json@)]);
    r
}

/// `save_user_settings`: the document type and the settings as JSON.
pub fn save_user_settings_form(doctype: &str, user_settings: &str) -> (r: FormRequest)
    ensures
        r@ == (FormRequestView {
            path: "/api/method/frappe.model.utils.user_settings.save"@,
            form: seq![("doctype"@, doctype@), ("user_settings"@, user_settings@)],
        }),
{
    let r = form_of(
        "/api/method/frappe.model.utils.user_settings.save",
        &vec!["doctype", "user_settings"],
        &vec![doctype, user_settings],
    );
    assert(r@.form =~= seq![("doctype"@, doctype@), ("user_settings"@, user_settings@)]);
    r
}

/// `get_list_settings`: the document type.
pub fn list_settings_form(doctype: &str) -> (r: FormRequest)
    ensures
        r@ == (FormRequestView {
            path: "/api/method/frappe.desk.listview.get_list_settings"@,
            form: seq![("doctype"@, doctype@)],
        }),
{
    let r = form_of("/api/method/frappe.desk.listview.get_list_settings", &vec!["doctype"], &vec![doctype]);
    assert(r@.form =~= seq![("doctype"@, doctype@)]);
    r
}

/// `get_lazy_child_rows`: the document's name and the tab.
pub fn lazy_child_rows_form(docname: &str, tab: &str) -> (r: FormRequest)
    ensures
        r@ == (FormRequestView {
            path: "/api/method/juragan.ops.doctype.master_data_nasabah.master_data_nasabah.get_lazy_child_rows"@,
            form: seq![("docname"@, docname@), ("tab"@, tab@)],
        }),
{
    let r = form_of(
        "/api/method/juragan.ops.doctype.master_data_nasabah.master_data_nasabah.get_lazy_child_rows",
        &vec!["docname", "tab"],
        &vec![docname, tab],
    );
    assert(r@.form =~= seq![("docname"@, docname@), ("tab"@, tab@)]);
    r
}

} // verus!
