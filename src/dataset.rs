use vstd::prelude::*;

use core::marker::PhantomData;

use crate::client::ApifyClient;
use crate::locator::Method;
use crate::pagination::{NoOutput, PaginationList};
use crate::query::{
    append_query_param, bool_str, bool_text, decimal_string, decimal_text, query_text,
};
use crate::request::BaseBuilder;

verus! {

/// The formats dataset items can be downloaded in.
#[derive(Debug, Clone, Copy, PartialEq, Eq, Structural)]
pub enum Format {
    Json,
    Jsonl,
    Xml,
    Html,
    Csv,
    Xlsx,
    Rss,
}

/// The name of a format in the `format` query parameter.
pub open spec fn format_text(f: Format) -> Seq<char> {
    match f {
        Format::Json => "json"@,
        Format::Jsonl => "jsonl"@,
        Format::Xml => "xml"@,
        Format::Html => "html"@,
        Format::Csv => "csv"@,
        Format::Xlsx => "xlsx"@,
        Format::Rss => "rss"@,
    }
}

impl Format {
    /// The name of the format in the `format` query parameter.
    pub fn as_str(&self) -> (r: &'static str)
        ensures
            r@ == format_text(*self),
    {
        match self {
            Format::Json => "json",
            Format::Jsonl => "jsonl",
            Format::Xml => "xml",
            Format::Html => "html",
            Format::Csv => "csv",
            Format::Xlsx => "xlsx",
            Format::Rss => "rss",
        }
    }
}

impl Default for Format {
    fn default() -> (r: Format)
        ensures
            r == Format::Json,
    {
        Format::Json
    }
}

/// A parameter that is present only when `v` is.
pub open spec fn opt_param(key: Seq<char>, v: Option<Seq<char>>) -> Seq<(Seq<char>, Seq<char>)> {
    match v {
        Some(x) => seq![(key, x)],
        None => Seq::empty(),
    }
}

pub open spec fn bool_param(key: Seq<char>, v: Option<bool>) -> Seq<(Seq<char>, Seq<char>)> {
    opt_param(
        key,
        match v {
            Some(b) => Some(bool_text(b)),
            None => None,
        },
    )
}

pub open spec fn u64_param(key: Seq<char>, v: Option<u64>) -> Seq<(Seq<char>, Seq<char>)> {
    opt_param(
        key,
        match v {
            Some(n) => Some(decimal_text(n as nat)),
            None => None,
        },
    )
}

pub open spec fn string_param(key: Seq<char>, v: Option<String>) -> Seq<(Seq<char>, Seq<char>)> {
    opt_param(
        key,
        match v {
            Some(s) => Some(s@),
            None => None,
        },
    )
}

pub open spec fn format_param(key: Seq<char>, v: Option<Format>) -> Seq<(Seq<char>, Seq<char>)> {
    opt_param(
        key,
        match v {
            Some(f) => Some(format_text(f)),
            None => None,
        },
    )
}

proof fn lemma_query_text_push(ps: Seq<(Seq<char>, Seq<char>)>, p: (Seq<char>, Seq<char>))
    ensures
        query_text(ps + seq![p]) == crate::query::join_query(
            query_text(ps),
            crate::query::param_text(p.0, p.1),
        ),
{
    assert((ps + seq![p]).drop_last() =~= ps);
}

/// Appends `key=value` when `value` is present, keeping the query in step
/// with the parameter list `ps`.
fn add_param(
    query: &mut String,
    key: &str,
    value: Option<&str>,
    Ghost(ps): Ghost<Seq<(Seq<char>, Seq<char>)>>,
)
    requires
        old(query)@ == query_text(ps),
    ensures
        final(query)@ == query_text(
            ps + opt_param(
                key@,
                match value {
                    Some(v) => Some(v@),
                    None => None,
                },
            ),
        ),
{
    match value {
        Some(v) => {
            proof {
                lemma_query_text_push(ps, (key@, v@));
            }
            append_query_param(query, key, v);
        },
        None => {
            assert(ps + Seq::<(Seq<char>, Seq<char>)>::empty() =~= ps);
        },
    }
}

fn add_bool_param(
    query: &mut String,
    key: &str,
    value: Option<bool>,
    Ghost(ps): Ghost<Seq<(Seq<char>, Seq<char>)>>,
)
    requires
        old(query)@ == query_text(ps),
    ensures
        final(query)@ == query_text(ps + bool_param(key@, value)),
{
    match value {
        Some(b) => add_param(query, key, Some(bool_str(b)), Ghost(ps)),
        None => add_param(query, key, None, Ghost(ps)),
    }
}

fn add_u64_param(
    query: &mut String,
    key: &str,
    value: Option<u64>,
    Ghost(ps): Ghost<Seq<(Seq<char>, Seq<char>)>>,
)
    requires
        old(query)@ == query_text(ps),
    ensures
        final(query)@ == query_text(ps + u64_param(key@, value)),
{
    match value {
        Some(n) => {
            let text = decimal_string(n);
            add_param(query, key, Some(text.as_str()), Ghost(ps))
        },
        None => add_param(query, key, None, Ghost(ps)),
    }
}

fn add_string_param(
    query: &mut String,
    key: &str,
    value: &Option<String>,
    Ghost(ps): Ghost<Seq<(Seq<char>, Seq<char>)>>,
)
    requires
        old(query)@ == query_text(ps),
    ensures
        final(query)@ == query_text(ps + string_param(key@, *value)),
{
    match value {
        Some(s) => add_param(query, key, Some(s.as_str()), Ghost(ps)),
        None => add_param(query, key, None, Ghost(ps)),
    }
}

/// The query parameters of a request for dataset items; absent ones are
/// not sent.
#[derive(Debug, Default)]
pub struct GetItemsParams {
    pub format: Option<Format>,
    pub clean: Option<bool>,
    pub offset: Option<u64>,
    pub limit: Option<u64>,
    /// Field names, joined by commas.
    pub fields: Option<String>,
    /// Field names, joined by commas.
    pub omit: Option<String>,
    pub unwind: Option<String>,
    pub desc: Option<bool>,
    pub attachment: Option<bool>,
    pub delimiter: Option<String>,
    pub bom: Option<bool>,
    pub xml_root: Option<String>,
    pub xml_row: Option<String>,
    pub skip_header_row: Option<bool>,
    pub skip_hidden: Option<bool>,
    pub skip_empty: Option<bool>,
    pub simplified: Option<bool>,
    pub skip_failed_pages: Option<bool>,
}

impl GetItemsParams {
    /// The parameters that are present, in declaration order, with the
    /// names the API knows them by.
    pub open spec fn params_spec(&self) -> Seq<(Seq<char>, Seq<char>)> {
        Seq::empty() + format_param("format"@, self.format) + bool_param("clean"@, self.clean)
            + u64_param("offset"@, self.offset) + u64_param("limit"@, self.limit) + string_param(
            "fields"@,
            self.fields,
        ) + string_param("omit"@, self.omit) + string_param("unwind"@, self.unwind) + bool_param(
            "desc"@,
            self.desc,
        ) + bool_param("attachment"@, self.attachment) + string_param(
            "delimiter"@,
            self.delimiter,
        ) + bool_param("bom"@, self.bom) + string_param("xmlRoot"@, self.xml_root) + string_param(
            "xmlRow"@,
            self.xml_row,
        ) + bool_param("skipHeaderRow"@, self.skip_header_row) + bool_param(
            "skipHidden"@,
            self.skip_hidden,
        ) + bool_param("skipEmpty"@, self.skip_empty) + bool_param(
            "simplified"@,
            self.simplified,
        ) + bool_param("skipFailedPages"@, self.skip_failed_pages)
    }

    /// No parameter set.
    pub fn new() -> (r: GetItemsParams)
        ensures
            r.params_spec() == Seq::<(Seq<char>, Seq<char>)>::empty(),
    {
        let r = GetItemsParams {
            format: None,
            clean: None,
            offset: None,
            limit: None,
            fields: None,
            omit: None,
            unwind: None,
            desc: None,
            attachment: None,
            delimiter: None,
            bom: None,
            xml_root: None,
            xml_row: None,
            skip_header_row: None,
            skip_hidden: None,
            skip_empty: None,
            simplified: None,
            skip_failed_pages: None,
        };
        assert(r.params_spec() =~= Seq::<(Seq<char>, Seq<char>)>::empty());
        r
    }

    /// The query string of the present parameters: `key=value` pairs
    /// joined by `&`, empty when none is set.
    pub fn to_query_params(&self) -> (r: String)
        ensures
            r@ == query_text(self.params_spec()),
    {
        let mut q = String::new();
        let ghost ps: Seq<(Seq<char>, Seq<char>)> = Seq::empty();
        match self.format {
            Some(f) => add_param(&mut q, "format", Some(f.as_str()), Ghost(ps)),
            None => add_param(&mut q, "format", None, Ghost(ps)),
        }
        proof {
            ps = ps + format_param("format"@, self.format);
        }
        add_bool_param(&mut q, "clean", self.clean, Ghost(ps));
        proof {
            ps = ps + bool_param("clean"@, self.clean);
        }
        add_u64_param(&mut q, "offset", self.offset, Ghost(ps));
        proof {
            ps = ps + u64_param("offset"@, self.offset);
        }
        add_u64_param(&mut q, "limit", self.limit, Ghost(ps));
        proof {
            ps = ps + u64_param("limit"@, self.limit);
        }
        add_string_param(&mut q, "fields", &self.fields, Ghost(ps));
        proof {
            ps = ps + string_param("fields"@, self.fields);
        }
        add_string_param(&mut q, "omit", &self.omit, Ghost(ps));
        proof {
            ps = ps + string_param("omit"@, self.omit);
        }
        add_string_param(&mut q, "unwind", &self.unwind, Ghost(ps));
        proof {
            ps = ps + string_param("unwind"@, self.unwind);
        }
        add_bool_param(&mut q, "desc", self.desc, Ghost(ps));
        proof {
            ps = ps + bool_param("desc"@, self.desc);
        }
        add_bool_param(&mut q, "attachment", self.attachment, Ghost(ps));
        proof {
            ps = ps + bool_param("attachment"@, self.attachment);
        }
        add_string_param(&mut q, "delimiter", &self.delimiter, Ghost(ps));
        proof {
            ps = ps + string_param("delimiter"@, self.delimiter);
        }
        add_bool_param(&mut q, "bom", self.bom, Ghost(ps));
        proof {
            ps = ps + bool_param("bom"@, self.bom);
        }
        add_string_param(&mut q, "xmlRoot", &self.xml_root, Ghost(ps));
        proof {
            ps = ps + string_param("xmlRoot"@, self.xml_root);
        }
        add_string_param(&mut q, "xmlRow", &self.xml_row, Ghost(ps));
        proof {
            ps = ps + string_param("xmlRow"@, self.xml_row);
        }
        add_bool_param(&mut q, "skipHeaderRow", self.skip_header_row, Ghost(ps));
        proof {
            ps = ps + bool_param("skipHeaderRow"@, self.skip_header_row);
        }
        add_bool_param(&mut q, "skipHidden", self.skip_hidden, Ghost(ps));
        proof {
            ps = ps + bool_param("skipHidden"@, self.skip_hidden);
        }
        add_bool_param(&mut q, "skipEmpty", self.skip_empty, Ghost(ps));
        proof {
            ps = ps + bool_param("skipEmpty"@, self.skip_empty);
        }
        add_bool_param(&mut q, "simplified", self.simplified, Ghost(ps));
        proof {
            ps = ps + bool_param("simplified"@, self.simplified);
        }
        add_bool_param(&mut q, "skipFailedPages", self.skip_failed_pages, Ghost(ps));
        q
    }
}

/// A dataset as the API describes it.
#[derive(Debug)]
pub struct Dataset {
    pub id: String,
    pub name: Option<String>,
    pub user_id: String,
    pub created_at: String,
    pub modified_at: String,
    pub accessed_at: String,
    pub item_count: u32,
    pub clean_item_count: Option<u32>,
    pub act_id: Option<String>,
    pub act_run_id: Option<String>,
}

/// The body of a request that renames a dataset.
#[derive(Debug)]
pub struct UpdateDatasetPayload {
    pub name: String,
}

/// Requests about one dataset, identified as the caller wrote it.
#[derive(Debug)]
pub struct DatasetClient<'a> {
    pub apify_client: &'a ApifyClient,
    pub url_segment: String,
    pub identifier: String,
}

/// `b` is a request of `d`'s client to `datasets/<identifier>[/sub]` with `method`.
pub open spec fn dataset_request<'a, O>(
    b: BaseBuilder<'a, O>,
    d: DatasetClient<'a>,
    sub: Option<Seq<char>>,
    method: Method,
) -> bool {
    &&& b.client == d.apify_client
    &&& b.url_segment == d.url_segment
    &&& b.identifier == Some(d.identifier)
    &&& match sub {
        Some(s) => b.sub_resource matches Some(x) && x@ == s,
        None => b.sub_resource is None,
    }
    &&& b.method == method
}

impl<'a> DatasetClient<'a> {
    pub fn new(apify_client: &'a ApifyClient, identifier: &str) -> (r: Self)
        ensures
            r.apify_client == apify_client,
            r.url_segment@ == "datasets"@,
            r.identifier@ == identifier@,
    {
        DatasetClient {
            apify_client,
            url_segment: String::from_str("datasets"),
            identifier: String::from_str(identifier),
        }
    }

    /// Reads the dataset's description.
    pub fn get(&self) -> (r: BaseBuilder<'a, Dataset>)
        ensures
            dataset_request(r, *self, None, Method::Get),
            r.body is None,
            r.query_string@.len() == 0,
    {
        BaseBuilder::for_resource(
            self.apify_client,
            self.url_segment.clone(),
            self.identifier.clone(),
            None,
            Method::Get,
        )
    }

    /// Deletes the dataset.
    pub fn delete(&self) -> (r: BaseBuilder<'a, NoOutput>)
        ensures
            dataset_request(r, *self, None, Method::Delete),
            r.body is None,
            r.query_string@.len() == 0,
    {
        BaseBuilder::for_resource(
            self.apify_client,
            self.url_segment.clone(),
            self.identifier.clone(),
            None,
            Method::Delete,
        )
    }

    /// Renames the dataset; `payload` is an `UpdateDatasetPayload` serialized
    /// by the caller, or the error that gave.
    pub fn update(&self, payload: Result<Vec<u8>, serde_json::Error>) -> (r: BaseBuilder<
        'a,
        Dataset,
    >)
        ensures
            dataset_request(r, *self, None, Method::Put),
            r.body == Some(payload),
            r.query_string@.len() == 0,
    {
        let mut b = BaseBuilder::for_resource(
            self.apify_client,
            self.url_segment.clone(),
            self.identifier.clone(),
            None,
            Method::Put,
        );
        b.body = Some(payload);
        b
    }

    /// Appends items to the dataset; `items` are serialized by the caller
    /// (a JSON object or array of objects), or the error that gave.
    pub fn push_items(&self, items: Result<Vec<u8>, serde_json::Error>) -> (r: BaseBuilder<
        'a,
        NoOutput,
    >)
        ensures
            dataset_request(r, *self, Some("items"@), Method::Post),
            r.body == Some(items),
            r.query_string@.len() == 0,
    {
        let mut b = BaseBuilder::for_resource(
            self.apify_client,
            self.url_segment.clone(),
            self.identifier.clone(),
            Some(String::from_str("items")),
            Method::Post,
        );
        b.body = Some(items);
        b
    }

    /// Downloads the items in `format`, as raw bytes.
    pub fn download_items(&self, format: Format) -> (r: BaseBuilder<'a, Vec<u8>>)
        ensures
            dataset_request(r, *self, Some("items"@), Method::Get),
            r.body is None,
            r.query_string@ == "format="@ + format_text(format),
    {
        let mut b = BaseBuilder::for_resource(
            self.apify_client,
            self.url_segment.clone(),
            self.identifier.clone(),
            Some(String::from_str("items")),
            Method::Get,
        );
        append_query_param(&mut b.query_string, "format", format.as_str());
        proof {
            reveal_strlit("format=");
            reveal_strlit("format");
        }
        assert(b.query_string@ =~= "format="@ + format_text(format));
        b
    }

    /// Lists the items, decoded as `T`, one page at a time.
    pub fn list_items<T>(&self) -> (r: GetItemsBuilder<'_, T>)
        ensures
            *r.dataset_client == *self,
            r.options.params_spec() == Seq::<(Seq<char>, Seq<char>)>::empty(),
    {
        GetItemsBuilder::new(self)
    }
}

/// Requests about the collection of the token owner's datasets.
#[derive(Debug)]
pub struct DatasetCollectionClient<'a> {
    pub apify_client: &'a ApifyClient,
    pub url_segment: String,
}

impl<'a> DatasetCollectionClient<'a> {
    pub fn new(apify_client: &'a ApifyClient) -> (r: Self)
        ensures
            r.apify_client == apify_client,
            r.url_segment@ == "datasets"@,
    {
        DatasetCollectionClient { apify_client, url_segment: String::from_str("datasets") }
    }

    /// Lists the datasets, one page at a time; needs a token.
    pub fn list<T>(&self) -> (r: BaseBuilder<'a, T>)
        ensures
            r.client == self.apify_client,
            r.url_segment == self.url_segment,
            r.identifier is None,
            r.sub_resource is None,
            r.method == Method::Get,
            r.body is None,
            r.query_string@.len() == 0,
    {
        BaseBuilder::new(self.apify_client, self.url_segment.clone(), Method::Get)
    }
}

/// A request for one page of a dataset's items, decoded as `T`.
pub struct GetItemsBuilder<'a, T> {
    pub dataset_client: &'a DatasetClient<'a>,
    pub options: GetItemsParams,
    pub phantom: PhantomData<T>,
}

impl<'a, T> GetItemsBuilder<'a, T> {
    pub fn new(dataset_client: &'a DatasetClient<'a>) -> (r: Self)
        ensures
            r.dataset_client == dataset_client,
            r.options.params_spec() == Seq::<(Seq<char>, Seq<char>)>::empty(),
    {
        GetItemsBuilder { dataset_client, options: GetItemsParams::new(), phantom: PhantomData }
    }

    /// The request: `GET datasets/<identifier>/items` with the parameters set.
    pub fn request(&self) -> (r: BaseBuilder<'a, PaginationList<T>>)
        ensures
            dataset_request(r, *self.dataset_client, Some("items"@), Method::Get),
            r.body is None,
            r.query_string@ == query_text(self.options.params_spec()),
    {
        let mut b = BaseBuilder::for_resource(
            self.dataset_client.apify_client,
            self.dataset_client.url_segment.clone(),
            self.dataset_client.identifier.clone(),
            Some(String::from_str("items")),
            Method::Get,
        );
        b.query_string = self.options.to_query_params();
        b
    }

    /// Whether the request asks for descending order, which the decoded
    /// page then reports.
    pub fn descending(&self) -> (r: bool)
        ensures
            r == (self.options.desc == Some(true)),
    {
        match self.options.desc {
            Some(d) => d,
            None => false,
        }
    }
}

impl<'a, T> GetItemsBuilder<'a, T> {
    /// The format of the items (JSON unless set).
    pub fn format(&mut self, format: Format) -> (r: &mut Self)
        ensures
            *r == (GetItemsBuilder {
                options: GetItemsParams { format: Some(format), ..old(self).options },
                ..*old(self)
            }),
            *final(self) == *final(r),
    {
        self.options.format = Some(format);
        self
    }

    /// Only clean items: neither hidden nor empty.
    pub fn clean(&mut self, clean: bool) -> (r: &mut Self)
        ensures
            *r == (GetItemsBuilder {
                options: GetItemsParams { clean: Some(clean), ..old(self).options },
                ..*old(self)
            }),
            *final(self) == *final(r),
    {
        self.options.clean = Some(clean);
        self
    }

    /// How many items to skip.
    pub fn offset(&mut self, offset: u64) -> (r: &mut Self)
        ensures
            *r == (GetItemsBuilder {
                options: GetItemsParams { offset: Some(offset), ..old(self).options },
                ..*old(self)
            }),
            *final(self) == *final(r),
    {
        self.options.offset = Some(offset);
        self
    }

    /// How many items at most.
    pub fn limit(&mut self, limit: u64) -> (r: &mut Self)
        ensures
            *r == (GetItemsBuilder {
                options: GetItemsParams { limit: Some(limit), ..old(self).options },
                ..*old(self)
            }),
            *final(self) == *final(r),
    {
        self.options.limit = Some(limit);
        self
    }

    /// Only these fields of each item.
    pub fn fields(&mut self, fields: Vec<String>) -> (r: &mut Self)
        ensures
            *r == (GetItemsBuilder {
                options: GetItemsParams { fields: Some(r.options.fields->0), ..old(self).options },
                ..*old(self)
            }),
            r.options.fields is Some,
            r.options.fields->0@ == comma_joined(fields@.map_values(|f: String| f@)),
            *final(self) == *final(r),
    {
        self.options.fields = Some(join_commas(&fields));
        self
    }

    /// All fields of each item but these.
    pub fn omit(&mut self, omit: Vec<String>) -> (r: &mut Self)
        ensures
            *r == (GetItemsBuilder {
                options: GetItemsParams { omit: Some(r.options.omit->0), ..old(self).options },
                ..*old(self)
            }),
            r.options.omit is Some,
            r.options.omit->0@ == comma_joined(omit@.map_values(|f: String| f@)),
            *final(self) == *final(r),
    {
        self.options.omit = Some(join_commas(&omit));
        self
    }

    /// The field whose array or object value is unwound into items.
    pub fn unwind(&mut self, unwind: String) -> (r: &mut Self)
        ensures
            *r == (GetItemsBuilder {
                options: GetItemsParams { unwind: Some(unwind), ..old(self).options },
                ..*old(self)
            }),
            *final(self) == *final(r),
    {
        self.options.unwind = Some(unwind);
        self
    }

    /// Whether to list the items newest first.
    pub fn desc(&mut self, desc: bool) -> (r: &mut Self)
        ensures
            *r == (GetItemsBuilder {
                options: GetItemsParams { desc: Some(desc), ..old(self).options },
                ..*old(self)
            }),
            *final(self) == *final(r),
    {
        self.options.desc = Some(desc);
        self
    }

    /// Whether the answer is sent as an attachment.
    pub fn attachment(&mut self, attachment: bool) -> (r: &mut Self)
        ensures
            *r == (GetItemsBuilder {
                options: GetItemsParams { attachment: Some(attachment), ..old(self).options },
                ..*old(self)
            }),
            *final(self) == *final(r),
    {
        self.options.attachment = Some(attachment);
        self
    }

    /// The delimiter of CSV output.
    pub fn delimiter(&mut self, delimiter: String) -> (r: &mut Self)
        ensures
            *r == (GetItemsBuilder {
                options: GetItemsParams { delimiter: Some(delimiter), ..old(self).options },
                ..*old(self)
            }),
            *final(self) == *final(r),
    {
        self.options.delimiter = Some(delimiter);
        self
    }

    /// Whether text output starts with a byte order mark.
    pub fn bom(&mut self, bom: bool) -> (r: &mut Self)
        ensures
            *r == (GetItemsBuilder {
                options: GetItemsParams { bom: Some(bom), ..old(self).options },
                ..*old(self)
            }),
            *final(self) == *final(r),
    {
        self.options.bom = Some(bom);
        self
    }

    /// The root element of XML output.
    pub fn xml_root(&mut self, xml_root: String) -> (r: &mut Self)
        ensures
            *r == (GetItemsBuilder {
                options: GetItemsParams { xml_root: Some(xml_root), ..old(self).options },
                ..*old(self)
            }),
            *final(self) == *final(r),
    {
        self.options.xml_root = Some(xml_root);
        self
    }

    /// The element of each item in XML output.
    pub fn xml_row(&mut self, xml_row: String) -> (r: &mut Self)
        ensures
            *r == (GetItemsBuilder {
                options: GetItemsParams { xml_row: Some(xml_row), ..old(self).options },
                ..*old(self)
            }),
            *final(self) == *final(r),
    {
        self.options.xml_row = Some(xml_row);
        self
    }

    /// Whether CSV output leaves out its header row.
    pub fn skip_header_row(&mut self, skip_header_row: bool) -> (r: &mut Self)
        ensures
            *r == (GetItemsBuilder {
                options: GetItemsParams { skip_header_row: Some(skip_header_row), ..old(self).options },
                ..*old(self)
            }),
            *final(self) == *final(r),
    {
        self.options.skip_header_row = Some(skip_header_row);
        self
    }

    /// Whether hidden fields are left out.
    pub fn skip_hidden(&mut self, skip_hidden: bool) -> (r: &mut Self)
        ensures
            *r == (GetItemsBuilder {
                options: GetItemsParams { skip_hidden: Some(skip_hidden), ..old(self).options },
                ..*old(self)
            }),
            *final(self) == *final(r),
    {
        self.options.skip_hidden = Some(skip_hidden);
        self
    }

    /// Whether empty items are left out.
    pub fn skip_empty(&mut self, skip_empty: bool) -> (r: &mut Self)
        ensures
            *r == (GetItemsBuilder {
                options: GetItemsParams { skip_empty: Some(skip_empty), ..old(self).options },
                ..*old(self)
            }),
            *final(self) == *final(r),
    {
        self.options.skip_empty = Some(skip_empty);
        self
    }

    /// Whether items come in the simplified legacy shape.
    pub fn simplified(&mut self, simplified: bool) -> (r: &mut Self)
        ensures
            *r == (GetItemsBuilder {
                options: GetItemsParams { simplified: Some(simplified), ..old(self).options },
                ..*old(self)
            }),
            *final(self) == *final(r),
    {
        self.options.simplified = Some(simplified);
        self
    }

    /// Whether items of failed pages are left out.
    pub fn skip_failed_pages(&mut self, skip_failed_pages: bool) -> (r: &mut Self)
        ensures
            *r == (GetItemsBuilder {
                options: GetItemsParams { skip_failed_pages: Some(skip_failed_pages), ..old(self).options },
                ..*old(self)
            }),
            *final(self) == *final(r),
    {
        self.options.skip_failed_pages = Some(skip_failed_pages);
        self
    }
}

/// Strings joined by commas.
pub open spec fn comma_joined(parts: Seq<Seq<char>>) -> Seq<char>
    decreases parts.len(),
{
    if parts.len() == 0 {
        Seq::empty()
    } else if parts.len() == 1 {
        parts[0]
    } else {
        comma_joined(parts.drop_last()) + seq![','] + parts.last()
    }
}

/// The strings of `parts` joined by commas.
fn join_commas(parts: &Vec<String>) -> (r: String)
    ensures
        r@ == comma_joined(parts@.map_values(|f: String| f@)),
{
    let ghost views = parts@.map_values(|f: String| f@);
    let mut r = String::new();
    let mut i: usize = 0;
    proof {
        assert(views.take(0) =~= Seq::<Seq<char>>::empty());
    }
    while i < parts.len()
        invariant
            i <= parts@.len(),
            views == parts@.map_values(|f: String| f@),
            r@ == comma_joined(views.take(i as int)),
        decreases parts@.len() - i,
    {
        let ghost prev = r@;
        if i > 0 {
            r.append(",");
        }
        r.append(parts[i].as_str());
        proof {
            reveal_strlit(",");
            assert(prev == comma_joined(views.take(i as int)));
            assert(views.take(i + 1).drop_last() =~= views.take(i as int));
            assert(views.take(i + 1).last() == parts@[i as int]@);
            if i == 0 {
                assert(r@ =~= comma_joined(views.take(1)));
            } else {
                assert(r@ =~= comma_joined(views.take(i + 1)));
            }
        }
        i = i + 1;
    }
    assert(views.take(parts@.len() as int) =~= views);
    r
}

} // verus!
