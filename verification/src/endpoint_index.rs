//! The registry: the endpoints that the database declares, by path, and
//! the presentation data that goes with them.

use crate::endpoint::{endpoint_document, statement_text, Endpoint, EndpointView};
use crate::error::{Error, FetchError, Field};
use crate::json::{
    at, json_object, json_of, json_string, lemma_at_member, members_of, object_new, put, JsonDoc,
};
use crate::row::{
    doc_in, lemma_found_is_readable, lemma_none_missing, row_fault, rows_view, text_in, ColumnView,
    Row,
};
use crate::schema::schema_compiles;
use crate::table::{table_entries, table_get, table_insert, table_len, table_new, table_of};
use dashmap::DashMap;
use serde_json::Value;
use std::sync::Arc;
use vstd::prelude::*;

verus! {

/// The presentation data of the generated document.
#[derive(Debug)]
pub struct Info {
    title: String,
    description: String,
    version: String,
}

/// The content of an [`Info`].
pub struct InfoView {
    pub title: Seq<char>,
    pub description: Seq<char>,
    pub version: Seq<char>,
}

/// The registry. It is replaced as a whole on a reload and never changed
/// entry by entry.
pub struct EndpointIndex {
    info: Info,
    map: DashMap<String, Arc<Endpoint>>,
}

/// The content of an [`EndpointIndex`]: the presentation data, and the
/// endpoint under each path.
pub struct IndexView {
    pub info: InfoView,
    pub table: Map<Seq<char>, EndpointView>,
}

/// Why a registry cannot be built from the rows of the two queries.
pub enum Refusal {
    /// The rows do not have the agreed shape.
    Fetch(FetchError),
    /// The request schema of a row is no JSON Schema.
    Schema,
}

impl View for Info {
    type V = InfoView;

    closed spec fn view(&self) -> InfoView {
        InfoView { title: self.title@, description: self.description@, version: self.version@ }
    }
}

impl Info {
    /// The title of the generated document.
    pub fn title(&self) -> (title: &str)
        ensures
            title@ == self@.title,
    {
        self.title.as_str()
    }

    /// What the generated document says the relay is.
    pub fn description(&self) -> (description: &str)
        ensures
            description@ == self@.description,
    {
        self.description.as_str()
    }

    /// The version of the generated document.
    pub fn version(&self) -> (version: &str)
        ensures
            version@ == self@.version,
    {
        self.version.as_str()
    }
}

impl View for EndpointIndex {
    type V = IndexView;

    closed spec fn view(&self) -> IndexView {
        IndexView { info: self.info@, table: views_of(table_of(self.map)) }
    }
}

/// The content of each endpoint of a table.
pub open spec fn views_of(table: Map<Seq<char>, Endpoint>) -> Map<Seq<char>, EndpointView> {
    table.map_values(|endpoint: Endpoint| endpoint@)
}

/// The columns that the info query is read for.
pub open spec fn info_fields() -> Seq<Field> {
    seq![Field::Title, Field::Description, Field::Version]
}

/// The columns that the endpoints query is read for.
pub open spec fn endpoint_fields() -> Seq<Field> {
    seq![Field::Path, Field::FnName, Field::Request, Field::Response]
}

/// A path without its one leading slash, if it has one.
pub open spec fn normalized_path(path: Seq<char>) -> Seq<char> {
    if path.len() > 0 && path[0] == '/' {
        path.subrange(1, path.len() as int)
    } else {
        path
    }
}

/// What the rows of the info query amount to. There has to be exactly one
/// row, and it has to give a string for each of the three fields.
pub open spec fn info_of(rows: Seq<Seq<ColumnView>>) -> Result<InfoView, FetchError> {
    if rows.len() != 1 {
        Err(FetchError::RowCount)
    } else {
        match row_fault(rows[0], info_fields()) {
            Some(fault) => Err(fault),
            None => Ok(
                InfoView {
                    title: text_in(rows[0], Field::Title),
                    description: text_in(rows[0], Field::Description),
                    version: text_in(rows[0], Field::Version),
                },
            ),
        }
    }
}

/// What one row of the endpoints query amounts to: a path, without its
/// leading slash, and the endpoint to put under it.
pub open spec fn entry_of(row: Seq<ColumnView>) -> Result<(Seq<char>, EndpointView), Refusal> {
    match row_fault(row, endpoint_fields()) {
        Some(fault) => Err(Refusal::Fetch(fault)),
        None => if schema_compiles(doc_in(row, Field::Request)) {
            Ok(
                (
                    normalized_path(text_in(row, Field::Path)),
                    EndpointView {
                        statement: statement_text(text_in(row, Field::FnName)),
                        request_schema: doc_in(row, Field::Request),
                        response_schema: doc_in(row, Field::Response),
                    },
                ),
            )
        } else {
            Err(Refusal::Schema)
        },
    }
}

/// What the rows of the endpoints query amount to: an entry for each row,
/// in order, or what is wrong with the first row that gives none.
pub open spec fn entries_of(rows: Seq<Seq<ColumnView>>) -> Result<
    Seq<(Seq<char>, EndpointView)>,
    Refusal,
>
    decreases rows.len(),
{
    if rows.len() == 0 {
        Ok(Seq::empty())
    } else {
        match entries_of(rows.drop_last()) {
            Err(refusal) => Err(refusal),
            Ok(entries) => match entry_of(rows.last()) {
                Err(refusal) => Err(refusal),
                Ok(entry) => Ok(entries.push(entry)),
            },
        }
    }
}

/// The table that holds `entries`, put in one after the other: of two
/// entries with one path the later stays.
pub open spec fn table_from(entries: Seq<(Seq<char>, EndpointView)>) -> Map<Seq<char>, EndpointView>
    decreases entries.len(),
{
    if entries.len() == 0 {
        Map::empty()
    } else {
        table_from(entries.drop_last()).insert(entries.last().0, entries.last().1)
    }
}

/// The registry that the rows of the two queries amount to. The info rows
/// are read first; all of it is there, or none.
pub open spec fn index_of(
    info_rows: Seq<Seq<ColumnView>>,
    endpoint_rows: Seq<Seq<ColumnView>>,
) -> Result<IndexView, Refusal> {
    match info_of(info_rows) {
        Err(fault) => Err(Refusal::Fetch(fault)),
        Ok(info) => match entries_of(endpoint_rows) {
            Err(refusal) => Err(refusal),
            Ok(entries) => Ok(IndexView { info, table: table_from(entries) }),
        },
    }
}

/// Whether `error` reports `refusal`.
pub open spec fn refused(error: Error, refusal: Refusal) -> bool {
    match refusal {
        Refusal::Fetch(fault) => error == Error::MetadataFetch(fault),
        Refusal::Schema => error is SchemaCompile,
    }
}

/// The content of a list of entries.
pub open spec fn entries_view(entries: Seq<(String, Arc<Endpoint>)>) -> Seq<
    (Seq<char>, EndpointView),
> {
    entries.map_values(|entry: (String, Arc<Endpoint>)| (entry.0@, (*entry.1)@))
}

/// The `info` member of the generated document.
pub open spec fn info_document(info: InfoView) -> JsonDoc {
    JsonDoc::Record(
        map![
            "title"@ => JsonDoc::Text(info.title),
            "description"@ => JsonDoc::Text(info.description),
            "version"@ => JsonDoc::Text(info.version),
        ],
    )
}

/// The path item of each endpoint of a table, under its path.
pub open spec fn paths_of(table: Map<Seq<char>, EndpointView>) -> Map<Seq<char>, JsonDoc> {
    table.map_values(|endpoint: EndpointView| endpoint_document(endpoint))
}

/// The OpenAPI document of a registry.
pub open spec fn index_document(index: IndexView) -> JsonDoc {
    JsonDoc::Record(
        map![
            "openapi"@ => JsonDoc::Text("3.1.0"@),
            "info"@ => info_document(index.info),
            "paths"@ => JsonDoc::Record(paths_of(index.table)),
        ],
    )
}

/// Whether a reload with the rows of the two queries leads from `before`
/// to `after`: to the registry that the rows amount to, or, where they
/// amount to none, nowhere.
pub open spec fn reloaded(
    before: EndpointIndex,
    after: EndpointIndex,
    info_rows: Seq<Seq<ColumnView>>,
    endpoint_rows: Seq<Seq<ColumnView>>,
) -> bool {
    match index_of(info_rows, endpoint_rows) {
        Ok(index) => after@ == index,
        Err(_) => after == before,
    }
}

/// Whether no entry after the one at `place` has its path.
pub open spec fn is_last_of_path(entries: Seq<(Seq<char>, EndpointView)>, place: int) -> bool {
    forall|later: int| place < later < entries.len() ==> entries[later].0 != entries[place].0
}

/// A table built from entries has exactly their paths, and under each path
/// the last entry that has it.
pub proof fn lemma_last_entry_wins(entries: Seq<(Seq<char>, EndpointView)>)
    ensures
        table_from(entries).dom().finite(),
        forall|path: Seq<char>| #[trigger]
            table_from(entries).contains_key(path) <==> exists|place: int|
                0 <= place < entries.len() && #[trigger] entries[place].0 == path,
        forall|place: int|
            0 <= place < entries.len() && #[trigger] is_last_of_path(entries, place)
                ==> table_from(entries)[entries[place].0] == entries[place].1,
    decreases entries.len(),
{
    if entries.len() > 0 {
        let earlier = entries.drop_last();
        lemma_last_entry_wins(earlier);
        assert forall|path: Seq<char>| #[trigger]
            table_from(entries).contains_key(path) implies exists|place: int|
            0 <= place < entries.len() && #[trigger] entries[place].0 == path by {
            if path == entries.last().0 {
                assert(entries[entries.len() - 1].0 == path);
            } else {
                assert(table_from(earlier).contains_key(path));
                let place = choose|place: int|
                    0 <= place < earlier.len() && #[trigger] earlier[place].0 == path;
                assert(entries[place].0 == path);
            }
        }
        assert forall|path: Seq<char>|
            (exists|place: int|
                0 <= place < entries.len() && #[trigger] entries[place].0
                    == path) implies #[trigger] table_from(entries).contains_key(path) by {
            let place = choose|place: int|
                0 <= place < entries.len() && #[trigger] entries[place].0 == path;
            if place < entries.len() - 1 {
                assert(earlier[place].0 == path);
            }
        }
        assert forall|place: int|
            0 <= place < entries.len() && #[trigger] is_last_of_path(
                entries,
                place,
            ) implies table_from(entries)[entries[place].0] == entries[place].1 by {
            if place < entries.len() - 1 {
                assert(entries[entries.len() - 1].0 != entries[place].0);
                assert forall|later: int| place < later < earlier.len() implies earlier[later].0
                    != earlier[place].0 by {
                    assert(entries[later].0 != entries[place].0);
                }
                assert(is_last_of_path(earlier, place));
                assert(earlier[place] == entries[place]);
            }
        }
    }
}

/// Rows that amount to entries give one entry for each row, in the order
/// of the rows.
pub proof fn lemma_entry_per_row(rows: Seq<Seq<ColumnView>>)
    requires
        entries_of(rows) is Ok,
    ensures
        entries_of(rows)->Ok_0.len() == rows.len(),
        forall|place: int|
            0 <= place < rows.len() ==> entry_of(#[trigger] rows[place]) == Ok::<
                (Seq<char>, EndpointView),
                Refusal,
            >(entries_of(rows)->Ok_0[place]),
    decreases rows.len(),
{
    if rows.len() > 0 {
        lemma_entry_per_row(rows.drop_last());
        assert forall|place: int| 0 <= place < rows.len() implies entry_of(#[trigger] rows[place])
            == Ok::<(Seq<char>, EndpointView), Refusal>(entries_of(rows)->Ok_0[place]) by {
            if place < rows.len() - 1 {
                assert(rows.drop_last()[place] == rows[place]);
            }
        }
    }
}

/// A registry built from rows has one entry for each distinct path of the
/// rows, and under a path what the last row with that path declares.
pub proof fn lemma_last_row_wins(
    info_rows: Seq<Seq<ColumnView>>,
    endpoint_rows: Seq<Seq<ColumnView>>,
)
    requires
        index_of(info_rows, endpoint_rows) is Ok,
    ensures
        index_of(info_rows, endpoint_rows)->Ok_0.table.dom().finite(),
        forall|path: Seq<char>| #[trigger]
            index_of(info_rows, endpoint_rows)->Ok_0.table.contains_key(path) <==> exists|
                place: int,
            |
                0 <= place < endpoint_rows.len() && (#[trigger] entry_of(
                    endpoint_rows[place],
                ))->Ok_0.0 == path,
        forall|place: int|
            0 <= place < endpoint_rows.len() && (forall|later: int|
                place < later < endpoint_rows.len() ==> (#[trigger] entry_of(
                    endpoint_rows[later],
                ))->Ok_0.0 != entry_of(endpoint_rows[place])->Ok_0.0) ==> index_of(
                info_rows,
                endpoint_rows,
            )->Ok_0.table[(#[trigger] entry_of(endpoint_rows[place]))->Ok_0.0] == entry_of(
                endpoint_rows[place],
            )->Ok_0.1,
{
    let entries = entries_of(endpoint_rows)->Ok_0;
    let table = index_of(info_rows, endpoint_rows)->Ok_0.table;
    assert(table == table_from(entries));
    lemma_entry_per_row(endpoint_rows);
    lemma_last_entry_wins(entries);
    assert forall|path: Seq<char>| #[trigger] table.contains_key(path) implies exists|place: int|
        0 <= place < endpoint_rows.len() && (#[trigger] entry_of(endpoint_rows[place]))->Ok_0.0
            == path by {
        let place = choose|place: int|
            0 <= place < entries.len() && #[trigger] entries[place].0 == path;
        assert(entry_of(endpoint_rows[place])->Ok_0.0 == path);
    }
    assert forall|path: Seq<char>|
        (exists|place: int|
            0 <= place < endpoint_rows.len() && (#[trigger] entry_of(
                endpoint_rows[place],
            ))->Ok_0.0 == path) implies #[trigger] table.contains_key(path) by {
        let place = choose|place: int|
            0 <= place < endpoint_rows.len() && (#[trigger] entry_of(
                endpoint_rows[place],
            ))->Ok_0.0 == path;
        assert(entries[place].0 == path);
    }
    assert forall|place: int|
        0 <= place < endpoint_rows.len() && (forall|later: int|
            place < later < endpoint_rows.len() ==> (#[trigger] entry_of(
                endpoint_rows[later],
            ))->Ok_0.0 != entry_of(endpoint_rows[place])->Ok_0.0) implies table[(#[trigger] entry_of(
        endpoint_rows[place],
    ))->Ok_0.0] == entry_of(endpoint_rows[place])->Ok_0.1 by {
        assert forall|later: int| place < later < entries.len() implies entries[later].0
            != entries[place].0 by {
            assert(entry_of(endpoint_rows[later])->Ok_0.0 != entry_of(
                endpoint_rows[place],
            )->Ok_0.0);
        }
        assert(is_last_of_path(entries, place));
    }
}

/// The OpenAPI document of a registry has, under `paths`, exactly one path
/// item for each endpoint of the registry: under the endpoint's path, the
/// path item of that endpoint.
pub proof fn lemma_document_lists_endpoints(index: IndexView)
    ensures
        at(index_document(index), seq!["paths"@]) == Some(JsonDoc::Record(paths_of(index.table))),
        paths_of(index.table).dom() == index.table.dom(),
        forall|path: Seq<char>| #[trigger]
            index.table.contains_key(path) ==> paths_of(index.table)[path] == endpoint_document(
                index.table[path],
            ),
{
    reveal_strlit("openapi");
    reveal_strlit("info");
    reveal_strlit("paths");
    assert("openapi"@.len() != "paths"@.len());
    assert("info"@.len() != "paths"@.len());
    let members = index_document(index)->Record_0;
    lemma_at_member(members, "paths"@, Seq::empty());
    assert(seq!["paths"@] + Seq::<Seq<char>>::empty() =~= seq!["paths"@]);
    assert(paths_of(index.table).dom() =~= index.table.dom());
}

/// Reloading twice from rows of the same content leaves the registry as
/// the first reload left it: the same paths, and under each path the same
/// path item, whatever the registry was before.
pub proof fn lemma_reload_is_idempotent(
    before: EndpointIndex,
    once: EndpointIndex,
    twice: EndpointIndex,
    info_rows: Seq<Seq<ColumnView>>,
    endpoint_rows: Seq<Seq<ColumnView>>,
)
    requires
        reloaded(before, once, info_rows, endpoint_rows),
        reloaded(once, twice, info_rows, endpoint_rows),
    ensures
        twice@ == once@,
        twice@.table.dom() == once@.table.dom(),
        forall|path: Seq<char>| #[trigger]
            once@.table.contains_key(path) ==> endpoint_document(twice@.table[path])
                == endpoint_document(once@.table[path]),
        index_document(twice@) == index_document(once@),
{
}

/// Rows that are refused up to some row are refused as a whole, for the
/// same reason.
pub proof fn lemma_refusal_stays(rows: Seq<Seq<ColumnView>>, n: int)
    requires
        0 <= n <= rows.len(),
        entries_of(rows.take(n)) is Err,
    ensures
        entries_of(rows) == entries_of(rows.take(n)),
    decreases rows.len() - n,
{
    if n < rows.len() {
        assert(rows.take(n + 1).drop_last() =~= rows.take(n));
        lemma_refusal_stays(rows, n + 1);
    } else {
        assert(rows.take(n) =~= rows);
    }
}

/// Strips the one leading slash of a path, if it has one.
pub fn normalize_path(path: String) -> (normalized: String)
    ensures
        normalized@ == normalized_path(path@),
{
    let length = path.as_str().unicode_len();
    if length > 0 && path.as_str().get_char(0) == '/' {
        String::from_str(path.as_str().substring_char(1, length))
    } else {
        path
    }
}

/// Reads the presentation data from the rows that the info query returned.
pub fn fetch_info(rows: &Vec<Row>) -> (made: Result<Info, Error>)
    ensures
        match info_of(rows_view(rows@)) {
            Ok(info) => made matches Ok(read) && read@ == info,
            Err(fault) => made matches Err(error) && error == Error::MetadataFetch(fault),
        },
{
    if rows.len() != 1 {
        return Err(Error::MetadataFetch(FetchError::RowCount));
    }
    let row = &rows[0];
    let fields = vec![Field::Title, Field::Description, Field::Version];
    assert(fields@ =~= info_fields());
    match row.check(&fields) {
        Some(fault) => {
            return Err(Error::MetadataFetch(fault));
        },
        None => {},
    }
    proof {
        lemma_none_missing(row@, fields@, 0);
        lemma_none_missing(row@, fields@, 1);
        lemma_none_missing(row@, fields@, 2);
        lemma_found_is_readable(row@, fields@, 0);
        lemma_found_is_readable(row@, fields@, 1);
        lemma_found_is_readable(row@, fields@, 2);
    }
    match (row.text(Field::Title), row.text(Field::Description), row.text(Field::Version)) {
        (Some(title), Some(description), Some(version)) => Ok(Info { title, description, version }),
        _ => {
            assert(false);
            Err(Error::MetadataFetch(FetchError::RowCount))
        },
    }
}

/// Reads one row of the endpoints query: the path, and the endpoint built
/// from the rest.
fn read_endpoint(row: &Row) -> (made: Result<(String, Arc<Endpoint>), Error>)
    ensures
        match entry_of(row@) {
            Ok(entry) => made matches Ok(read) && read.0@ == entry.0 && (*read.1)@ == entry.1,
            Err(refusal) => made matches Err(error) && refused(error, refusal),
        },
{
    let fields = vec![Field::Path, Field::FnName, Field::Request, Field::Response];
    assert(fields@ =~= endpoint_fields());
    match row.check(&fields) {
        Some(fault) => {
            return Err(Error::MetadataFetch(fault));
        },
        None => {},
    }
    proof {
        lemma_none_missing(row@, fields@, 0);
        lemma_none_missing(row@, fields@, 1);
        lemma_none_missing(row@, fields@, 2);
        lemma_none_missing(row@, fields@, 3);
        lemma_found_is_readable(row@, fields@, 0);
        lemma_found_is_readable(row@, fields@, 1);
        lemma_found_is_readable(row@, fields@, 2);
        lemma_found_is_readable(row@, fields@, 3);
    }
    match (
        row.text(Field::Path),
        row.text(Field::FnName),
        row.document(Field::Request),
        row.document(Field::Response),
    ) {
        (Some(path), Some(fn_name), Some(request), Some(response)) => {
            match Endpoint::from_config(fn_name, request, response) {
                Ok(endpoint) => Ok((normalize_path(path), Arc::new(endpoint))),
                Err(error) => Err(error),
            }
        },
        _ => {
            assert(false);
            Err(Error::MetadataFetch(FetchError::RowCount))
        },
    }
}

/// Reads the endpoints from the rows that the endpoints query returned:
/// one entry for each row, in the order of the rows. The first row that
/// cannot be read, or whose request schema does not compile, fails the
/// whole of it.
pub fn fetch_endpoints(rows: &Vec<Row>) -> (made: Result<Vec<(String, Arc<Endpoint>)>, Error>)
    ensures
        match entries_of(rows_view(rows@)) {
            Ok(entries) => made matches Ok(read) && entries_view(read@) == entries,
            Err(refusal) => made matches Err(error) && refused(error, refusal),
        },
{
    let ghost views = rows_view(rows@);
    let mut entries: Vec<(String, Arc<Endpoint>)> = Vec::new();
    let mut n: usize = 0;
    assert(views.take(0) =~= Seq::<Seq<ColumnView>>::empty());
    assert(entries_view(entries@) =~= Seq::<(Seq<char>, EndpointView)>::empty());
    while n < rows.len()
        invariant
            0 <= n <= rows.len(),
            views == rows_view(rows@),
            entries_of(views.take(n as int)) == Ok::<Seq<(Seq<char>, EndpointView)>, Refusal>(
                entries_view(entries@),
            ),
        decreases rows.len() - n,
    {
        assert(views.take(n + 1).drop_last() =~= views.take(n as int));
        assert(views.take(n + 1).last() == rows[n as int]@);
        match read_endpoint(&rows[n]) {
            Ok(entry) => {
                let ghost before = entries@;
                entries.push(entry);
                assert(entries_view(entries@) =~= entries_view(before).push(
                    (entry.0@, (*entry.1)@),
                ));
            },
            Err(error) => {
                proof {
                    lemma_refusal_stays(views, n + 1);
                }
                return Err(error);
            },
        }
        n = n + 1;
    }
    assert(views.take(n as int) =~= views);
    Ok(entries)
}

/// Puts `entries` into a new table, one after the other.
fn table_with(entries: Vec<(String, Arc<Endpoint>)>) -> (table: DashMap<String, Arc<Endpoint>>)
    ensures
        views_of(table_of(table)) == table_from(entries_view(entries@)),
{
    let ghost all = entries_view(entries@);
    let mut table = table_new();
    assert(views_of(table_of(table)) =~= table_from(all.take(0)));
    for entry in rest: entries
        invariant
            rest.seq() == entries@,
            all == entries_view(entries@),
            views_of(table_of(table)) == table_from(all.take(rest.index() as int)),
    {
        let ghost n = rest.index() as int;
        let ghost before = table_of(table);
        assert(all.take(n + 1).drop_last() =~= all.take(n));
        assert(all.take(n + 1).last() == (entry.0@, (*entry.1)@));
        let (path, endpoint) = entry;
        table_insert(&mut table, path, endpoint);
        assert(views_of(table_of(table)) =~= views_of(before).insert(path@, (*endpoint)@));
    }
    assert(all.take(entries@.len() as int) =~= all);
    table
}

impl EndpointIndex {
    /// Builds the registry from the rows that the two queries returned. It
    /// is built whole or not at all: the first thing found wrong, in the
    /// info rows and then in the endpoint rows, is what comes back.
    pub fn fetch(info_rows: &Vec<Row>, endpoint_rows: &Vec<Row>) -> (made: Result<
        EndpointIndex,
        Error,
    >)
        ensures
            match index_of(rows_view(info_rows@), rows_view(endpoint_rows@)) {
                Ok(index) => made matches Ok(built) && built@ == index,
                Err(refusal) => made matches Err(error) && refused(error, refusal),
            },
    {
        let info = match fetch_info(info_rows) {
            Ok(info) => info,
            Err(error) => {
                return Err(error);
            },
        };
        let endpoints = match fetch_endpoints(endpoint_rows) {
            Ok(endpoints) => endpoints,
            Err(error) => {
                return Err(error);
            },
        };
        Ok(EndpointIndex { info, map: table_with(endpoints) })
    }

    /// Builds the registry anew from the rows that the two queries
    /// returned, and puts it in the place of this one. Where it cannot be
    /// built, this one stays as it was.
    pub fn refresh(&mut self, info_rows: &Vec<Row>, endpoint_rows: &Vec<Row>) -> (done: Result<
        (),
        Error,
    >)
        ensures
            reloaded(*old(self), *final(self), rows_view(info_rows@), rows_view(endpoint_rows@)),
            match index_of(rows_view(info_rows@), rows_view(endpoint_rows@)) {
                Ok(_) => done is Ok,
                Err(refusal) => done matches Err(error) && refused(error, refusal),
            },
    {
        match EndpointIndex::fetch(info_rows, endpoint_rows) {
            Ok(built) => {
                self.info = built.info;
                self.map = built.map;
                Ok(())
            },
            Err(error) => Err(error),
        }
    }

    /// The number of endpoints.
    pub fn get_count(&self) -> (count: usize)
        ensures
            count == self@.table.len(),
    {
        assert(self@.table.dom() =~= table_of(self.map).dom());
        table_len(&self.map)
    }

    /// The endpoint under `path`, or `NotFound` where there is none.
    pub fn get_endpoint(&self, path: &str) -> (found: Result<Arc<Endpoint>, Error>)
        ensures
            match found {
                Ok(endpoint) => self@.table.contains_key(path@) && (*endpoint)@ == self@.table[path@],
                Err(error) => !self@.table.contains_key(path@) && error == Error::NotFound,
            },
    {
        match table_get(&self.map, path) {
            Some(endpoint) => Ok(endpoint),
            None => Err(Error::NotFound),
        }
    }

    /// The OpenAPI document of the registry: the presentation data, and
    /// under each path the path item of its endpoint.
    pub fn get_schema(&self) -> (document: Value)
        ensures
            json_of(document) == index_document(self@),
    {
        let entries = table_entries(&self.map);
        let ghost table = table_of(self.map);
        let mut paths = object_new();
        let mut n: usize = 0;
        while n < entries.len()
            invariant
                0 <= n <= entries.len(),
                table == table_of(self.map),
                forall|i: int|
                    0 <= i < entries.len() ==> {
                        &&& table.contains_key(#[trigger] entries[i].0@)
                        &&& table[entries[i].0@] == *entries[i].1
                    },
                forall|path: Seq<char>| #[trigger]
                    members_of(paths).contains_key(path) <==> exists|i: int|
                        0 <= i < n && #[trigger] entries[i].0@ == path,
                forall|path: Seq<char>| #[trigger]
                    members_of(paths).contains_key(path) ==> members_of(paths)[path]
                        == endpoint_document(table[path]@),
            decreases entries.len() - n,
        {
            let item = entries[n].1.get_schema();
            put(&mut paths, entries[n].0.as_str(), item);
            n = n + 1;
        }
        assert(members_of(paths) =~= paths_of(self@.table));
        let mut info = object_new();
        put(&mut info, "title", json_string(self.info.title.clone()));
        put(&mut info, "description", json_string(self.info.description.clone()));
        put(&mut info, "version", json_string(self.info.version.clone()));
        let mut document = object_new();
        put(&mut document, "openapi", json_string(String::from_str("3.1.0")));
        put(&mut document, "info", json_object(info));
        put(&mut document, "paths", json_object(paths));
        json_object(document)
    }
}

} // verus!
