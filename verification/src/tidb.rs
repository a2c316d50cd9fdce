//! Full-text search in a TiDB table.

use crate::config::{TidbConfig, TidbConfigView};
use crate::error::{answer, internal_error, ErrorCode, McpError, McpErrorView};
use crate::text::{decimal, decimal_form, decimal_form_is_the_only_one, joined, unsigned_value};
use vstd::prelude::*;

verus! {

/// A row that a full-text search found.
#[derive(Debug, Clone, PartialEq, Eq)]
pub struct TidbSearchHit {
    pub content: String,
}

impl DeepView for TidbSearchHit {
    type V = Seq<char>;

    open spec fn deep_view(&self) -> Seq<char> {
        self.content@
    }
}

/// What a query of the database gives: a value, or the text of the error.
pub open spec fn queried<T: DeepView>(r: Result<T, String>) -> Result<T::V, Seq<char>> {
    match r {
        Ok(value) => Ok(value.deep_view()),
        Err(e) => Err(e@),
    }
}

// ---------------------------------------------------------------------------
// The queries.
// ---------------------------------------------------------------------------

/// The query for the version of the database.
pub open spec fn version_sql() -> Seq<char> {
    "SELECT VERSION()"@
}

/// The query that counts the tables with the configured name.
pub open spec fn table_sql(config: TidbConfigView) -> Seq<char> {
    "SELECT COUNT(*) FROM information_schema.tables\n                WHERE table_schema = '"@
        + config.database + "' AND table_name = '"@ + config.table_name + "'"@
}

/// The query for the rows that match the keywords, the best matches first.
pub open spec fn hits_sql(config: TidbConfigView, keywords: Seq<char>, limit: u64) -> Seq<char> {
    "SELECT * FROM "@ + config.table_name + "\n                WHERE fts_match_word('"@ + keywords
        + "', content)\n                ORDER BY fts_match_word('"@ + keywords
        + "', content)\n                DESC LIMIT "@ + decimal_form(limit as nat)
}

/// Writes the query that counts the tables with the configured name.
pub fn write_table_sql(config: &TidbConfig) -> (r: String)
    ensures
        r@ == table_sql(config.deep_view()),
{
    let mut r =
        "SELECT COUNT(*) FROM information_schema.tables\n                WHERE table_schema = '".to_owned();
    r.append(config.database.as_str());
    r.append("' AND table_name = '");
    r.append(config.table_name.as_str());
    r.append("'");
    r
}

/// Writes the query for the rows that match the keywords.
pub fn write_hits_sql(config: &TidbConfig, keywords: &str, limit: u64) -> (r: String)
    ensures
        r@ == hits_sql(config.deep_view(), keywords@, limit),
{
    let mut r = "SELECT * FROM ".to_owned();
    r.append(config.table_name.as_str());
    r.append("\n                WHERE fts_match_word('");
    r.append(keywords);
    r.append("', content)\n                ORDER BY fts_match_word('");
    r.append(keywords);
    r.append("', content)\n                DESC LIMIT ");
    r.append(decimal(limit).as_str());
    r
}

// ---------------------------------------------------------------------------
// What the queries give.
// ---------------------------------------------------------------------------

/// Whether a connection was to be had.
pub open spec fn connection_result(given: Result<(), Seq<char>>) -> Result<(), McpErrorView> {
    match given {
        Ok(_) => Ok(()),
        Err(e) => Err(internal_error("Failed to get connection: "@ + e)),
    }
}

/// Whether the database told its version.
pub open spec fn version_result(given: Result<Option<Seq<char>>, Seq<char>>) -> Result<
    (),
    McpErrorView,
> {
    match given {
        Ok(Some(_)) => Ok(()),
        Ok(None) => Err(internal_error("Failed to query version"@)),
        Err(e) => Err(internal_error("Failed to query version: "@ + e)),
    }
}

/// Whether the table is there. No count is a count of zero.
pub open spec fn table_result(
    config: TidbConfigView,
    given: Result<Option<i32>, Seq<char>>,
) -> Result<(), McpErrorView> {
    match given {
        Err(e) => Err(internal_error("Failed to check table: "@ + e)),
        Ok(count) => if count is None || count == Some(0i32) {
            Err(
                internal_error(
                    "Not found table `"@ + config.table_name + "` in database `"@ + config.database
                        + "`"@,
                ),
            )
        } else {
            Ok(())
        },
    }
}

/// The contents of the rows that were found.
pub open spec fn hits_result(given: Result<Seq<Seq<char>>, Seq<char>>) -> Result<
    Seq<Seq<char>>,
    McpErrorView,
> {
    match given {
        Ok(contents) => Ok(contents),
        Err(e) => Err(internal_error("Failed to execute search: "@ + e)),
    }
}

/// Whether a connection was to be had.
pub fn check_connection(given: Result<(), String>) -> (r: Result<(), McpError>)
    ensures
        answer(r) == connection_result(queried(given)),
{
    match given {
        Ok(_) => Ok(()),
        Err(e) => Err(McpError::caused("Failed to get connection: ", e.as_str())),
    }
}

/// Whether the database told its version.
pub fn check_version(given: Result<Option<String>, String>) -> (r: Result<(), McpError>)
    ensures
        answer(r) == version_result(queried(given)),
{
    match given {
        Ok(Some(_)) => Ok(()),
        Ok(None) => Err(McpError::internal("Failed to query version")),
        Err(e) => Err(McpError::caused("Failed to query version: ", e.as_str())),
    }
}

/// Whether the table is there.
pub fn check_table(config: &TidbConfig, given: Result<Option<i32>, String>) -> (r: Result<
    (),
    McpError,
>)
    ensures
        answer(r) == table_result(config.deep_view(), queried(given)),
{
    let count: i32 = match given {
        Ok(Some(count)) => count,
        Ok(None) => 0,
        Err(e) => {
            return Err(McpError::caused("Failed to check table: ", e.as_str()));
        },
    };
    if count == 0 {
        let mut message = "Not found table `".to_owned();
        message.append(config.table_name.as_str());
        message.append("` in database `");
        message.append(config.database.as_str());
        message.append("`");
        Err(McpError::internal(message.as_str()))
    } else {
        Ok(())
    }
}

/// The contents of the rows, in order.
fn take_contents(hits: &Vec<TidbSearchHit>) -> (r: Vec<String>)
    ensures
        r.deep_view() == hits.deep_view(),
{
    let mut contents: Vec<String> = Vec::new();
    let mut i: usize = 0;
    while i < hits.len()
        invariant
            i <= hits@.len(),
            contents.deep_view() == hits.deep_view().take(i as int),
        decreases hits.len() - i,
    {
        let ghost before = contents.deep_view();
        contents.push(hits[i].content.clone());
        assert(contents.deep_view() =~= before.push(hits.deep_view()[i as int]));
        i = i + 1;
    }
    contents
}

/// The contents of the rows that were found.
pub fn read_hits(given: Result<Vec<TidbSearchHit>, String>) -> (r: Result<Vec<String>, McpError>)
    ensures
        answer(r) == hits_result(queried(given)),
{
    match given {
        Ok(hits) => Ok(take_contents(&hits)),
        Err(e) => Err(McpError::caused("Failed to execute search: ", e.as_str())),
    }
}

/// The query for the rows is of four lines: it selects from the configured table the
/// rows whose content matches the keywords, orders them by how well they match the
/// same keywords, the best first, and takes no more than the limit.
pub proof fn the_query_selects_the_best_matches(
    config: TidbConfigView,
    keywords: Seq<char>,
    limit: u64,
    digits: Seq<char>,
)
    requires
        unsigned_value(digits) == Some(limit),
        digits[0] != '+',
        digits.len() > 1 ==> digits[0] != '0',
    ensures
        hits_sql(config, keywords, limit) == joined(
            seq![
                "SELECT * FROM "@ + config.table_name,
                "WHERE fts_match_word('"@ + keywords + "', content)"@,
                "ORDER BY fts_match_word('"@ + keywords + "', content)"@,
                "DESC LIMIT "@ + digits,
            ],
            "\n                "@,
        ),
{
    let parts = seq![
        "SELECT * FROM "@ + config.table_name,
        "WHERE fts_match_word('"@ + keywords + "', content)"@,
        "ORDER BY fts_match_word('"@ + keywords + "', content)"@,
        "DESC LIMIT "@ + digits,
    ];
    let separator = "\n                "@;
    let where_line = "\n                WHERE fts_match_word('"@;
    let order_line = "', content)\n                ORDER BY fts_match_word('"@;
    let limit_line = "', content)\n                DESC LIMIT "@;
    reveal_strlit("\n                ");
    reveal_strlit("\n                WHERE fts_match_word('");
    reveal_strlit("', content)\n                ORDER BY fts_match_word('");
    reveal_strlit("', content)\n                DESC LIMIT ");
    reveal_strlit("WHERE fts_match_word('");
    reveal_strlit("ORDER BY fts_match_word('");
    reveal_strlit("', content)");
    reveal_strlit("DESC LIMIT ");
    assert(where_line =~= separator + "WHERE fts_match_word('"@);
    assert(order_line =~= "', content)"@ + separator + "ORDER BY fts_match_word('"@);
    assert(limit_line =~= "', content)"@ + separator + "DESC LIMIT "@);
    decimal_form_is_the_only_one(limit, digits);
    assert(parts.drop_last() =~= seq![parts[0], parts[1], parts[2]]);
    assert(parts.drop_last().drop_last() =~= seq![parts[0], parts[1]]);
    assert(parts.drop_last().drop_last().drop_last() =~= seq![parts[0]]);
    reveal_with_fuel(joined, 5);
    assert(hits_sql(config, keywords, limit) =~= joined(parts, separator));
}

/// The query for the table counts the tables that have the configured name in the
/// configured database, each in quotes.
pub proof fn the_table_is_looked_up_by_its_names(config: TidbConfigView)
    ensures
        table_sql(config) == joined(
            seq![
                "SELECT COUNT(*) FROM information_schema.tables"@,
                "WHERE table_schema = '"@ + config.database + "' AND table_name = '"@
                    + config.table_name + "'"@,
            ],
            "\n                "@,
        ),
        version_sql() == "SELECT VERSION()"@,
{
    let parts = seq![
        "SELECT COUNT(*) FROM information_schema.tables"@,
        "WHERE table_schema = '"@ + config.database + "' AND table_name = '"@ + config.table_name
            + "'"@,
    ];
    let separator = "\n                "@;
    reveal_strlit("\n                ");
    reveal_strlit("SELECT COUNT(*) FROM information_schema.tables");
    reveal_strlit("WHERE table_schema = '");
    reveal_strlit("SELECT COUNT(*) FROM information_schema.tables\n                WHERE table_schema = '");
    assert("SELECT COUNT(*) FROM information_schema.tables\n                WHERE table_schema = '"@
        =~= "SELECT COUNT(*) FROM information_schema.tables"@ + separator
        + "WHERE table_schema = '"@);
    assert(parts.drop_last() =~= seq![parts[0]]);
    reveal_with_fuel(joined, 3);
    assert(table_sql(config) =~= joined(parts, separator));
}

/// A connection, a version and a table other than none let a search go on; nothing
/// else does, and the error says what is missing.
pub proof fn only_a_ready_database_is_searched(
    config: TidbConfigView,
    version: Seq<char>,
    count: i32,
    e: Seq<char>,
)
    ensures
        connection_result(Ok(())) is Ok,
        connection_result(Err(e)) matches Err(told) && told.code == ErrorCode::InternalError
            && told.message == "Failed to get connection: "@ + e,
        version_result(Ok(Some(version))) is Ok,
        version_result(Ok(None)) matches Err(told) && told.code == ErrorCode::InternalError
            && told.message == "Failed to query version"@,
        version_result(Err(e)) matches Err(told) && told.code == ErrorCode::InternalError
            && told.message == "Failed to query version: "@ + e,
        table_result(config, Ok(Some(count))) is Ok <==> count != 0,
        table_result(config, Ok(None)) == table_result(config, Ok(Some(0))),
        table_result(config, Ok(None)) matches Err(told) && told.code == ErrorCode::InternalError
            && told.message == "Not found table `"@ + config.table_name + "` in database `"@
            + config.database + "`"@,
        table_result(config, Err(e)) matches Err(told) && told.code == ErrorCode::InternalError
            && told.message == "Failed to check table: "@ + e,
{
}

/// A full-text search gives the content of every row, whole and in the order of the
/// rows.
pub proof fn every_row_gives_its_content(
    rows: Vec<TidbSearchHit>,
    failed: String,
    contents: Seq<Seq<char>>,
    e: Seq<char>,
)
    ensures
        hits_result(queried(Ok::<Vec<TidbSearchHit>, String>(rows))) matches Ok(found)
            && found.len() == rows@.len() && forall|i: int|
            0 <= i < rows@.len() ==> #[trigger] found[i] == rows@[i].content@,
        queried(Err::<Vec<TidbSearchHit>, String>(failed)) == Err::<Seq<Seq<char>>, Seq<char>>(
            failed@,
        ),
        hits_result(Ok(contents)) == Ok::<Seq<Seq<char>>, McpErrorView>(contents),
        hits_result(Err(e)) matches Err(told) && told.code == ErrorCode::InternalError
            && told.message == "Failed to execute search: "@ + e,
{
}

} // verus!
