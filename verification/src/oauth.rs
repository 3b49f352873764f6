//! OAuth token payloads: which payload keys are stored, in which columns, as
//! which values, and the statements that store them.
use vstd::prelude::*;
use crate::field_updates::SqlParam;
use crate::json::{Json, Member};
use crate::text::{join_texts, join_v, str_eq};

verus! {

/// The column that stores a payload key, for the keys that are stored.
pub open spec fn oauth_column_v(key: Seq<char>) -> Option<&'static str> {
    if key == "authorizationServerUrl"@ {
        Some("authorization_server_url")
    } else if key == "resourceUrl"@ {
        Some("resource_url")
    } else if key == "clientId"@ {
        Some("client_id")
    } else if key == "clientSecret"@ {
        Some("client_secret")
    } else if key == "clientIdIssuedAt"@ {
        Some("client_id_issued_at")
    } else if key == "clientSecretExpiresAt"@ {
        Some("client_secret_expires_at")
    } else if key == "accessToken"@ {
        Some("access_token")
    } else if key == "refreshToken"@ {
        Some("refresh_token")
    } else if key == "tokenType"@ {
        Some("token_type")
    } else if key == "expiresAt"@ {
        Some("expires_at")
    } else if key == "scope"@ {
        Some("scope")
    } else if key == "codeVerifier"@ {
        Some("code_verifier")
    } else if key == "lastRefreshAt"@ {
        Some("last_refresh_at")
    } else if key == "lastErrorAt"@ {
        Some("last_error_at")
    } else if key == "lastError"@ {
        Some("last_error")
    } else {
        None
    }
}

/// The column that stores a payload key; keys without one are ignored.
pub fn oauth_key_to_column(key: &str) -> (r: Option<&'static str>)
    ensures
        r == oauth_column_v(key@),
{
    if str_eq(key, "authorizationServerUrl") {
        Some("authorization_server_url")
    } else if str_eq(key, "resourceUrl") {
        Some("resource_url")
    } else if str_eq(key, "clientId") {
        Some("client_id")
    } else if str_eq(key, "clientSecret") {
        Some("client_secret")
    } else if str_eq(key, "clientIdIssuedAt") {
        Some("client_id_issued_at")
    } else if str_eq(key, "clientSecretExpiresAt") {
        Some("client_secret_expires_at")
    } else if str_eq(key, "accessToken") {
        Some("access_token")
    } else if str_eq(key, "refreshToken") {
        Some("refresh_token")
    } else if str_eq(key, "tokenType") {
        Some("token_type")
    } else if str_eq(key, "expiresAt") {
        Some("expires_at")
    } else if str_eq(key, "scope") {
        Some("scope")
    } else if str_eq(key, "codeVerifier") {
        Some("code_verifier")
    } else if str_eq(key, "lastRefreshAt") {
        Some("last_refresh_at")
    } else if str_eq(key, "lastErrorAt") {
        Some("last_error_at")
    } else if str_eq(key, "lastError") {
        Some("last_error")
    } else {
        None
    }
}

/// Why an OAuth payload was refused.
pub enum OauthPayloadError {
    /// The payload is not valid JSON.
    InvalidJson,
    /// The payload is JSON but not an object.
    NotAnObject,
    /// A stored key holds a number that is not an `i64`.
    NumberNotI64,
    /// A stored key holds an array or an object.
    UnsupportedValue,
}

impl OauthPayloadError {
    /// The text of the error; for invalid JSON the parser's own message
    /// follows it.
    pub fn message(&self) -> (r: &'static str)
        ensures
            r@ == oauth_error_text_v(*self),
    {
        match self {
            OauthPayloadError::InvalidJson => "invalid oauth payload JSON: ",
            OauthPayloadError::NotAnObject => "oauth payload must be a JSON object",
            OauthPayloadError::NumberNotI64 => "numeric oauth payload value must be i64",
            OauthPayloadError::UnsupportedValue => "oauth payload value must be string/number/bool/null",
        }
    }
}

pub open spec fn oauth_error_text_v(e: OauthPayloadError) -> Seq<char> {
    match e {
        OauthPayloadError::InvalidJson => "invalid oauth payload JSON: "@,
        OauthPayloadError::NotAnObject => "oauth payload must be a JSON object"@,
        OauthPayloadError::NumberNotI64 => "numeric oauth payload value must be i64"@,
        OauthPayloadError::UnsupportedValue => "oauth payload value must be string/number/bool/null"@,
    }
}

/// The members of a payload, parsed (`None` when it was not valid JSON).
pub fn oauth_payload_members(doc: Option<Json>) -> (r: Result<Vec<Member>, OauthPayloadError>)
    ensures
        match doc {
            None => r matches Err(OauthPayloadError::InvalidJson),
            Some(Json::Object(ms)) => r == Ok::<Vec<Member>, OauthPayloadError>(ms),
            Some(_) => r matches Err(OauthPayloadError::NotAnObject),
        },
{
    match doc {
        None => Err(OauthPayloadError::InvalidJson),
        Some(Json::Object(ms)) => Ok(ms),
        Some(_) => Err(OauthPayloadError::NotAnObject),
    }
}

/// The stored value of a payload value.
pub open spec fn sql_value_v(v: Json) -> Result<SqlParam, OauthPayloadError> {
    match v {
        Json::Null => Ok(SqlParam::Null),
        Json::Str(s) => Ok(SqlParam::Text(s)),
        Json::Int(i) => Ok(SqlParam::Integer(i)),
        Json::UInt(_) => Err(OauthPayloadError::NumberNotI64),
        Json::Float(_) => Err(OauthPayloadError::NumberNotI64),
        Json::Bool(b) => Ok(SqlParam::Integer(if b { 1 } else { 0 })),
        _ => Err(OauthPayloadError::UnsupportedValue),
    }
}

/// The stored value of a payload value: null, text, an `i64`, or a flag as
/// 1 or 0; other numbers, arrays and objects are refused.
pub fn json_to_sql_value(v: &Json) -> (r: Result<SqlParam, OauthPayloadError>)
    ensures
        r == sql_value_v(*v),
{
    match v {
        Json::Null => Ok(SqlParam::Null),
        Json::Str(s) => Ok(SqlParam::Text(s.clone())),
        Json::Int(i) => Ok(SqlParam::Integer(*i)),
        Json::UInt(_) => Err(OauthPayloadError::NumberNotI64),
        Json::Float(_) => Err(OauthPayloadError::NumberNotI64),
        Json::Bool(b) => Ok(SqlParam::Integer(if *b { 1 } else { 0 })),
        _ => Err(OauthPayloadError::UnsupportedValue),
    }
}

/// The (column, value) pairs a payload stores, in payload order; the first
/// refused value refuses the payload.
pub open spec fn assignments_v(ms: Seq<Member>) -> Result<Seq<(&'static str, SqlParam)>, OauthPayloadError>
    decreases ms.len(),
{
    if ms.len() == 0 {
        Ok(Seq::empty())
    } else {
        match assignments_v(ms.drop_last()) {
            Err(e) => Err(e),
            Ok(p) => match oauth_column_v(ms.last().key@) {
                None => Ok(p),
                Some(c) => match sql_value_v(ms.last().value) {
                    Ok(v) => Ok(p.push((c, v))),
                    Err(e) => Err(e),
                },
            },
        }
    }
}

/// The (column, value) pairs a payload stores.
pub fn oauth_assignments(payload: &Vec<Member>) -> (r: Result<Vec<(&'static str, SqlParam)>, OauthPayloadError>)
    ensures
        match r {
            Ok(v) => assignments_v(payload@) == Ok::<Seq<(&'static str, SqlParam)>, OauthPayloadError>(v@),
            Err(e) => assignments_v(payload@) == Err::<Seq<(&'static str, SqlParam)>, OauthPayloadError>(e),
        },
{
    let mut out: Vec<(&'static str, SqlParam)> = Vec::new();
    let mut i: usize = 0;
    while i < payload.len()
        invariant
            i <= payload@.len(),
            assignments_v(payload@.take(i as int)) == Ok::<Seq<(&'static str, SqlParam)>, OauthPayloadError>(out@),
        decreases payload@.len() - i,
    {
        proof {
            assert(payload@.take(i as int + 1).drop_last() =~= payload@.take(i as int));
            assert(payload@.take(i as int + 1).last() == payload@[i as int]);
        }
        match oauth_key_to_column(payload[i].key.as_str()) {
            Some(c) => {
                match json_to_sql_value(&payload[i].value) {
                    Ok(v) => {
                        out.push((c, v));
                    },
                    Err(e) => {
                        proof {
                            lemma_assignments_err_extends(payload@, i as int + 1, e);
                        }
                        return Err(e);
                    },
                }
            },
            None => {},
        }
        i = i + 1;
    }
    proof {
        assert(payload@.take(payload@.len() as int) =~= payload@);
    }
    Ok(out)
}

proof fn lemma_assignments_err_extends(ms: Seq<Member>, k: int, e: OauthPayloadError)
    requires
        0 <= k <= ms.len(),
        assignments_v(ms.take(k)) == Err::<Seq<(&'static str, SqlParam)>, OauthPayloadError>(e),
    ensures
        assignments_v(ms) == Err::<Seq<(&'static str, SqlParam)>, OauthPayloadError>(e),
    decreases ms.len() - k,
{
    if k < ms.len() {
        assert(ms.take(k + 1).drop_last() =~= ms.take(k));
        lemma_assignments_err_extends(ms, k + 1, e);
    } else {
        assert(ms.take(k) =~= ms);
    }
}

/// The clause that stamps the update time.
pub open spec fn now_clause_v() -> Seq<char> {
    "updated_at = strftime('%Y-%m-%dT%H:%M:%fZ', 'now')"@
}

/// A statement with the values of its parameters.
pub struct Statement {
    pub sql: String,
    pub params: Vec<SqlParam>,
}

pub open spec fn columns_of(a: Seq<(&'static str, SqlParam)>) -> Seq<Seq<char>> {
    a.map_values(|x: (&'static str, SqlParam)| x.0@)
}

pub open spec fn values_of(a: Seq<(&'static str, SqlParam)>) -> Seq<SqlParam> {
    a.map_values(|x: (&'static str, SqlParam)| x.1)
}

/// The update of an existing token row: every stored pair, then the update
/// time, for the row of `server_id`.
pub open spec fn update_sql_v(a: Seq<(&'static str, SqlParam)>) -> Seq<char> {
    "UPDATE mcp_oauth_tokens SET "@ + join_v(
        columns_of(a).map_values(|c: Seq<char>| c + " = ?"@).push(now_clause_v()),
        ", "@,
    ) + " WHERE server_id = ?"@
}

/// The statement that writes the stored pairs into the token row of
/// `server_id` and stamps its update time.
pub fn oauth_update_statement(assignments: Vec<(&'static str, SqlParam)>, server_id: String) -> (r:
    Statement)
    ensures
        r.sql@ == update_sql_v(assignments@),
        r.params@ == values_of(assignments@).push(SqlParam::Text(server_id)),
{
    let ghost a0 = assignments@;
    let n: usize = assignments.len();
    let mut clauses: Vec<String> = Vec::new();
    let mut params: Vec<SqlParam> = Vec::new();
    let mut rest = assignments;
    let mut k: usize = 0;
    while rest.len() > 0
        invariant
            k + rest@.len() == a0.len(),
            a0.len() == n,
            forall|j: int| 0 <= j < rest@.len() ==> #[trigger] rest@[j] == a0[k + j],
            clauses@.map_values(|p: String| p@) == columns_of(a0.take(k as int)).map_values(
                |c: Seq<char>| c + " = ?"@,
            ),
            params@ == values_of(a0.take(k as int)),
        decreases rest@.len(),
    {
        let (c, v) = rest.remove(0);
        let ghost prev_c = clauses@;
        let ghost prev_p = params@;
        let clause = c.to_owned().concat(" = ?");
        clauses.push(clause);
        params.push(v);
        proof {
            assert(a0.take(k as int + 1) =~= a0.take(k as int).push((c, v)));
            assert(clauses@.map_values(|p: String| p@) =~= prev_c.map_values(|p: String| p@).push(
                c@ + " = ?"@,
            ));
            assert(columns_of(a0.take(k as int + 1)).map_values(|c: Seq<char>| c + " = ?"@) =~= columns_of(
                a0.take(k as int),
            ).map_values(|c: Seq<char>| c + " = ?"@).push(c@ + " = ?"@));
            assert(params@ =~= prev_p.push(v));
            assert(values_of(a0.take(k as int + 1)) =~= values_of(a0.take(k as int)).push(v));
        }
        k = k + 1;
    }
    proof {
        assert(a0.take(a0.len() as int) =~= a0);
    }
    let ghost before = clauses@;
    clauses.push("updated_at = strftime('%Y-%m-%dT%H:%M:%fZ', 'now')".to_owned());
    proof {
        assert(clauses@.map_values(|p: String| p@) =~= before.map_values(|p: String| p@).push(now_clause_v()));
    }
    let body = join_texts(&clauses, ", ");
    let sql = "UPDATE mcp_oauth_tokens SET ".to_owned().concat(body.as_str()).concat(" WHERE server_id = ?");
    params.push(SqlParam::Text(server_id));
    Statement { sql, params }
}

/// The time expression that stamps a new row.
pub open spec fn now_expr_v() -> Seq<char> {
    "strftime('%Y-%m-%dT%H:%M:%fZ', 'now')"@
}

/// The insert of a new token row: its id, its server, both times, then every
/// stored pair.
pub open spec fn insert_sql_v(a: Seq<(&'static str, SqlParam)>) -> Seq<char> {
    "INSERT INTO mcp_oauth_tokens ("@ + join_v(
        seq!["id"@, "server_id"@, "created_at"@, "updated_at"@] + columns_of(a),
        ", "@,
    ) + ") VALUES ("@ + join_v(
        seq!["?"@, "?"@, now_expr_v(), now_expr_v()] + Seq::new(a.len(), |i: int| "?"@),
        ", "@,
    ) + ")"@
}

/// The statement that creates the token row `new_id` of `server_id` with the
/// stored pairs.
pub fn oauth_insert_statement(
    assignments: Vec<(&'static str, SqlParam)>,
    server_id: String,
    new_id: String,
) -> (r: Statement)
    ensures
        r.sql@ == insert_sql_v(assignments@),
        r.params@ == seq![SqlParam::Text(new_id), SqlParam::Text(server_id)] + values_of(
            assignments@,
        ),
{
    let ghost a0 = assignments@;
    let n: usize = assignments.len();
    let mut columns: Vec<String> = Vec::new();
    columns.push("id".to_owned());
    columns.push("server_id".to_owned());
    columns.push("created_at".to_owned());
    columns.push("updated_at".to_owned());
    let mut marks: Vec<String> = Vec::new();
    marks.push("?".to_owned());
    marks.push("?".to_owned());
    marks.push("strftime('%Y-%m-%dT%H:%M:%fZ', 'now')".to_owned());
    marks.push("strftime('%Y-%m-%dT%H:%M:%fZ', 'now')".to_owned());
    let mut params: Vec<SqlParam> = Vec::new();
    params.push(SqlParam::Text(new_id));
    params.push(SqlParam::Text(server_id));
    let ghost head_c: Seq<Seq<char>> = seq!["id"@, "server_id"@, "created_at"@, "updated_at"@];
    let ghost head_m: Seq<Seq<char>> = seq!["?"@, "?"@, now_expr_v(), now_expr_v()];
    let ghost head_p = params@;
    proof {
        assert(columns@.map_values(|p: String| p@) =~= head_c + columns_of(a0.take(0)));
        assert(marks@.map_values(|p: String| p@) =~= head_m + Seq::new(0, |i: int| "?"@));
        assert(params@ =~= head_p + values_of(a0.take(0)));
    }
    let mut rest = assignments;
    let mut k: usize = 0;
    while rest.len() > 0
        invariant
            k + rest@.len() == a0.len(),
            a0.len() == n,
            forall|j: int| 0 <= j < rest@.len() ==> #[trigger] rest@[j] == a0[k + j],
            columns@.map_values(|p: String| p@) == head_c + columns_of(a0.take(k as int)),
            marks@.map_values(|p: String| p@) == head_m + Seq::new(k as nat, |i: int| "?"@),
            params@ == head_p + values_of(a0.take(k as int)),
        decreases rest@.len(),
    {
        let (c, v) = rest.remove(0);
        let ghost prev_c = columns@;
        let ghost prev_m = marks@;
        let ghost prev_p = params@;
        columns.push(c.to_owned());
        marks.push("?".to_owned());
        params.push(v);
        proof {
            assert(a0.take(k as int + 1) =~= a0.take(k as int).push((c, v)));
            assert(columns@.map_values(|p: String| p@) =~= prev_c.map_values(|p: String| p@).push(c@));
            assert(columns_of(a0.take(k as int + 1)) =~= columns_of(a0.take(k as int)).push(c@));
            assert(marks@.map_values(|p: String| p@) =~= prev_m.map_values(|p: String| p@).push("?"@));
            assert(Seq::new(k as nat + 1, |i: int| "?"@) =~= Seq::new(k as nat, |i: int| "?"@).push(
                "?"@,
            ));
            assert(params@ =~= prev_p.push(v));
            assert(values_of(a0.take(k as int + 1)) =~= values_of(a0.take(k as int)).push(v));
        }
        k = k + 1;
    }
    proof {
        assert(a0.take(a0.len() as int) =~= a0);
    }
    let cols = join_texts(&columns, ", ");
    let holes = join_texts(&marks, ", ");
    let sql = "INSERT INTO mcp_oauth_tokens (".to_owned().concat(cols.as_str()).concat(
        ") VALUES (",
    ).concat(holes.as_str()).concat(")");
    Statement { sql, params }
}

/// What moving a server's token to another server does.
pub enum OauthMigration {
    /// The source server has no token: nothing changes, and the answer is no.
    NothingToMove,
    /// The target has a token: the source's non-null credentials overwrite it,
    /// its error is cleared, and the source row is deleted.
    MergeIntoTarget,
    /// The target has none: the source row is handed to the target server.
    Reassign,
}

/// The way a token is moved, from whether the source and the target servers
/// hold one.
pub fn oauth_migration(source_exists: bool, target_exists: bool) -> (r: OauthMigration)
    ensures
        !source_exists ==> r is NothingToMove,
        source_exists && target_exists ==> r is MergeIntoTarget,
        source_exists && !target_exists ==> r is Reassign,
{
    if !source_exists {
        OauthMigration::NothingToMove
    } else if target_exists {
        OauthMigration::MergeIntoTarget
    } else {
        OauthMigration::Reassign
    }
}

/// The statement that writes a payload into the row of `server_id`, given
/// whether that row exists: a refused payload gives its error whether or not
/// the row exists; an accepted one gives no statement for a missing row (the
/// edit answers none) and the update of the row otherwise.
pub fn oauth_patch_statement(doc: Option<Json>, existing: bool, server_id: String) -> (r: Result<
    Option<Statement>,
    OauthPayloadError,
>)
    ensures
        match doc {
            Some(Json::Object(ms)) => match assignments_v(ms@) {
                Ok(a) => if existing {
                    r matches Ok(Some(st)) && st.sql@ == update_sql_v(a) && st.params@ == values_of(
                        a,
                    ).push(SqlParam::Text(server_id))
                } else {
                    r matches Ok(None)
                },
                Err(e) => r == Err::<Option<Statement>, OauthPayloadError>(e),
            },
            None => r matches Err(OauthPayloadError::InvalidJson),
            Some(_) => r matches Err(OauthPayloadError::NotAnObject),
        },
{
    let ms = match oauth_payload_members(doc) {
        Ok(ms) => ms,
        Err(e) => {
            return Err(e);
        },
    };
    match oauth_assignments(&ms) {
        Ok(a) => if existing {
            Ok(Some(oauth_update_statement(a, server_id)))
        } else {
            Ok(None)
        },
        Err(e) => Err(e),
    }
}

/// The statement that stores a payload for `server_id`: the update of its
/// row when it has one, else the insert of the row `new_id`. A payload that
/// is not a JSON object, or that holds a stored key with a value no column
/// takes, gives its error and no statement, so nothing is written.
pub fn oauth_save_statement(doc: Option<Json>, existing: bool, server_id: String, new_id: String) -> (r:
    Result<Statement, OauthPayloadError>)
    ensures
        match doc {
            Some(Json::Object(ms)) => match assignments_v(ms@) {
                Ok(a) => r matches Ok(st) && if existing {
                    st.sql@ == update_sql_v(a) && st.params@ == values_of(a).push(SqlParam::Text(server_id))
                } else {
                    st.sql@ == insert_sql_v(a) && st.params@ == seq![
                        SqlParam::Text(new_id),
                        SqlParam::Text(server_id),
                    ] + values_of(a)
                },
                Err(e) => r == Err::<Statement, OauthPayloadError>(e),
            },
            None => r matches Err(OauthPayloadError::InvalidJson),
            Some(_) => r matches Err(OauthPayloadError::NotAnObject),
        },
{
    let ms = match oauth_payload_members(doc) {
        Ok(ms) => ms,
        Err(e) => {
            return Err(e);
        },
    };
    match oauth_assignments(&ms) {
        Ok(a) => if existing {
            Ok(oauth_update_statement(a, server_id))
        } else {
            Ok(oauth_insert_statement(a, server_id, new_id))
        },
        Err(e) => Err(e),
    }
}

/// The value a token row holds in column `c`, if it has that column.
pub open spec fn token_cell(row: Map<Seq<char>, SqlParam>, c: Seq<char>) -> Option<SqlParam> {
    if row.dom().contains(c) {
        Some(row[c])
    } else {
        None
    }
}

/// A row after the stored pairs are written into it, one after another.
pub open spec fn write_pairs_v(row: Map<Seq<char>, SqlParam>, a: Seq<(&'static str, SqlParam)>) -> Map<
    Seq<char>,
    SqlParam,
>
    decreases a.len(),
{
    if a.len() == 0 {
        row
    } else {
        write_pairs_v(row, a.drop_last()).insert(a.last().0@, a.last().1)
    }
}

/// The token row after the update statement: the stored pairs written, the
/// update time stamped `now`.
pub open spec fn token_row_updated_v(row: Map<Seq<char>, SqlParam>, a: Seq<(&'static str, SqlParam)>, now: SqlParam) -> Map<
    Seq<char>,
    SqlParam,
> {
    write_pairs_v(row, a).insert("updated_at"@, now)
}

/// A new token row before the payload is written: its id, its server, and
/// both times `now`.
pub open spec fn token_row_base_v(new_id: String, server_id: String, now: SqlParam) -> Map<Seq<char>, SqlParam> {
    Map::<Seq<char>, SqlParam>::empty().insert("id"@, SqlParam::Text(new_id)).insert(
        "server_id"@,
        SqlParam::Text(server_id),
    ).insert("created_at"@, now).insert("updated_at"@, now)
}

/// The token row the insert statement creates.
pub open spec fn token_row_inserted_v(
    a: Seq<(&'static str, SqlParam)>,
    new_id: String,
    server_id: String,
    now: SqlParam,
) -> Map<Seq<char>, SqlParam> {
    write_pairs_v(token_row_base_v(new_id, server_id, now), a)
}

/// The value the payload gives column `c`: that of the last member whose
/// key is stored in `c`, or none.
pub open spec fn payload_value_v(ms: Seq<Member>, c: Seq<char>) -> Option<SqlParam>
    decreases ms.len(),
{
    if ms.len() == 0 {
        None
    } else if oauth_column_v(ms.last().key@) is Some && oauth_column_v(ms.last().key@).unwrap()@ == c {
        match sql_value_v(ms.last().value) {
            Ok(v) => Some(v),
            Err(_) => None,
        }
    } else {
        payload_value_v(ms.drop_last(), c)
    }
}

proof fn lemma_write_payload(row: Map<Seq<char>, SqlParam>, ms: Seq<Member>, c: Seq<char>)
    requires
        assignments_v(ms) is Ok,
    ensures
        token_cell(write_pairs_v(row, assignments_v(ms)->Ok_0), c) == match payload_value_v(ms, c) {
            Some(v) => Some(v),
            None => token_cell(row, c),
        },
    decreases ms.len(),
{
    if ms.len() > 0 {
        let prev = ms.drop_last();
        assert(assignments_v(prev) is Ok);
        lemma_write_payload(row, prev, c);
        let p = assignments_v(prev)->Ok_0;
        match oauth_column_v(ms.last().key@) {
            None => {},
            Some(col) => {
                let v = sql_value_v(ms.last().value)->Ok_0;
                let a = p.push((col, v));
                assert(a.drop_last() =~= p);
            },
        }
    }
}

/// Storing an accepted payload sets, in each column a payload key is stored
/// in, the value of that key (the last such member's); every other column
/// keeps what it held. An update also stamps `updated_at` with `now`; an
/// insert creates the row `new_id` of `server_id` stamped `now`.
pub proof fn law_oauth_payload_row(
    row: Map<Seq<char>, SqlParam>,
    ms: Seq<Member>,
    new_id: String,
    server_id: String,
    now: SqlParam,
)
    requires
        assignments_v(ms) is Ok,
    ensures
        ({
            let a = assignments_v(ms)->Ok_0;
            &&& token_cell(token_row_updated_v(row, a, now), "updated_at"@) == Some(now)
            &&& forall|c: Seq<char>| c != "updated_at"@ ==>
                #[trigger] token_cell(token_row_updated_v(row, a, now), c) == match payload_value_v(ms, c) {
                    Some(v) => Some(v),
                    None => token_cell(row, c),
                }
            &&& forall|c: Seq<char>|
                #[trigger] token_cell(token_row_inserted_v(a, new_id, server_id, now), c) == match payload_value_v(ms, c) {
                    Some(v) => Some(v),
                    None => token_cell(token_row_base_v(new_id, server_id, now), c),
                }
        }),
{
    let a = assignments_v(ms)->Ok_0;
    assert forall|c: Seq<char>| c != "updated_at"@ implies
        #[trigger] token_cell(token_row_updated_v(row, a, now), c) == match payload_value_v(ms, c) {
            Some(v) => Some(v),
            None => token_cell(row, c),
        } by {
        lemma_write_payload(row, ms, c);
    }
    assert forall|c: Seq<char>|
        #[trigger] token_cell(token_row_inserted_v(a, new_id, server_id, now), c) == match payload_value_v(ms, c) {
            Some(v) => Some(v),
            None => token_cell(token_row_base_v(new_id, server_id, now), c),
        } by {
        lemma_write_payload(token_row_base_v(new_id, server_id, now), ms, c);
    }
}

} // verus!
