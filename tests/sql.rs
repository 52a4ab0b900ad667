use tablex::meta::{Reference, SqlColumnInfo, SqlExtraColumnInfo, SqlTableInfo};
use tablex::sql::{self, single_row, ReturningRowBuilder, RowError};
use tablex::{Column, Conflict, FieldMut, FieldRef, SchemaError, SqlType, Table, TableInfo};

const USER_INFO: u64 = 10;
const TX: u64 = 11;
const MEMBER: u64 = 12;

struct UserInfo {
    id: u32,
    name: String,
    age: u32,
}

struct Tx {
    from_id: u32,
    to_id: u32,
    memo: Option<String>,
}

struct Member {
    id: i64,
    email: String,
}

fn user_id_column() -> SqlColumnInfo {
    Column::new(
        USER_INFO,
        None,
        "id",
        0,
        4,
        SqlExtraColumnInfo::for_type::<u32>(true, true, false, None),
    )
}

fn user_info_table() -> SqlTableInfo {
    let columns = vec![
        user_id_column(),
        Column::new(
            USER_INFO,
            Some("user_name"),
            "name",
            8,
            24,
            SqlExtraColumnInfo::for_type::<String>(false, false, false, None),
        ),
        Column::new(
            USER_INFO,
            None,
            "age",
            4,
            4,
            SqlExtraColumnInfo::for_type::<u32>(false, false, false, None),
        ),
    ];
    SqlTableInfo::new(USER_INFO, "user_info", columns, ()).unwrap()
}

impl Table for UserInfo {
    type ExtraTableInfo = ();
    type ExtraColumnInfo = SqlExtraColumnInfo;

    fn table_info() -> SqlTableInfo {
        user_info_table()
    }

    fn field(&self, field_name: &str) -> Option<FieldRef<'_>> {
        match field_name {
            "id" => Some(FieldRef::U32(&self.id)),
            "name" => Some(FieldRef::Text(&self.name)),
            "age" => Some(FieldRef::U32(&self.age)),
            _ => None,
        }
    }

    fn field_mut(&mut self, field_name: &str) -> Option<FieldMut<'_>> {
        match field_name {
            "id" => Some(FieldMut::U32(&mut self.id)),
            "name" => Some(FieldMut::Text(&mut self.name)),
            "age" => Some(FieldMut::U32(&mut self.age)),
            _ => None,
        }
    }
}

impl Table for Tx {
    type ExtraTableInfo = ();
    type ExtraColumnInfo = SqlExtraColumnInfo;

    fn table_info() -> SqlTableInfo {
        let users = user_info_table();
        let to_user = Reference::new(&users, &user_id_column());
        let columns = vec![
            Column::new(
                TX,
                None,
                "from_id",
                0,
                4,
                SqlExtraColumnInfo::for_type::<u32>(false, false, false, to_user),
            ),
            Column::new(
                TX,
                None,
                "to_id",
                4,
                4,
                SqlExtraColumnInfo::for_type::<u32>(false, false, false, to_user),
            ),
            Column::new(
                TX,
                None,
                "memo",
                8,
                24,
                SqlExtraColumnInfo::for_type::<Option<String>>(false, false, false, None),
            ),
        ];
        SqlTableInfo::new(TX, "tx", columns, ()).unwrap()
    }

    fn field(&self, field_name: &str) -> Option<FieldRef<'_>> {
        match field_name {
            "from_id" => Some(FieldRef::U32(&self.from_id)),
            "to_id" => Some(FieldRef::U32(&self.to_id)),
            "memo" => Some(FieldRef::OptionalText(&self.memo)),
            _ => None,
        }
    }

    fn field_mut(&mut self, field_name: &str) -> Option<FieldMut<'_>> {
        match field_name {
            "from_id" => Some(FieldMut::U32(&mut self.from_id)),
            "to_id" => Some(FieldMut::U32(&mut self.to_id)),
            "memo" => Some(FieldMut::OptionalText(&mut self.memo)),
            _ => None,
        }
    }
}

impl Table for Member {
    type ExtraTableInfo = ();
    type ExtraColumnInfo = SqlExtraColumnInfo;

    fn table_info() -> SqlTableInfo {
        let columns = vec![
            Column::new(
                MEMBER,
                None,
                "id",
                0,
                8,
                SqlExtraColumnInfo::for_type::<i64>(true, true, false, None),
            ),
            Column::new(
                MEMBER,
                None,
                "email",
                8,
                24,
                SqlExtraColumnInfo::for_type::<String>(false, false, true, None),
            ),
        ];
        SqlTableInfo::new(MEMBER, "member", columns, ()).unwrap()
    }

    fn field(&self, field_name: &str) -> Option<FieldRef<'_>> {
        match field_name {
            "id" => Some(FieldRef::I64(&self.id)),
            "email" => Some(FieldRef::Text(&self.email)),
            _ => None,
        }
    }

    fn field_mut(&mut self, field_name: &str) -> Option<FieldMut<'_>> {
        match field_name {
            "id" => Some(FieldMut::I64(&mut self.id)),
            "email" => Some(FieldMut::Text(&mut self.email)),
            _ => None,
        }
    }
}

#[test]
fn create_table_user_info() {
    let expected = "CREATE TABLE user_info (id INTEGER PRIMARY KEY AUTOINCREMENT NOT NULL, user_name TEXT NOT NULL, age INTEGER NOT NULL)";
    let builder = sql::create_table::<UserInfo>();
    assert_eq!(builder.build_sql(), expected);
    assert_eq!(builder.build_sql(), builder.build_sql());
    assert_eq!(sql::create_table::<UserInfo>().build_sql(), expected);
}

#[test]
fn create_table_if_not_exists_with_references() {
    let builder = sql::create_table::<Tx>().create_if_not_exists();
    assert_eq!(
        builder.build_sql(),
        "CREATE TABLE IF NOT EXISTS tx (from_id INTEGER NOT NULL REFERENCES user_info(id), to_id INTEGER NOT NULL REFERENCES user_info(id), memo TEXT)"
    );
}

#[test]
fn create_table_with_unique_column() {
    assert_eq!(
        sql::create_table::<Member>().build_sql(),
        "CREATE TABLE member (id INTEGER PRIMARY KEY AUTOINCREMENT NOT NULL, email TEXT UNIQUE NOT NULL)"
    );
}

#[test]
fn drop_table_sql() {
    assert_eq!(sql::drop_table::<UserInfo>().build_sql(), "DROP TABLE user_info");
    assert_eq!(
        sql::drop_table::<UserInfo>().drop_if_exists().build_sql(),
        "DROP TABLE IF EXISTS user_info"
    );
}

#[test]
fn insert_row_sends_every_column() {
    let builder = sql::insert_row::<UserInfo>();
    assert_eq!(
        builder.build_sql(),
        "INSERT INTO user_info (id, user_name, age) VALUES (:id, :name, :age)"
    );
    assert!(builder.binds_parameter(":id"));
    assert!(builder.binds_parameter(":name"));
    assert!(builder.binds_parameter(":age"));
}

#[test]
fn insert_row_leaves_auto_increment_out() {
    let builder = sql::insert_row::<UserInfo>().with_auto_increment();
    assert_eq!(
        builder.build_sql(),
        "INSERT INTO user_info (user_name, age) VALUES (:name, :age)"
    );
    assert!(!builder.binds_parameter(":id"));
    assert!(builder.binds_parameter(":name"));
    assert!(builder.binds_parameter(":age"));
    assert!(builder.binds_parameter("id"));
}

#[test]
fn insert_row_with_conflict_policy() {
    let cases = [
        (Conflict::Rollback, "ROLLBACK"),
        (Conflict::Abort, "ABORT"),
        (Conflict::Fail, "FAIL"),
        (Conflict::Ignore, "IGNORE"),
        (Conflict::Replace, "REPLACE"),
    ];
    for (conflict, keyword) in cases {
        assert_eq!(conflict.keyword(), keyword);
        let text = sql::insert_row::<UserInfo>().or(conflict).build_sql();
        assert_eq!(
            text,
            format!("INSERT OR {} INTO user_info (id, user_name, age) VALUES (:id, :name, :age)", keyword)
        );
    }
    assert_eq!(
        sql::insert_row::<UserInfo>().with_auto_increment().or(Conflict::Replace).build_sql(),
        "INSERT OR REPLACE INTO user_info (user_name, age) VALUES (:name, :age)"
    );
}

#[test]
fn select_rows_sql() {
    assert_eq!(sql::select_rows::<UserInfo>().build_sql(), "SELECT * FROM user_info");
    assert_eq!(
        sql::select_rows::<UserInfo>().filter_raw("age > 40").build_sql(),
        "SELECT * FROM user_info WHERE age > 40"
    );
}

#[test]
fn returning_row_sql() {
    let builder = ReturningRowBuilder::new(sql::insert_row::<UserInfo>().with_auto_increment());
    assert_eq!(
        builder.build_sql(),
        "INSERT INTO user_info (user_name, age) VALUES (:name, :age) RETURNING *"
    );
    assert!(!builder.binds_parameter(":id"));
    assert!(builder.binds_parameter(":age"));
}

#[test]
fn single_row_outcomes() {
    assert!(matches!(single_row::<u32, &str>(Ok(Some(7)), Ok(false)), Ok(7)));
    assert!(matches!(
        single_row::<u32, &str>(Ok(None), Ok(false)),
        Err(RowError::NotFound)
    ));
    assert!(matches!(
        single_row::<u32, &str>(Ok(Some(7)), Ok(true)),
        Err(RowError::MoreThanOne)
    ));
    assert!(matches!(
        single_row::<u32, &str>(Err("constraint"), Ok(false)),
        Err(RowError::Engine("constraint"))
    ));
    assert!(matches!(
        single_row::<u32, &str>(Ok(Some(7)), Err("busy")),
        Err(RowError::Engine("busy"))
    ));
}

#[test]
fn duplicate_column_name_is_refused() {
    let columns = vec![
        Column::new(1, None, "age", 0, 4, SqlExtraColumnInfo::for_type::<u32>(false, false, false, None)),
        Column::new(1, Some("age"), "years", 4, 4, SqlExtraColumnInfo::for_type::<u32>(false, false, false, None)),
    ];
    let r = SqlTableInfo::new(1, "person", columns, ());
    assert!(matches!(r, Err(SchemaError::DuplicateColumn("age"))));
}

#[test]
fn column_of_other_table_is_refused() {
    let columns = vec![
        Column::new(1, None, "age", 0, 4, SqlExtraColumnInfo::for_type::<u32>(false, false, false, None)),
        Column::new(2, None, "name", 4, 24, SqlExtraColumnInfo::for_type::<String>(false, false, false, None)),
    ];
    let r = SqlTableInfo::new(1, "person", columns, ());
    assert!(matches!(r, Err(SchemaError::ForeignColumn("name"))));
}

#[test]
fn empty_table_is_accepted() {
    let r: Result<TableInfo<(), SqlExtraColumnInfo>, SchemaError> =
        TableInfo::new(3, "nothing", Vec::new(), ());
    let t = r.unwrap();
    assert_eq!(t.id, 3);
    assert!(t.columns.is_empty());
}

#[test]
fn reference_needs_table_and_column() {
    let users = user_info_table();
    let id = user_id_column();
    assert!(matches!(
        Reference::from_parts(Some(&users), None),
        Err(SchemaError::PartialReference)
    ));
    assert!(matches!(
        Reference::from_parts(None, Some(&id)),
        Err(SchemaError::PartialReference)
    ));
    assert!(matches!(Reference::from_parts(None, None), Ok(None)));
    let r = Reference::from_parts(Some(&users), Some(&id)).unwrap().unwrap();
    assert!(r.points_to(&id));
    assert_eq!(r.table_name, "user_info");
    let mut elsewhere = id;
    elsewhere.table_id = TX;
    assert!(matches!(
        Reference::from_parts(Some(&users), Some(&elsewhere)),
        Err(SchemaError::MissingReferenceColumn)
    ));
}

#[test]
fn column_name_defaults_to_field_name() {
    let c = Column::new(5, None, "age", 4, 4, 0u8);
    assert_eq!(c.column_name, "age");
    let d = Column::new(5, Some("years"), "age", 4, 4, 0u8);
    assert_eq!(d.column_name, "years");
    assert_eq!(d.field_name, "age");
}

#[test]
fn sql_type_names() {
    assert_eq!(<u32 as SqlType>::sql_type_name(), "INTEGER");
    assert_eq!(<i8 as SqlType>::sql_type_name(), "INTEGER");
    assert_eq!(<bool as SqlType>::sql_type_name(), "INTEGER");
    assert_eq!(<String as SqlType>::sql_type_name(), "TEXT");
    assert_eq!(<Option<String> as SqlType>::sql_type_name(), "TEXT");
    assert!(!<u64 as SqlType>::is_nullable());
    assert!(<Option<i64> as SqlType>::is_nullable());
    let extra = SqlExtraColumnInfo::for_type::<Option<u16>>(false, false, true, None);
    assert_eq!(extra.data_type, "INTEGER");
    assert!(!extra.is_not_null);
    assert!(extra.is_unique);
}

#[test]
fn strings_compare_by_characters() {
    assert!(tablex::str_eq("user_name", "user_name"));
    assert!(!tablex::str_eq("user_name", "user"));
    assert!(tablex::str_eq("", ""));
}

fn insert_member(
    connection: &rusqlite::Connection,
    builder: &ReturningRowBuilder<Member>,
    member: &Member,
) -> Result<i64, RowError<rusqlite::Error>> {
    let mut stmt = connection.prepare(&builder.build_sql()).map_err(RowError::Engine)?;
    if builder.binds_parameter(":id") {
        stmt.raw_bind_parameter(":id", member.id).map_err(RowError::Engine)?;
    }
    if builder.binds_parameter(":email") {
        stmt.raw_bind_parameter(":email", &member.email).map_err(RowError::Engine)?;
    }
    let mut rows = stmt.raw_query();
    let first = match rows.next() {
        Err(e) => Err(e),
        Ok(None) => Ok(None),
        Ok(Some(row)) => row.get::<_, i64>(0).map(Some),
    };
    let more = match &first {
        Ok(Some(_)) => rows.next().map(|r| r.is_some()),
        _ => Ok(false),
    };
    single_row(first, more)
}

#[test]
fn returning_insert_reports_unique_conflict() {
    let connection = rusqlite::Connection::open_in_memory().unwrap();
    connection
        .execute(&sql::create_table::<Member>().build_sql(), [])
        .unwrap();
    let builder = ReturningRowBuilder::new(sql::insert_row::<Member>().with_auto_increment());
    let alice = Member { id: 0, email: "alice@example.com".to_string() };
    let id = insert_member(&connection, &builder, &alice).unwrap();
    assert_eq!(id, 1);
    let again = insert_member(&connection, &builder, &alice);
    match again {
        Err(RowError::Engine(e)) => {
            assert_eq!(e.sqlite_error_code(), Some(rusqlite::ErrorCode::ConstraintViolation));
        }
        _ => panic!("a unique conflict must be reported as a database error"),
    }
    let bob = Member { id: 0, email: "bob@example.com".to_string() };
    assert_eq!(insert_member(&connection, &builder, &bob).unwrap(), 2);
}

struct Untyped;

impl Table for Untyped {
    type ExtraTableInfo = ();
    type ExtraColumnInfo = SqlExtraColumnInfo;

    fn table_info() -> SqlTableInfo {
        let id = SqlExtraColumnInfo {
            data_type: "",
            is_primary: true,
            is_auto_increment: true,
            is_unique: false,
            is_not_null: true,
            reference: None,
        };
        let columns = vec![
            Column::new(20, None, "id", 0, 4, id),
            Column::new(20, None, "user_name", 4, 24, SqlExtraColumnInfo::for_type::<String>(false, false, false, None)),
            Column::new(20, None, "age", 28, 4, SqlExtraColumnInfo::for_type::<u32>(false, false, false, None)),
        ];
        SqlTableInfo::new(20, "user_info", columns, ()).unwrap()
    }

    fn field(&self, _field_name: &str) -> Option<FieldRef<'_>> {
        None
    }

    fn field_mut(&mut self, _field_name: &str) -> Option<FieldMut<'_>> {
        None
    }
}

#[test]
fn create_table_without_data_type_leaves_no_gap() {
    assert_eq!(
        sql::create_table::<Untyped>().build_sql(),
        "CREATE TABLE user_info (id PRIMARY KEY AUTOINCREMENT NOT NULL, user_name TEXT NOT NULL, age INTEGER NOT NULL)"
    );
}
