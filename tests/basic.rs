use tablex::meta::{Reference, SqlColumnInfo, SqlExtraColumnInfo, SqlTableInfo};
use tablex::{Column, FieldMut, FieldRef, Table};

const USER_INFO: u64 = 1;
const TRANSACTION: u64 = 2;

#[derive(Debug)]
struct UserInfo {
    id: u32,
    name: String,
    age: u32,
}

#[derive(Debug)]
struct Transaction {
    from_id: u32,
    to_id: u32,
}

impl UserInfo {
    fn column_id() -> SqlColumnInfo {
        Column::new(
            USER_INFO,
            None,
            "id",
            0,
            4,
            SqlExtraColumnInfo::for_type::<u32>(true, false, false, None),
        )
    }

    fn column_user_name() -> SqlColumnInfo {
        Column::new(
            USER_INFO,
            Some("user_name"),
            "name",
            8,
            24,
            SqlExtraColumnInfo::for_type::<String>(false, false, false, None),
        )
    }

    fn column_age() -> SqlColumnInfo {
        Column::new(
            USER_INFO,
            None,
            "age",
            4,
            4,
            SqlExtraColumnInfo::for_type::<u32>(false, false, false, None),
        )
    }
}

impl Table for UserInfo {
    type ExtraTableInfo = ();
    type ExtraColumnInfo = SqlExtraColumnInfo;

    fn table_info() -> SqlTableInfo {
        SqlTableInfo::new(
            USER_INFO,
            "UserInfo",
            vec![Self::column_id(), Self::column_user_name(), Self::column_age()],
            (),
        )
        .unwrap()
    }

    fn field(&self, field_name: &str) -> Option<FieldRef<'_>> {
        match field_name {
            "name" => Some(FieldRef::Text(&self.name)),
            "age" => Some(FieldRef::U32(&self.age)),
            _ => None,
        }
    }

    fn field_mut(&mut self, field_name: &str) -> Option<FieldMut<'_>> {
        match field_name {
            "name" => Some(FieldMut::Text(&mut self.name)),
            "age" => Some(FieldMut::U32(&mut self.age)),
            _ => None,
        }
    }
}

impl Transaction {
    fn column_from_id() -> SqlColumnInfo {
        let reference = Reference::new(&UserInfo::table_info(), &UserInfo::column_id());
        Column::new(
            TRANSACTION,
            None,
            "from_id",
            0,
            4,
            SqlExtraColumnInfo::for_type::<u32>(false, false, false, reference),
        )
    }

    fn column_to_id() -> SqlColumnInfo {
        let reference = Reference::new(&UserInfo::table_info(), &UserInfo::column_id());
        Column::new(
            TRANSACTION,
            None,
            "to_id",
            4,
            4,
            SqlExtraColumnInfo::for_type::<u32>(false, false, false, reference),
        )
    }
}

impl Table for Transaction {
    type ExtraTableInfo = ();
    type ExtraColumnInfo = SqlExtraColumnInfo;

    fn table_info() -> SqlTableInfo {
        SqlTableInfo::new(
            TRANSACTION,
            "Transaction",
            vec![Self::column_from_id(), Self::column_to_id()],
            (),
        )
        .unwrap()
    }

    fn field(&self, field_name: &str) -> Option<FieldRef<'_>> {
        match field_name {
            "from_id" => Some(FieldRef::U32(&self.from_id)),
            "to_id" => Some(FieldRef::U32(&self.to_id)),
            _ => None,
        }
    }

    fn field_mut(&mut self, field_name: &str) -> Option<FieldMut<'_>> {
        match field_name {
            "from_id" => Some(FieldMut::U32(&mut self.from_id)),
            "to_id" => Some(FieldMut::U32(&mut self.to_id)),
            _ => None,
        }
    }
}

#[test]
fn basic() {
    let mut user = UserInfo {
        id: 1,
        name: "Alice".to_string(),
        age: 30,
    };

    let table_info = UserInfo::table_info();
    assert_eq!(table_info.table_name, "UserInfo");
    assert_eq!(table_info.columns.len(), 3);

    let user_name_column = UserInfo::column_user_name();
    let age_column = UserInfo::column_age();

    assert_eq!(user.value_ref::<String>(&user_name_column).unwrap(), "Alice");
    assert_eq!(user.value_ref::<u32>(&age_column).unwrap(), &30);

    {
        let age = user.value_mut::<u32>(&age_column).unwrap();
        *age = 40;
    }

    assert_eq!(user.age, 40);

    let from_id_reference = Transaction::column_from_id().extra.reference.unwrap();
    assert!(from_id_reference.points_to(&UserInfo::column_id()));
    assert_eq!(user.id, 1);
}

#[test]
fn value_ref_of_wrong_type_is_none() {
    let user = UserInfo {
        id: 1,
        name: "Alice".to_string(),
        age: 30,
    };
    let age_column = UserInfo::column_age();
    assert!(user.value_ref::<u64>(&age_column).is_none());
    assert!(user.value_ref::<i32>(&age_column).is_none());
    assert!(user.value_ref::<String>(&age_column).is_none());
    assert!(user.value_ref::<Option<u32>>(&age_column).is_none());
    let name_column = UserInfo::column_user_name();
    assert!(user.value_ref::<Option<String>>(&name_column).is_none());
}

#[test]
fn value_of_unmapped_field_is_none() {
    let mut tx = Transaction { from_id: 3, to_id: 4 };
    let age_column = UserInfo::column_age();
    assert!(tx.value_ref::<u32>(&age_column).is_none());
    assert!(tx.value_mut::<u32>(&age_column).is_none());
    assert_eq!(tx.from_id, 3);
    assert_eq!(tx.to_id, 4);
}

#[test]
fn write_then_read_yields_written_value() {
    let mut user = UserInfo {
        id: 1,
        name: "Alice".to_string(),
        age: 30,
    };
    let name_column = UserInfo::column_user_name();
    *user.value_mut::<String>(&name_column).unwrap() = "Bob".to_string();
    assert_eq!(user.value_ref::<String>(&name_column).unwrap(), "Bob");
    assert_eq!(user.age, 30);
    assert!(user.value_mut::<u32>(&name_column).is_none());
    assert_eq!(user.name, "Bob");
}

#[test]
fn reference_targets_one_column_only() {
    let reference = Transaction::column_to_id().extra.reference.unwrap();
    assert_eq!(reference.table_name, "UserInfo");
    assert_eq!(reference.column_name, "id");
    assert_eq!(reference.table_id, USER_INFO);
    assert!(reference.points_to(&UserInfo::column_id()));
    assert!(!reference.points_to(&UserInfo::column_age()));
    // Alike in every field but its owning table.
    let mut lookalike = UserInfo::column_id();
    lookalike.table_id = TRANSACTION;
    assert!(!reference.points_to(&lookalike));
}

#[test]
fn table_membership_is_by_identity() {
    let table = UserInfo::table_info();
    assert!(table.has_column(&UserInfo::column_age()));
    let mut lookalike = UserInfo::column_age();
    lookalike.table_id = TRANSACTION;
    assert!(!table.has_column(&lookalike));
    assert!(!table.has_column(&Transaction::column_from_id()));
}

#[test]
fn reference_to_column_outside_table_is_none() {
    let users = UserInfo::table_info();
    assert!(Reference::new(&users, &Transaction::column_from_id()).is_none());
}

#[test]
fn lookup_by_name() {
    let table = UserInfo::table_info();
    let by_field = table.column_by_field_name("name").unwrap();
    assert_eq!(by_field.column_name, "user_name");
    let by_column = table.column_by_column_name("user_name").unwrap();
    assert_eq!(by_column.field_name, "name");
    assert!(table.column_by_column_name("name").is_none());
    assert!(table.column_by_field_name("user_name").is_none());
}
