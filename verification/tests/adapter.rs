//! Drives the adapter's entry points end to end over mock capability
//! implementations, checking the handle lifecycle, argument validation, and
//! error marshalling against the behaviour the contracts state.

use std::cell::Cell;
use std::cell::RefCell;
use std::rc::Rc;
use std::sync::Arc;

use arrow_adbc::columnar::BatchReader;
use arrow_adbc::connection::connection_commit;
use arrow_adbc::connection::connection_get_info;
use arrow_adbc::connection::connection_get_objects;
use arrow_adbc::connection::connection_get_table_schema;
use arrow_adbc::connection::connection_get_table_types;
use arrow_adbc::connection::connection_init;
use arrow_adbc::connection::connection_new;
use arrow_adbc::connection::connection_read_partition;
use arrow_adbc::connection::connection_release;
use arrow_adbc::connection::connection_set_option;
use arrow_adbc::database::database_init;
use arrow_adbc::database::database_new;
use arrow_adbc::database::database_release;
use arrow_adbc::database::database_set_option;
use arrow_adbc::error::AdbcError;
use arrow_adbc::error::AdbcStatusCode;
use arrow_adbc::error::ErrorRecord;
use arrow_adbc::ffi::AdbcObjectDepth;
use arrow_adbc::ffi::FFI_AdbcPartitions;
use arrow_adbc::ffi::OutArg;
use arrow_adbc::handle::FFI_AdbcConnection;
use arrow_adbc::handle::FFI_AdbcDatabase;
use arrow_adbc::handle::FFI_AdbcStatement;
use arrow_adbc::implement::init_adbc_driver;
use arrow_adbc::implement::release_adbc_driver;
use arrow_adbc::implement::AdbcConnectionImpl;
use arrow_adbc::implement::AdbcDatabaseImpl;
use arrow_adbc::implement::AdbcStatementImpl;
use arrow_adbc::interface::AdbcDataType;
use arrow_adbc::interface::AdbcField;
use arrow_adbc::interface::AdbcSchema;
use arrow_adbc::interface::ConnectionApi;
use arrow_adbc::interface::DatabaseApi;
use arrow_adbc::interface::PartitionedResult;
use arrow_adbc::interface::StatementApi;
use arrow_adbc::interface::StatementResult;
use arrow_adbc::statement::statement_bind;
use arrow_adbc::statement::statement_bind_stream;
use arrow_adbc::statement::statement_execute_partitions;
use arrow_adbc::statement::statement_execute_query;
use arrow_adbc::statement::statement_get_parameter_schema;
use arrow_adbc::statement::statement_new;
use arrow_adbc::statement::statement_prepare;
use arrow_adbc::statement::statement_release;
use arrow_adbc::statement::statement_set_option;
use arrow_adbc::statement::statement_set_sql_query;
use arrow_array::Array;
use arrow_data::ArrayData;

#[derive(Clone, Debug)]
struct MockError {
    msg: String,
    state: [i8; 5],
    code: AdbcStatusCode,
}

impl MockError {
    fn io(msg: &str) -> MockError {
        MockError { msg: msg.to_string(), state: [1, 2, 3, 4, 5], code: AdbcStatusCode::Io }
    }
}

impl AdbcError for MockError {
    // the specification-level items are never called at runtime
    fn message_spec(&self) -> vstd::seq::Seq<char> {
        unreachable!()
    }

    fn sqlstate_spec(&self) -> vstd::seq::Seq<i8> {
        unreachable!()
    }

    fn status_code_spec(&self) -> AdbcStatusCode {
        unreachable!()
    }

    fn message(&self) -> String {
        self.msg.clone()
    }

    fn sqlstate(&self) -> [i8; 5] {
        self.state
    }

    fn status_code(&self) -> AdbcStatusCode {
        self.code
    }
}

#[derive(Default)]
struct MockDatabase {
    init_calls: Cell<u32>,
    options: RefCell<Vec<(String, String)>>,
    fail_init_with: RefCell<Option<MockError>>,
}

impl DatabaseApi for MockDatabase {
    type Error = MockError;

    fn init(&self) -> Result<(), MockError> {
        self.init_calls.set(self.init_calls.get() + 1);
        match self.fail_init_with.borrow().clone() {
            Some(e) => Err(e),
            None => Ok(()),
        }
    }

    fn set_option(&self, key: &str, value: &str) -> Result<(), MockError> {
        self.options.borrow_mut().push((key.to_string(), value.to_string()));
        Ok(())
    }
}

impl AdbcDatabaseImpl for MockDatabase {}

#[derive(Default)]
struct MockConnection {
    db: RefCell<Option<Arc<MockDatabase>>>,
    objects: RefCell<Vec<String>>,
    schema_calls: Cell<u32>,
    table_schema: RefCell<Option<AdbcSchema>>,
    fail_commit_with: RefCell<Option<MockError>>,
}

impl ConnectionApi for MockConnection {
    type Error = MockError;
    type Reader = Vec<String>;

    fn set_option(&self, _key: &str, _value: &str) -> Result<(), MockError> {
        Ok(())
    }

    fn get_info(&self, info_codes: &Vec<u32>) -> Result<Vec<String>, MockError> {
        Ok(info_codes.iter().map(|c| c.to_string()).collect())
    }

    fn get_objects(
        &self,
        _depth: AdbcObjectDepth,
        _catalog: Option<String>,
        _db_schema: Option<String>,
        table_name: Option<String>,
        table_type: &Vec<String>,
        _column_name: Option<String>,
    ) -> Result<Vec<String>, MockError> {
        let _ = table_type;
        let names = self.objects.borrow();
        let mut out = Vec::new();
        for n in names.iter() {
            let keep = match &table_name {
                None => true,
                Some(filter) => n == filter,
            };
            if keep {
                out.push(n.clone());
            }
        }
        Ok(out)
    }

    fn get_table_schema(
        &self,
        _catalog: Option<String>,
        _db_schema: Option<String>,
        table_name: String,
    ) -> Result<AdbcSchema, MockError> {
        self.schema_calls.set(self.schema_calls.get() + 1);
        match self.table_schema.borrow().clone() {
            Some(s) => Ok(s),
            None => Err(MockError {
                msg: format!("no such table: {table_name}"),
                state: [0, 0, 0, 0, 0],
                code: AdbcStatusCode::NotFound,
            }),
        }
    }

    fn get_table_types(&self) -> Result<Vec<String>, MockError> {
        Ok(vec!["TABLE".to_string(), "VIEW".to_string()])
    }

    fn read_partition(&self, partition: &Vec<u8>) -> Result<Vec<String>, MockError> {
        Ok(vec![format!("partition of {} bytes", partition.len())])
    }

    fn commit(&self) -> Result<(), MockError> {
        match self.fail_commit_with.borrow().clone() {
            Some(e) => Err(e),
            None => Ok(()),
        }
    }

    fn rollback(&self) -> Result<(), MockError> {
        Ok(())
    }
}

impl AdbcConnectionImpl for MockConnection {
    type DatabaseType = MockDatabase;

    fn init(&self, database: Arc<MockDatabase>) -> Result<(), MockError> {
        *self.db.borrow_mut() = Some(database);
        Ok(())
    }
}

struct MockStatement {
    conn: Rc<MockConnection>,
    sql: String,
    options: Vec<(String, String)>,
    execute_calls: u32,
    fail_execute_with: Option<MockError>,
    rows: i64,
    produce_result: bool,
    bound: Option<ArrayData>,
    bound_stream: Option<Vec<u8>>,
}

impl StatementApi for MockStatement {
    type Error = MockError;
    type Reader = Vec<String>;
    type ParamStream = Vec<u8>;

    fn set_option(&mut self, key: &str, value: &str) -> Result<(), MockError> {
        self.options.push((key.to_string(), value.to_string()));
        Ok(())
    }

    fn set_sql_query(&mut self, query: &str) -> Result<(), MockError> {
        self.sql = query.to_string();
        Ok(())
    }

    fn set_substrait_plan(&mut self, _plan: &Vec<u8>) -> Result<(), MockError> {
        Ok(())
    }

    fn prepare(&mut self) -> Result<(), MockError> {
        Ok(())
    }

    fn bind_data(&mut self, data: ArrayData) -> Result<(), MockError> {
        self.bound = Some(data);
        Ok(())
    }

    fn bind_stream(&mut self, stream: Vec<u8>) -> Result<(), MockError> {
        self.bound_stream = Some(stream);
        Ok(())
    }

    fn execute(&mut self) -> Result<StatementResult<Vec<String>>, MockError> {
        self.execute_calls += 1;
        match self.fail_execute_with.clone() {
            Some(e) => Err(e),
            None => Ok(StatementResult {
                rows_affected: self.rows,
                result: if self.produce_result {
                    Some(vec!["row".to_string()])
                } else {
                    None
                },
            }),
        }
    }

    fn execute_partitioned(&mut self) -> Result<PartitionedResult, MockError> {
        self.execute_calls += 1;
        Ok(PartitionedResult {
            schema: sample_schema(),
            partition_ids: vec![vec![1, 2], vec![3]],
            rows_affected: 5,
        })
    }

    fn get_param_schema(&self) -> Result<AdbcSchema, MockError> {
        Ok(sample_schema())
    }
}

impl AdbcStatementImpl for MockStatement {
    type ConnectionType = MockConnection;

    fn new_from_connection(connection: Rc<MockConnection>) -> Self {
        MockStatement {
            conn: connection,
            sql: String::new(),
            options: Vec::new(),
            execute_calls: 0,
            fail_execute_with: None,
            rows: 7,
            produce_result: true,
            bound: None,
            bound_stream: None,
        }
    }
}

fn sample_schema() -> AdbcSchema {
    AdbcSchema {
        fields: vec![
            AdbcField { name: "id".to_string(), data_type: AdbcDataType::Int64, nullable: false },
            AdbcField { name: "name".to_string(), data_type: AdbcDataType::Utf8, nullable: true },
        ],
    }
}

fn fresh_db() -> (FFI_AdbcDatabase<MockDatabase>, OutArg<ErrorRecord>) {
    (FFI_AdbcDatabase::new(), OutArg::Untouched)
}

fn initialized_connection() -> (FFI_AdbcConnection<MockConnection>, FFI_AdbcDatabase<MockDatabase>)
{
    let mut err: OutArg<ErrorRecord> = OutArg::Untouched;
    let mut dbh = FFI_AdbcDatabase::new();
    assert_eq!(database_new(Some(&mut dbh), &mut err), AdbcStatusCode::Success);
    let mut ch = FFI_AdbcConnection::new();
    assert_eq!(connection_new(Some(&mut ch), &mut err), AdbcStatusCode::Success);
    assert_eq!(connection_init(Some(&ch), Some(&dbh), &mut err), AdbcStatusCode::Success);
    (ch, dbh)
}

fn initialized_statement() -> (
    FFI_AdbcStatement<MockStatement>,
    FFI_AdbcConnection<MockConnection>,
    FFI_AdbcDatabase<MockDatabase>,
) {
    let (ch, dbh) = initialized_connection();
    let mut err: OutArg<ErrorRecord> = OutArg::Untouched;
    let mut sh = FFI_AdbcStatement::new();
    assert_eq!(statement_new(Some(&ch), Some(&mut sh), &mut err), AdbcStatusCode::Success);
    (sh, ch, dbh)
}

fn written_message(err: &OutArg<ErrorRecord>) -> String {
    match err {
        OutArg::Written(rec) => rec.message.clone(),
        _ => panic!("no error record was written"),
    }
}

#[test]
fn release_is_a_no_op_on_fresh_handles() {
    let mut err: OutArg<ErrorRecord> = OutArg::Untouched;
    let mut dbh = FFI_AdbcDatabase::<MockDatabase>::new();
    assert_eq!(database_release(Some(&mut dbh), &mut err), AdbcStatusCode::Success);
    assert_eq!(database_release(Some(&mut dbh), &mut err), AdbcStatusCode::Success);
    let mut ch = FFI_AdbcConnection::<MockConnection>::new();
    assert_eq!(connection_release(Some(&mut ch), &mut err), AdbcStatusCode::Success);
    assert_eq!(connection_release(Some(&mut ch), &mut err), AdbcStatusCode::Success);
    let mut sh = FFI_AdbcStatement::<MockStatement>::new();
    assert_eq!(statement_release(Some(&mut sh), &mut err), AdbcStatusCode::Success);
    assert_eq!(statement_release(Some(&mut sh), &mut err), AdbcStatusCode::Success);
}

#[test]
fn release_succeeds_on_null_handles() {
    let mut err: OutArg<ErrorRecord> = OutArg::Untouched;
    assert_eq!(
        database_release::<MockDatabase>(None, &mut err),
        AdbcStatusCode::Success
    );
    assert_eq!(
        connection_release::<MockConnection>(None, &mut err),
        AdbcStatusCode::Success
    );
    assert_eq!(
        statement_release::<MockStatement>(None, &mut err),
        AdbcStatusCode::Success
    );
}

#[test]
fn release_twice_after_init_succeeds_both_times() {
    let (mut ch, mut dbh) = initialized_connection();
    let mut err: OutArg<ErrorRecord> = OutArg::Untouched;
    assert_eq!(connection_release(Some(&mut ch), &mut err), AdbcStatusCode::Success);
    assert_eq!(connection_release(Some(&mut ch), &mut err), AdbcStatusCode::Success);
    assert_eq!(database_release(Some(&mut dbh), &mut err), AdbcStatusCode::Success);
    assert_eq!(database_release(Some(&mut dbh), &mut err), AdbcStatusCode::Success);
}

#[test]
fn accessors_fail_with_invalid_state_before_new() {
    let mut err: OutArg<ErrorRecord> = OutArg::Untouched;
    let dbh = FFI_AdbcDatabase::<MockDatabase>::new();
    assert_eq!(database_init(Some(&dbh), &mut err), AdbcStatusCode::InvalidState);
    assert_eq!(
        database_set_option(Some(&dbh), Some(b"k".to_vec()), Some(b"v".to_vec()), &mut err),
        AdbcStatusCode::InvalidState
    );
    let ch = FFI_AdbcConnection::<MockConnection>::new();
    let mut out: OutArg<Vec<String>> = OutArg::Untouched;
    assert_eq!(connection_commit(Some(&ch), &mut err), AdbcStatusCode::InvalidState);
    assert_eq!(
        connection_get_info(Some(&ch), vec![1], &mut out, &mut err),
        AdbcStatusCode::InvalidState
    );
    assert!(matches!(out, OutArg::Untouched));
    let mut sh = FFI_AdbcStatement::<MockStatement>::new();
    assert_eq!(statement_prepare(Some(&mut sh), &mut err), AdbcStatusCode::InvalidState);
}

#[test]
fn accessors_fail_with_invalid_state_on_null_handles() {
    let mut err: OutArg<ErrorRecord> = OutArg::Untouched;
    assert_eq!(database_init::<MockDatabase>(None, &mut err), AdbcStatusCode::InvalidState);
    assert_eq!(
        connection_commit::<MockConnection>(None, &mut err),
        AdbcStatusCode::InvalidState
    );
    assert_eq!(
        statement_prepare::<MockStatement>(None, &mut err),
        AdbcStatusCode::InvalidState
    );
    assert_eq!(database_new::<MockDatabase>(None, &mut err), AdbcStatusCode::InvalidState);
}

#[test]
fn database_new_twice_fails_and_keeps_the_original_state() {
    let (mut dbh, mut err) = fresh_db();
    assert_eq!(database_new(Some(&mut dbh), &mut err), AdbcStatusCode::Success);
    let original = Arc::clone(dbh.private_data.as_ref().unwrap());
    original.options.borrow_mut().push(("mark".to_string(), "1".to_string()));
    assert_eq!(database_new(Some(&mut dbh), &mut err), AdbcStatusCode::InvalidState);
    let kept = dbh.private_data.as_ref().unwrap();
    assert!(Arc::ptr_eq(&original, kept));
    assert_eq!(kept.options.borrow().len(), 1);
}

#[test]
fn connection_keeps_the_database_alive_after_database_release() {
    let (ch, mut dbh) = initialized_connection();
    let db_arc = Arc::clone(dbh.private_data.as_ref().unwrap());
    // the handle and the connection each hold a reference, plus `db_arc`
    assert_eq!(Arc::strong_count(&db_arc), 3);
    let mut err: OutArg<ErrorRecord> = OutArg::Untouched;
    assert_eq!(database_release(Some(&mut dbh), &mut err), AdbcStatusCode::Success);
    assert!(dbh.private_data.is_none());
    // the connection still references the database: its state is not destroyed
    assert_eq!(Arc::strong_count(&db_arc), 2);
    let conn = ch.private_data.as_ref().unwrap();
    let held = conn.db.borrow();
    let db = held.as_ref().unwrap();
    assert!(db.set_option("still", "usable").is_ok());
    assert_eq!(db.options.borrow().last().unwrap().0, "still");
}

#[test]
fn database_init_reaches_the_implementation_once() {
    let (mut dbh, mut err) = fresh_db();
    assert_eq!(database_new(Some(&mut dbh), &mut err), AdbcStatusCode::Success);
    assert_eq!(database_init(Some(&dbh), &mut err), AdbcStatusCode::Success);
    assert_eq!(dbh.private_data.as_ref().unwrap().init_calls.get(), 1);
}

#[test]
fn set_option_decodes_the_c_strings_it_is_given() {
    let (mut dbh, mut err) = fresh_db();
    assert_eq!(database_new(Some(&mut dbh), &mut err), AdbcStatusCode::Success);
    assert_eq!(
        database_set_option(Some(&dbh), Some(b"uri".to_vec()), Some(b"db://x".to_vec()), &mut err),
        AdbcStatusCode::Success
    );
    let recorded = dbh.private_data.as_ref().unwrap().options.borrow().clone();
    assert_eq!(recorded, vec![("uri".to_string(), "db://x".to_string())]);
}

#[test]
fn set_option_treats_null_strings_as_empty() {
    let (mut dbh, mut err) = fresh_db();
    assert_eq!(database_new(Some(&mut dbh), &mut err), AdbcStatusCode::Success);
    assert_eq!(database_set_option(Some(&dbh), None, None, &mut err), AdbcStatusCode::Success);
    let recorded = dbh.private_data.as_ref().unwrap().options.borrow().clone();
    assert_eq!(recorded, vec![(String::new(), String::new())]);
}

#[test]
fn set_option_rejects_invalid_utf8_before_the_implementation() {
    let (mut dbh, mut err) = fresh_db();
    assert_eq!(database_new(Some(&mut dbh), &mut err), AdbcStatusCode::Success);
    assert_eq!(
        database_set_option(Some(&dbh), Some(vec![0xff, 0xfe]), Some(b"v".to_vec()), &mut err),
        AdbcStatusCode::InvalidArguments
    );
    assert!(dbh.private_data.as_ref().unwrap().options.borrow().is_empty());
    assert_eq!(written_message(&err), "Invalid UTF-8 in a string argument.");
}

#[test]
fn get_objects_with_null_filters_returns_all_objects() {
    let (ch, _dbh) = initialized_connection();
    ch.private_data
        .as_ref()
        .unwrap()
        .objects
        .borrow_mut()
        .extend(["a".to_string(), "b".to_string()]);
    let mut err: OutArg<ErrorRecord> = OutArg::Untouched;
    let mut out: OutArg<Vec<String>> = OutArg::Untouched;
    let status = connection_get_objects(
        Some(&ch),
        AdbcObjectDepth::All,
        None,
        None,
        None,
        None,
        None,
        &mut out,
        &mut err,
    );
    assert_eq!(status, AdbcStatusCode::Success);
    assert!(matches!(out, OutArg::Written(ref v) if *v == vec!["a".to_string(), "b".to_string()]));
}

#[test]
fn get_objects_distinguishes_empty_name_filter_from_unfiltered() {
    let (ch, _dbh) = initialized_connection();
    ch.private_data
        .as_ref()
        .unwrap()
        .objects
        .borrow_mut()
        .extend(["a".to_string(), "b".to_string()]);
    let mut err: OutArg<ErrorRecord> = OutArg::Untouched;
    let mut out: OutArg<Vec<String>> = OutArg::Untouched;
    let status = connection_get_objects(
        Some(&ch),
        AdbcObjectDepth::All,
        None,
        None,
        Some(Vec::new()),
        None,
        None,
        &mut out,
        &mut err,
    );
    assert_eq!(status, AdbcStatusCode::Success);
    assert!(matches!(out, OutArg::Written(ref v) if v.is_empty()));
}

#[test]
fn get_table_schema_with_null_table_name_makes_no_implementation_call() {
    let (ch, _dbh) = initialized_connection();
    *ch.private_data.as_ref().unwrap().table_schema.borrow_mut() = Some(sample_schema());
    let mut err: OutArg<ErrorRecord> = OutArg::Untouched;
    let mut out: OutArg<AdbcSchema> = OutArg::Untouched;
    let status = connection_get_table_schema(Some(&ch), None, None, None, &mut out, &mut err);
    assert_eq!(status, AdbcStatusCode::InvalidArguments);
    assert_eq!(ch.private_data.as_ref().unwrap().schema_calls.get(), 0);
    assert!(matches!(out, OutArg::Untouched));
    assert_eq!(written_message(&err), "Passed nullptr to table_name in GetTableSchema.");
}

#[test]
fn get_table_schema_requires_a_non_null_output_record() {
    let (ch, _dbh) = initialized_connection();
    let mut err: OutArg<ErrorRecord> = OutArg::Untouched;
    let mut out: OutArg<AdbcSchema> = OutArg::Null;
    let status = connection_get_table_schema(
        Some(&ch),
        None,
        None,
        Some(b"t".to_vec()),
        &mut out,
        &mut err,
    );
    assert_eq!(status, AdbcStatusCode::InvalidArguments);
    assert_eq!(ch.private_data.as_ref().unwrap().schema_calls.get(), 0);
    assert_eq!(written_message(&err), "Passed nullptr to schema in GetTableSchema.");
}

#[test]
fn get_table_schema_writes_the_schema_the_implementation_produced() {
    let (ch, _dbh) = initialized_connection();
    *ch.private_data.as_ref().unwrap().table_schema.borrow_mut() = Some(sample_schema());
    let mut err: OutArg<ErrorRecord> = OutArg::Untouched;
    let mut out: OutArg<AdbcSchema> = OutArg::Untouched;
    let status = connection_get_table_schema(
        Some(&ch),
        None,
        None,
        Some(b"t".to_vec()),
        &mut out,
        &mut err,
    );
    assert_eq!(status, AdbcStatusCode::Success);
    assert!(matches!(out, OutArg::Written(ref s) if *s == sample_schema()));
}

#[test]
fn get_table_types_hands_out_a_single_batch_of_the_types() {
    let (ch, _dbh) = initialized_connection();
    let mut err: OutArg<ErrorRecord> = OutArg::Untouched;
    let mut out: OutArg<BatchReader> = OutArg::Untouched;
    let status = connection_get_table_types(Some(&ch), &mut out, &mut err);
    assert_eq!(status, AdbcStatusCode::Success);
    let mut reader = match out {
        OutArg::Written(r) => r,
        _ => panic!("no reader was written"),
    };
    let schema = reader.schema().clone();
    assert_eq!(schema.fields.len(), 1);
    assert_eq!(schema.fields[0].name, "table_type");
    assert_eq!(schema.fields[0].data_type, AdbcDataType::Utf8);
    assert!(!schema.fields[0].nullable);
    let batch = reader.next_batch().expect("one batch");
    assert_eq!(batch.field_name, "table_type");
    assert_eq!(batch.values, vec!["TABLE".to_string(), "VIEW".to_string()]);
    assert!(reader.next_batch().is_none());
}

#[test]
fn get_info_and_read_partition_deliver_the_readers() {
    let (ch, _dbh) = initialized_connection();
    let mut err: OutArg<ErrorRecord> = OutArg::Untouched;
    let mut out: OutArg<Vec<String>> = OutArg::Untouched;
    assert_eq!(
        connection_get_info(Some(&ch), vec![4, 2], &mut out, &mut err),
        AdbcStatusCode::Success
    );
    assert!(matches!(out, OutArg::Written(ref v) if *v == vec!["4".to_string(), "2".to_string()]));
    let mut out2: OutArg<Vec<String>> = OutArg::Untouched;
    assert_eq!(
        connection_read_partition(Some(&ch), vec![9, 9, 9], &mut out2, &mut err),
        AdbcStatusCode::Success
    );
    assert!(
        matches!(out2, OutArg::Written(ref v) if *v == vec!["partition of 3 bytes".to_string()])
    );
}

#[test]
fn statement_new_requires_an_initialized_connection_and_a_handle() {
    let mut err: OutArg<ErrorRecord> = OutArg::Untouched;
    let ch = FFI_AdbcConnection::<MockConnection>::new();
    let mut sh = FFI_AdbcStatement::<MockStatement>::new();
    assert_eq!(
        statement_new(Some(&ch), Some(&mut sh), &mut err),
        AdbcStatusCode::InvalidState
    );
    assert!(sh.private_data.is_none());
    let (ch, _dbh) = initialized_connection();
    assert_eq!(
        statement_new::<MockStatement>(Some(&ch), None, &mut err),
        AdbcStatusCode::InvalidState
    );
    assert_eq!(statement_new(Some(&ch), Some(&mut sh), &mut err), AdbcStatusCode::Success);
    assert_eq!(
        statement_new(Some(&ch), Some(&mut sh), &mut err),
        AdbcStatusCode::InvalidState
    );
}

#[test]
fn set_sql_query_passes_the_text_and_defaults_null_to_empty() {
    let (mut sh, _ch, _dbh) = initialized_statement();
    let mut err: OutArg<ErrorRecord> = OutArg::Untouched;
    assert_eq!(
        statement_set_sql_query(Some(&mut sh), Some(b"SELECT 1".to_vec()), &mut err),
        AdbcStatusCode::Success
    );
    assert_eq!(sh.private_data.as_ref().unwrap().sql, "SELECT 1");
    assert_eq!(statement_set_sql_query(Some(&mut sh), None, &mut err), AdbcStatusCode::Success);
    assert_eq!(sh.private_data.as_ref().unwrap().sql, "");
    assert_eq!(
        statement_set_sql_query(Some(&mut sh), Some(vec![0x80]), &mut err),
        AdbcStatusCode::InvalidArguments
    );
}

#[test]
fn statement_set_option_reaches_the_implementation() {
    let (mut sh, _ch, _dbh) = initialized_statement();
    let mut err: OutArg<ErrorRecord> = OutArg::Untouched;
    assert_eq!(
        statement_set_option(Some(&mut sh), Some(b"k".to_vec()), Some(b"v".to_vec()), &mut err),
        AdbcStatusCode::Success
    );
    assert_eq!(
        sh.private_data.as_ref().unwrap().options,
        vec![("k".to_string(), "v".to_string())]
    );
}

#[test]
fn bind_hands_the_imported_array_data_through() {
    let (mut sh, _ch, _dbh) = initialized_statement();
    let mut err: OutArg<ErrorRecord> = OutArg::Untouched;
    let data = arrow_array::Int32Array::from(vec![1, 2, 3]).into_data();
    assert_eq!(statement_bind(Some(&mut sh), data.clone(), &mut err), AdbcStatusCode::Success);
    assert_eq!(sh.private_data.as_ref().unwrap().bound.as_ref().unwrap(), &data);
}

#[test]
fn bind_stream_rejects_a_null_stream_pointer() {
    let (mut sh, _ch, _dbh) = initialized_statement();
    let mut err: OutArg<ErrorRecord> = OutArg::Untouched;
    assert_eq!(
        statement_bind_stream(Some(&mut sh), None, &mut err),
        AdbcStatusCode::InvalidArguments
    );
    assert_eq!(written_message(&err), "Passed nullptr to stream in BindStream.");
    assert_eq!(
        statement_bind_stream(Some(&mut sh), Some(vec![7]), &mut err),
        AdbcStatusCode::Success
    );
    assert_eq!(sh.private_data.as_ref().unwrap().bound_stream, Some(vec![7]));
}

#[test]
fn execute_query_with_null_outputs_still_executes() {
    let (mut sh, _ch, _dbh) = initialized_statement();
    let mut err: OutArg<ErrorRecord> = OutArg::Untouched;
    let mut out: OutArg<Vec<String>> = OutArg::Null;
    let mut rows: OutArg<i64> = OutArg::Null;
    let status = statement_execute_query(Some(&mut sh), &mut out, &mut rows, &mut err);
    assert_eq!(status, AdbcStatusCode::Success);
    assert_eq!(sh.private_data.as_ref().unwrap().execute_calls, 1);
    assert!(matches!(out, OutArg::Null));
    assert!(matches!(rows, OutArg::Null));
}

#[test]
fn execute_query_writes_the_outputs_the_caller_asked_for() {
    let (mut sh, _ch, _dbh) = initialized_statement();
    let mut err: OutArg<ErrorRecord> = OutArg::Untouched;
    let mut out: OutArg<Vec<String>> = OutArg::Untouched;
    let mut rows: OutArg<i64> = OutArg::Untouched;
    let status = statement_execute_query(Some(&mut sh), &mut out, &mut rows, &mut err);
    assert_eq!(status, AdbcStatusCode::Success);
    assert!(matches!(rows, OutArg::Written(7)));
    assert!(matches!(out, OutArg::Written(ref v) if *v == vec!["row".to_string()]));
}

#[test]
fn execute_query_without_a_result_set_leaves_the_stream_untouched() {
    let (mut sh, _ch, _dbh) = initialized_statement();
    sh.private_data.as_mut().unwrap().produce_result = false;
    sh.private_data.as_mut().unwrap().rows = 3;
    let mut err: OutArg<ErrorRecord> = OutArg::Untouched;
    let mut out: OutArg<Vec<String>> = OutArg::Untouched;
    let mut rows: OutArg<i64> = OutArg::Untouched;
    let status = statement_execute_query(Some(&mut sh), &mut out, &mut rows, &mut err);
    assert_eq!(status, AdbcStatusCode::Success);
    assert!(matches!(out, OutArg::Untouched));
    assert!(matches!(rows, OutArg::Written(3)));
}

#[test]
fn execute_partitions_requires_both_output_records() {
    let (mut sh, _ch, _dbh) = initialized_statement();
    let mut err: OutArg<ErrorRecord> = OutArg::Untouched;
    let mut schema_out: OutArg<AdbcSchema> = OutArg::Null;
    let mut parts_out: OutArg<FFI_AdbcPartitions> = OutArg::Untouched;
    let mut rows: OutArg<i64> = OutArg::Null;
    let status = statement_execute_partitions(
        Some(&mut sh),
        &mut schema_out,
        &mut parts_out,
        &mut rows,
        &mut err,
    );
    assert_eq!(status, AdbcStatusCode::InvalidArguments);
    assert_eq!(sh.private_data.as_ref().unwrap().execute_calls, 0);
    assert_eq!(written_message(&err), "Passed nullptr to schema in ExecutePartitions.");
}

#[test]
fn execute_partitions_writes_schema_partitions_and_rows() {
    let (mut sh, _ch, _dbh) = initialized_statement();
    let mut err: OutArg<ErrorRecord> = OutArg::Untouched;
    let mut schema_out: OutArg<AdbcSchema> = OutArg::Untouched;
    let mut parts_out: OutArg<FFI_AdbcPartitions> = OutArg::Untouched;
    let mut rows: OutArg<i64> = OutArg::Untouched;
    let status = statement_execute_partitions(
        Some(&mut sh),
        &mut schema_out,
        &mut parts_out,
        &mut rows,
        &mut err,
    );
    assert_eq!(status, AdbcStatusCode::Success);
    assert!(matches!(schema_out, OutArg::Written(ref s) if *s == sample_schema()));
    assert!(
        matches!(parts_out, OutArg::Written(ref p) if p.partition_ids == vec![vec![1u8, 2u8], vec![3u8]])
    );
    assert!(matches!(rows, OutArg::Written(5)));
}

#[test]
fn get_parameter_schema_requires_a_non_null_output_record() {
    let (sh, _ch, _dbh) = initialized_statement();
    let mut err: OutArg<ErrorRecord> = OutArg::Untouched;
    let mut out: OutArg<AdbcSchema> = OutArg::Null;
    let status = statement_get_parameter_schema(Some(&sh), &mut out, &mut err);
    assert_eq!(status, AdbcStatusCode::InvalidArguments);
    assert_eq!(written_message(&err), "Passed nullptr to schema in GetParameterSchema.");
    let mut out2: OutArg<AdbcSchema> = OutArg::Untouched;
    assert_eq!(
        statement_get_parameter_schema(Some(&sh), &mut out2, &mut err),
        AdbcStatusCode::Success
    );
    assert!(matches!(out2, OutArg::Written(ref s) if *s == sample_schema()));
}

#[test]
fn database_error_path_reports_status_and_message() {
    let (mut dbh, mut err) = fresh_db();
    assert_eq!(database_new(Some(&mut dbh), &mut err), AdbcStatusCode::Success);
    *dbh.private_data.as_ref().unwrap().fail_init_with.borrow_mut() =
        Some(MockError::io("database is unreachable"));
    let status = database_init(Some(&dbh), &mut err);
    assert_eq!(status, AdbcStatusCode::Io);
    match &err {
        OutArg::Written(rec) => {
            assert_eq!(rec.message, "database is unreachable");
            assert_eq!(rec.sqlstate, [1, 2, 3, 4, 5]);
        },
        _ => panic!("no error record was written"),
    }
}

#[test]
fn connection_error_path_reports_status_and_message() {
    let (ch, _dbh) = initialized_connection();
    *ch.private_data.as_ref().unwrap().fail_commit_with.borrow_mut() =
        Some(MockError::io("commit refused"));
    let mut err: OutArg<ErrorRecord> = OutArg::Untouched;
    assert_eq!(connection_commit(Some(&ch), &mut err), AdbcStatusCode::Io);
    assert_eq!(written_message(&err), "commit refused");
}

#[test]
fn statement_error_path_reports_status_and_message() {
    let (mut sh, _ch, _dbh) = initialized_statement();
    sh.private_data.as_mut().unwrap().fail_execute_with = Some(MockError::io("bad query"));
    let mut err: OutArg<ErrorRecord> = OutArg::Untouched;
    let mut out: OutArg<Vec<String>> = OutArg::Untouched;
    let mut rows: OutArg<i64> = OutArg::Untouched;
    let status = statement_execute_query(Some(&mut sh), &mut out, &mut rows, &mut err);
    assert_eq!(status, AdbcStatusCode::Io);
    assert_eq!(written_message(&err), "bad query");
    assert!(matches!(out, OutArg::Untouched));
    assert!(matches!(rows, OutArg::Untouched));
}

#[test]
fn a_null_error_record_drops_the_message_but_not_the_status() {
    let (mut dbh, _err) = fresh_db();
    let mut err: OutArg<ErrorRecord> = OutArg::Null;
    assert_eq!(database_new(Some(&mut dbh), &mut err), AdbcStatusCode::Success);
    *dbh.private_data.as_ref().unwrap().fail_init_with.borrow_mut() =
        Some(MockError::io("silent"));
    assert_eq!(database_init(Some(&dbh), &mut err), AdbcStatusCode::Io);
    assert!(matches!(err, OutArg::Null));
}

#[test]
fn connection_set_option_reaches_the_implementation() {
    let (ch, _dbh) = initialized_connection();
    let mut err: OutArg<ErrorRecord> = OutArg::Untouched;
    assert_eq!(
        connection_set_option(Some(&ch), Some(b"a".to_vec()), Some(b"b".to_vec()), &mut err),
        AdbcStatusCode::Success
    );
}

#[test]
fn the_driver_table_is_fully_populated_and_its_release_is_idempotent() {
    let mut driver = init_adbc_driver::<MockStatement>();
    assert!(driver.release);
    assert!(driver.DatabaseNew && driver.DatabaseInit && driver.DatabaseRelease);
    assert!(driver.ConnectionNew && driver.ConnectionInit && driver.ConnectionRelease);
    assert!(driver.StatementNew && driver.StatementExecuteQuery && driver.StatementRelease);
    let mut err: OutArg<ErrorRecord> = OutArg::Untouched;
    assert_eq!(release_adbc_driver(Some(&mut driver), &mut err), AdbcStatusCode::Success);
    assert!(!driver.release);
    assert!(driver.DatabaseNew && driver.StatementRelease);
    assert_eq!(release_adbc_driver(Some(&mut driver), &mut err), AdbcStatusCode::Success);
    assert!(!driver.release);
    assert_eq!(release_adbc_driver(None, &mut err), AdbcStatusCode::Success);
}

fn to_arrow_type(t: &AdbcDataType) -> arrow_schema::DataType {
    match t {
        AdbcDataType::Boolean => arrow_schema::DataType::Boolean,
        AdbcDataType::Int8 => arrow_schema::DataType::Int8,
        AdbcDataType::Int16 => arrow_schema::DataType::Int16,
        AdbcDataType::Int32 => arrow_schema::DataType::Int32,
        AdbcDataType::Int64 => arrow_schema::DataType::Int64,
        AdbcDataType::Utf8 => arrow_schema::DataType::Utf8,
        AdbcDataType::Binary => arrow_schema::DataType::Binary,
    }
}

fn from_arrow_type(t: &arrow_schema::DataType) -> AdbcDataType {
    match t {
        arrow_schema::DataType::Boolean => AdbcDataType::Boolean,
        arrow_schema::DataType::Int8 => AdbcDataType::Int8,
        arrow_schema::DataType::Int16 => AdbcDataType::Int16,
        arrow_schema::DataType::Int32 => AdbcDataType::Int32,
        arrow_schema::DataType::Int64 => AdbcDataType::Int64,
        arrow_schema::DataType::Utf8 => AdbcDataType::Utf8,
        arrow_schema::DataType::Binary => AdbcDataType::Binary,
        other => panic!("unexpected type {other:?}"),
    }
}

fn to_arrow_schema(s: &AdbcSchema) -> arrow_schema::Schema {
    let fields: Vec<arrow_schema::Field> = s
        .fields
        .iter()
        .map(|f| arrow_schema::Field::new(f.name.clone(), to_arrow_type(&f.data_type), f.nullable))
        .collect();
    arrow_schema::Schema::new(fields)
}

fn from_arrow_schema(s: &arrow_schema::Schema) -> AdbcSchema {
    AdbcSchema {
        fields: s
            .fields()
            .iter()
            .map(|f| AdbcField {
                name: f.name().clone(),
                data_type: from_arrow_type(f.data_type()),
                nullable: f.is_nullable(),
            })
            .collect(),
    }
}

#[test]
fn a_schema_round_trips_through_the_columnar_c_interface() {
    let (ch, _dbh) = initialized_connection();
    *ch.private_data.as_ref().unwrap().table_schema.borrow_mut() = Some(sample_schema());
    let mut err: OutArg<ErrorRecord> = OutArg::Untouched;
    let mut out: OutArg<AdbcSchema> = OutArg::Untouched;
    let status = connection_get_table_schema(
        Some(&ch),
        None,
        None,
        Some(b"t".to_vec()),
        &mut out,
        &mut err,
    );
    assert_eq!(status, AdbcStatusCode::Success);
    let exported = match out {
        OutArg::Written(s) => s,
        _ => panic!("no schema was written"),
    };
    // the adapter hands the schema through unchanged
    assert_eq!(exported, sample_schema());
    // and the columnar library's C Data Interface round-trips it: field
    // names, types, nullability and ordering all survive
    let arrow = to_arrow_schema(&exported);
    let c_record = arrow_schema::ffi::FFI_ArrowSchema::try_from(&arrow).unwrap();
    let imported = arrow_schema::Schema::try_from(&c_record).unwrap();
    assert_eq!(arrow, imported);
    assert_eq!(from_arrow_schema(&imported), sample_schema());
}

#[test]
fn the_adapter_error_kinds_declare_their_codes_and_states() {
    let invalid = arrow_adbc::error::AdbcFFIError::InvalidState("wrong state");
    assert_eq!(invalid.status_code(), AdbcStatusCode::InvalidState);
    assert_eq!(invalid.message(), "wrong state");
    assert_eq!(invalid.sqlstate(), [5, 5, 0, 1, 9]);
    let not_impl = arrow_adbc::error::AdbcFFIError::NotImplemented("not wired");
    assert_eq!(not_impl.status_code(), AdbcStatusCode::NotImplemented);
    assert_eq!(not_impl.message(), "not wired");
    assert_eq!(not_impl.sqlstate(), [5, 6, 0, 3, 8]);
}

#[test]
fn the_marshaller_fills_the_record_from_any_typed_error() {
    let mut err: OutArg<ErrorRecord> = OutArg::Untouched;
    let e = arrow_adbc::error::AdbcFFIError::NotImplemented("not wired");
    let status = arrow_adbc::error::set_error_record(&e, &mut err);
    assert_eq!(status, AdbcStatusCode::NotImplemented);
    match &err {
        OutArg::Written(rec) => {
            assert_eq!(rec.message, "not wired");
            assert_eq!(rec.sqlstate, [5, 6, 0, 3, 8]);
            assert_eq!(rec.vendor_code, 0);
        },
        _ => panic!("no error record was written"),
    }
    let mut null_err: OutArg<ErrorRecord> = OutArg::Null;
    let status = arrow_adbc::error::set_error_record(&e, &mut null_err);
    assert_eq!(status, AdbcStatusCode::NotImplemented);
    assert!(matches!(null_err, OutArg::Null));
}

#[test]
fn get_objects_rejects_invalid_utf8_in_the_table_type_list() {
    let (ch, _dbh) = initialized_connection();
    ch.private_data.as_ref().unwrap().objects.borrow_mut().push("a".to_string());
    let mut err: OutArg<ErrorRecord> = OutArg::Untouched;
    let mut out: OutArg<Vec<String>> = OutArg::Untouched;
    let status = connection_get_objects(
        Some(&ch),
        AdbcObjectDepth::Tables,
        None,
        None,
        None,
        Some(vec![b"TABLE".to_vec(), vec![0xC0, 0x00]]),
        None,
        &mut out,
        &mut err,
    );
    assert_eq!(status, AdbcStatusCode::InvalidArguments);
    assert!(matches!(out, OutArg::Untouched));
    assert_eq!(written_message(&err), "Invalid UTF-8 in a string argument.");
}

#[test]
fn set_substrait_plan_reaches_the_implementation() {
    let (mut sh, _ch, _dbh) = initialized_statement();
    let mut err: OutArg<ErrorRecord> = OutArg::Untouched;
    assert_eq!(
        arrow_adbc::statement::statement_set_substrait_plan(
            Some(&mut sh),
            vec![1, 2, 3],
            &mut err
        ),
        AdbcStatusCode::Success
    );
    assert_eq!(
        arrow_adbc::statement::statement_set_substrait_plan::<MockStatement>(
            None,
            vec![1],
            &mut err
        ),
        AdbcStatusCode::InvalidState
    );
}
