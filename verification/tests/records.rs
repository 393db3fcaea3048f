use std::time::Duration;
use std::time::UNIX_EPOCH;

use filer_core::dirs::AppDirs;
use filer_core::dirs::SystemDirs;
use filer_core::errors::AppError;
use filer_core::errors::MapErrorStr;
use filer_core::images::crop_rect;
use filer_core::images::PaperSize;
use filer_core::lock::A2RwOptionLock;
use filer_core::sample_data::SampleData;
use filer_core::sample_data::SqlParam;
use filer_core::timestamp::Timestamp;

#[test]
fn test_map_error_str() {
    let result: Result<i32, AppError> = Err(AppError::new("error"));
    let mapped: Result<i32, String> = result.map_error_str();
    assert_eq!(mapped, Err("error".to_string()));
}

#[test]
fn test_map_error_str_ok() {
    let result: Result<i32, AppError> = Ok(41);
    assert_eq!(result.map_error_str(), Ok(41));
}

#[test]
fn test_app_error_message() {
    let e = AppError::new("it broke");
    assert_eq!(e.message(), "it broke");
    assert_eq!(e.clone().message(), "it broke");
}

struct NoCloane {
    pub v: i32,
}

#[test]
fn test_rwlock_option_lock() {
    let mut lock1 = A2RwOptionLock::<i32>::new();
    let mut lock2 = A2RwOptionLock::<NoCloane>::new();

    lock1.set(10).unwrap();
    let v = lock1.get();
    assert_eq!(v.unwrap(), 10);

    lock2.set(NoCloane { v: 20 }).unwrap();
    // NoCloane cannot use get(), because it is not Clone.
    let v = lock2.with(|v| v.v);
    assert_eq!(v.unwrap(), 20);
}

#[test]
fn test_lock_empty_reads_fail() {
    let lock = A2RwOptionLock::<i32>::new();
    let got = lock.get();
    assert!(got.is_err());
    assert_eq!(got.unwrap_err().message(), "not setted");
    assert!(lock.with(|v| *v).is_err());
}

#[test]
fn test_lock_with_mut() {
    let mut lock = A2RwOptionLock::<i32>::new();
    assert!(lock.with_mut(|v: i32| (v + 1, v)).is_err());
    lock.set(5).unwrap();
    let old = lock.with_mut(|v: i32| (v + 1, v)).unwrap();
    assert_eq!(old, 5);
    assert_eq!(lock.get().unwrap(), 6);
}

#[test]
fn test_sample_data_sql() {
    let (sql, params) = SampleData::create_table_sql();
    assert_eq!(
        sql,
        "CREATE TABLE IF NOT EXISTS SampleData (id INTEGER PRIMARY KEY, name TEXT NOT NULL, age INTEGER NOT NULL);"
    );
    assert!(params.is_empty());

    let (sql, params) = SampleData::insert("Alice", 18);
    assert_eq!(sql, "INSERT INTO SampleData (name, age) VALUES (?1, ?2);");
    assert_eq!(params.len(), 2);
    assert!(matches!(&params[0], SqlParam::Text(s) if s == "Alice"));
    assert!(matches!(params[1], SqlParam::Integer(18)));

    let (sql, params) = SampleData::select_all();
    assert_eq!(sql, "SELECT id, name, age FROM SampleData;");
    assert!(params.is_empty());

    let (sql, params) = SampleData::select_by_id(7);
    assert_eq!(sql, "SELECT id, name, age FROM SampleData WHERE id = ?1;");
    assert!(matches!(params[..], [SqlParam::Integer(7)]));

    let (sql, params) = SampleData::delete_by_id(7);
    assert_eq!(sql, "DELETE FROM SampleData WHERE id = ?1;");
    assert!(matches!(params[..], [SqlParam::Integer(7)]));

    let (sql, params) = SampleData::delete_all();
    assert_eq!(sql, "DELETE FROM SampleData;");
    assert!(params.is_empty());
}

#[test]
fn test_sample_data_clone() {
    let row = SampleData { id: 1, name: String::from("Bob"), age: 30 };
    let copy = row.clone();
    assert_eq!(copy.id, 1);
    assert_eq!(copy.name, "Bob");
    assert_eq!(copy.age, 30);
}

#[test]
fn test_dirs_default() {
    let a = AppDirs::default();
    assert_eq!(a.config_dir, "");
    assert_eq!(a.data_dir, "");
    let s = SystemDirs::default();
    assert_eq!(s.home_dir, "");
    assert_eq!(s.temp_dir, "");
}

#[test]
fn test_crop_rect() {
    // Wider and taller than wanted: both axes capped and centred.
    assert_eq!(crop_rect(100, 50, 60, 30), (20, 10, 60, 30));
    // Smaller than wanted: the whole image is kept.
    assert_eq!(crop_rect(40, 20, 60, 30), (0, 0, 40, 20));
    // Odd margins round the offset down.
    assert_eq!(crop_rect(101, 50, 60, 49), (20, 0, 60, 49));
}

#[test]
fn test_paper_size() {
    let a4 = PaperSize { x: 210, y: 297 };
    assert_eq!(a4, a4.clone());
    assert_eq!(a4.x, 210);
}

#[test]
fn test_timestamp_from_system_time() {
    let t = UNIX_EPOCH + Duration::from_secs(5);
    assert_eq!(Timestamp::from_system_time(t), 5);
    let before = UNIX_EPOCH - Duration::from_secs(5);
    assert_eq!(Timestamp::from_system_time(before), 0);
}
