use ffi_omnibus::zip_db::{
    zip_code_database_new, zip_code_database_populate, zip_code_database_population_of,
    zip_key, ZipCodeDatabase, ZIP_COUNT,
};

#[test]
fn fresh_table_yields_zero() {
    let db = ZipCodeDatabase::new();
    assert_eq!(db.population_of("00000"), 0);
    assert_eq!(db.population_of("12345"), 0);
    assert_eq!(db.population_of(""), 0);
    assert_eq!(db.population_of("anything"), 0);
}

#[test]
fn every_ordinal_under_its_padded_key() {
    let mut db = ZipCodeDatabase::new();
    db.populate();
    for i in 0..ZIP_COUNT {
        let key = format!("{:05}", i);
        assert_eq!(db.population_of(&key), i);
    }
}

#[test]
fn six_digit_key_yields_zero_after_populate() {
    let mut db = zip_code_database_new();
    zip_code_database_populate(&mut db);
    assert_eq!(db.population_of("999999"), 0);
    assert_eq!(db.population_of("9999"), 0);
    assert_eq!(db.population_of("99999"), 99999);
    assert_eq!(db.population_of("00042"), 42);
}

#[test]
fn populate_twice_changes_nothing() {
    let mut db = ZipCodeDatabase::new();
    db.populate();
    db.populate();
    assert_eq!(db.population_of("00000"), 0);
    assert_eq!(db.population_of("54321"), 54321);
}

#[test]
fn zip_key_pads_with_zeros() {
    assert_eq!(zip_key(0), "00000");
    assert_eq!(zip_key(7), "00007");
    assert_eq!(zip_key(4321), "04321");
    assert_eq!(zip_key(99999), "99999");
}

#[test]
fn lookup_from_bytes() {
    let mut db = zip_code_database_new();
    zip_code_database_populate(&mut db);
    assert_eq!(zip_code_database_population_of(&db, b"90210"), Some(90210));
    assert_eq!(zip_code_database_population_of(&db, b"999999"), Some(0));
    assert_eq!(zip_code_database_population_of(&db, &[0x39, 0xFF, 0x39]), None);
}
