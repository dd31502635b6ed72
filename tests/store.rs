use exdir::envelope::{InnerMetadata, Metadata, ObjectType};
use exdir::error::ExdirError;
use exdir::mode::{open_plan, store_state, ModeToken, OpenMode, OpenPlan, StoreLock, StoreState};
use exdir::naming::{case_collision, validate_name, NamingRule};
use exdir::node::{
    create_object_directory, inspect_store, is_nonraw_object_directory, store_directory, Dataset,
    File, Group, HasLeaves,
};
use exdir::object::Object;

fn names(v: &[&str]) -> Vec<String> {
    v.iter().map(|s| s.to_string()).collect()
}

fn open_rw_file() -> File {
    File::new("/tmp/test", Some("w"), None, StoreState::Absent).unwrap()
}

#[test]
fn yaml_example() {
    println!("{}", Metadata::new(ObjectType::Dataset).to_yaml().unwrap());
    println!("{}", Metadata::new(ObjectType::File).to_yaml().unwrap());
    println!("{}", Metadata::new(ObjectType::Group).to_yaml().unwrap());
}

#[test]
fn object_init() {
    let obj = Object::new("/tmp/exdir_dir", "", "test_object");
    assert_eq!(obj.root_directory, "/tmp/exdir_dir");
    assert_eq!(obj.object_name, "test_object");
    assert_eq!(obj.parent_path, "");
    assert_eq!(obj.relative_path, "test_object");
    assert_eq!(obj.name, "/test_object");
}

#[test]
fn resolve_root_from_dot() {
    let obj = Object::new("/tmp/root", ".", "");
    assert_eq!(obj.relative_name, "");
    assert_eq!(obj.relative_path, "");
    assert_eq!(obj.name, "/");
}

#[test]
fn resolve_nested() {
    let obj = Object::new("/tmp/root", "a/b", "c");
    assert_eq!(obj.relative_path, "a/b/c");
    assert_eq!(obj.name, "/a/b/c");
    assert_eq!(obj.parent_path, "a/b");
}

#[test]
fn envelope_text_is_nested_mapping() {
    let text = Metadata::new(ObjectType::File).to_yaml().unwrap();
    assert_eq!(text, "exdir:\n  type: file\n  version: 1\n");
    let text = Metadata::new(ObjectType::Group).to_yaml().unwrap();
    assert_eq!(text, "exdir:\n  type: group\n  version: 1\n");
}

#[test]
fn envelope_round_trip() {
    for t in [ObjectType::Dataset, ObjectType::Group, ObjectType::File] {
        let text = Metadata::new(t).to_yaml().unwrap();
        let back = Metadata::from_yaml(&text).unwrap();
        assert_eq!(back.exdir.objtype, t);
        assert_eq!(back.exdir.version, 1);
    }
}

#[test]
fn envelope_from_fields() {
    assert_eq!(
        Metadata::from_fields("group", 1),
        Some(Metadata { exdir: InnerMetadata { objtype: ObjectType::Group, version: 1 } })
    );
    assert_eq!(Metadata::from_fields("group", 2), None);
    assert_eq!(Metadata::from_fields("folder", 1), None);
    assert_eq!(Metadata::default(), Metadata::new(ObjectType::Dataset));
}

#[test]
fn envelope_rejects_bad_text() {
    assert_eq!(Metadata::from_yaml("exdir:\n  type: folder\n  version: 1\n"), None);
    assert_eq!(Metadata::from_yaml("exdir:\n  type: file\n  version: 7\n"), None);
    assert_eq!(Metadata::from_yaml("exdir:\n  type: file\n"), None);
    assert_eq!(Metadata::from_yaml("other: 1\n"), None);
    assert_eq!(Metadata::from_yaml(": : [\n"), None);
    assert_eq!(
        Metadata::from_yaml("exdir: {type: dataset, version: 1}"),
        Some(Metadata::new(ObjectType::Dataset))
    );
}

#[test]
fn raw_folder_is_not_an_object() {
    assert!(!is_nonraw_object_directory(None));
    assert!(!is_nonraw_object_directory(Some("data: [1, 2]\n")));
    assert!(is_nonraw_object_directory(Some("exdir:\n  type: group\n  version: 1\n")));
}

#[test]
fn store_state_from_disk() {
    assert_eq!(inspect_store(false, None), StoreState::Absent);
    assert_eq!(inspect_store(true, None), StoreState::Invalid);
    assert_eq!(inspect_store(true, Some("exdir:\n  type: group\n  version: 1\n")), StoreState::Invalid);
    assert_eq!(inspect_store(true, Some("exdir:\n  type: file\n  version: 1\n")), StoreState::Valid);
    assert_eq!(store_state(true, Some(ObjectType::File)), StoreState::Valid);
}

#[test]
fn mode_tokens() {
    assert_eq!(ModeToken::parse("r"), Some(ModeToken::Read));
    assert_eq!(ModeToken::parse("r+"), Some(ModeToken::ReadPlus));
    assert_eq!(ModeToken::parse("w"), Some(ModeToken::Write));
    assert_eq!(ModeToken::parse("w-"), Some(ModeToken::Exclusive));
    assert_eq!(ModeToken::parse("x"), Some(ModeToken::Exclusive));
    assert_eq!(ModeToken::parse("a"), Some(ModeToken::Append));
    assert_eq!(ModeToken::parse("rw"), None);
    assert_eq!(ModeToken::parse(""), None);
}

#[test]
fn unknown_mode_is_invalid_argument() {
    let r = File::new("/tmp/s", Some("q"), None, StoreState::Absent);
    assert_eq!(r.unwrap_err(), ExdirError::InvalidArgument);
}

#[test]
fn read_absent_then_exclusive_create_then_read() {
    let r = File::new("/tmp/s", Some("r"), None, StoreState::Absent);
    assert_eq!(r.unwrap_err(), ExdirError::NotFound);
    let f = File::new("/tmp/s", Some("w-"), None, StoreState::Absent).unwrap();
    assert_eq!(f.plan, OpenPlan { open_mode: OpenMode::ReadWrite, remove_existing: false, create: true });
    let f = File::new("/tmp/s", Some("r"), None, StoreState::Valid).unwrap();
    assert_eq!(f.mode, OpenMode::ReadOnly);
    assert!(!f.plan.create);
}

#[test]
fn write_without_confirmation_fails() {
    let r = File::new("/tmp/s", Some("w"), None, StoreState::Valid);
    assert_eq!(r.unwrap_err(), ExdirError::AlreadyExists);
    let r = File::new("/tmp/s", Some("w"), Some(false), StoreState::Valid);
    assert_eq!(r.unwrap_err(), ExdirError::AlreadyExists);
    let f = File::new("/tmp/s", Some("w"), Some(true), StoreState::Valid).unwrap();
    assert_eq!(f.plan, OpenPlan { open_mode: OpenMode::ReadWrite, remove_existing: true, create: true });
}

#[test]
fn open_plan_table() {
    assert_eq!(open_plan(ModeToken::ReadPlus, StoreState::Absent, false), Err(ExdirError::NotFound));
    assert_eq!(open_plan(ModeToken::ReadPlus, StoreState::Valid, false).unwrap().open_mode, OpenMode::ReadWrite);
    assert_eq!(open_plan(ModeToken::Exclusive, StoreState::Valid, true), Err(ExdirError::AlreadyExists));
    assert_eq!(
        open_plan(ModeToken::Write, StoreState::Absent, false),
        Ok(OpenPlan { open_mode: OpenMode::ReadWrite, remove_existing: false, create: true })
    );
    assert_eq!(
        open_plan(ModeToken::Append, StoreState::Valid, false),
        Ok(OpenPlan { open_mode: OpenMode::ReadWrite, remove_existing: false, create: false })
    );
    assert_eq!(
        open_plan(ModeToken::Append, StoreState::Absent, false),
        Ok(OpenPlan { open_mode: OpenMode::ReadWrite, remove_existing: false, create: true })
    );
    for t in [ModeToken::Read, ModeToken::Write, ModeToken::Append] {
        assert_eq!(open_plan(t, StoreState::Invalid, true), Err(ExdirError::InvalidFormat));
    }
}

#[test]
fn file_default_appends() {
    let f = File::default("/tmp/data", StoreState::Absent);
    assert_eq!(f.object.root_directory, "/tmp/data.exdir");
    assert_eq!(f.object.name, "/");
    assert!(f.plan.create);
    let f = File::default("/tmp/data.exdir", StoreState::Valid);
    assert_eq!(f.object.root_directory, "/tmp/data.exdir");
    assert!(!f.plan.create);
}

#[test]
fn file_close() {
    let mut f = open_rw_file();
    f.close();
    assert_eq!(f.mode, OpenMode::FileClosed);
}

#[test]
fn store_directory_extension() {
    assert_eq!(store_directory("data"), "data.exdir");
    assert_eq!(store_directory("data.exdir"), "data.exdir");
    assert_eq!(store_directory(""), ".exdir");
    assert_eq!(store_directory("x.txt"), "x.txt.exdir");
}

#[test]
fn create_group_and_nested_group() {
    let f = open_rw_file();
    let grp: Group = f.create_group("test", &vec![]).unwrap();
    assert_eq!(grp.object.name, "/test");
    let grp2 = grp.create_group("test2", &vec![]).unwrap();
    assert_eq!(grp2.object.relative_path, "test/test2");
    assert_eq!(grp2.object.name, "/test/test2");
    assert_eq!(grp2.object.root_directory, "/tmp/test.exdir");
}

#[test]
fn second_creation_of_a_name_fails() {
    let f = open_rw_file();
    let mut siblings = vec![];
    f.create_group("data", &siblings).unwrap();
    siblings.push("data".to_string());
    assert_eq!(f.create_group("data", &siblings).unwrap_err(), ExdirError::AlreadyExists);
    assert_eq!(f.create_dataset("data", &siblings).unwrap_err(), ExdirError::AlreadyExists);
    let d: Dataset = f.create_dataset("values", &siblings).unwrap();
    assert_eq!(d.object.name, "/values");
    let grp = f.create_group("g", &vec![]).unwrap();
    assert_eq!(grp.create_dataset("raw", &names(&["raw"])).unwrap_err(), ExdirError::AlreadyExists);
    assert_eq!(d.create_group("x", &names(&["x"])).unwrap_err(), ExdirError::AlreadyExists);
}

#[test]
fn child_name_rejected_by_policy() {
    let f = open_rw_file();
    assert_eq!(f.create_group("a/b", &vec![]).unwrap_err(), ExdirError::InvalidArgument);
    assert_eq!(f.create_group("__raw__", &vec![]).unwrap_err(), ExdirError::InvalidArgument);
    assert_eq!(f.create_group("Data", &names(&["data"])).unwrap_err(), ExdirError::InvalidArgument);
}

#[test]
fn naming_rules() {
    let none: Vec<String> = vec![];
    assert_eq!(validate_name(NamingRule::Simple, "ok_Name1", &none), Ok(()));
    assert_eq!(validate_name(NamingRule::Simple, "", &none), Err(ExdirError::InvalidArgument));
    assert_eq!(validate_name(NamingRule::Simple, "a-b", &none), Err(ExdirError::InvalidArgument));
    assert_eq!(validate_name(NamingRule::Simple, "__raw__", &none), Err(ExdirError::InvalidArgument));
    assert_eq!(validate_name(NamingRule::Simple, "Abc", &names(&["abc"])), Ok(()));
    assert_eq!(validate_name(NamingRule::Strict, "Abc", &names(&["abc"])), Err(ExdirError::InvalidArgument));
    assert_eq!(validate_name(NamingRule::Strict, "abc", &names(&["abc"])), Ok(()));
    let long = "a".repeat(256);
    assert_eq!(validate_name(NamingRule::Strict, &long, &none), Ok(()));
    assert_eq!(validate_name(NamingRule::Thorough, &long, &none), Err(ExdirError::InvalidArgument));
    assert_eq!(validate_name(NamingRule::Thorough, &"a".repeat(255), &none), Ok(()));
    assert_eq!(validate_name(NamingRule::Unchecked, "a/b:c", &none), Ok(()));
}

#[test]
fn case_collisions() {
    assert!(case_collision("Data", "data"));
    assert!(case_collision("a_B1", "A_b1"));
    assert!(!case_collision("data", "data"));
    assert!(!case_collision("data", "date"));
    assert!(!case_collision("data", "datas"));
}

#[test]
fn object_directory_envelope() {
    assert_eq!(create_object_directory(true, ObjectType::Group), Err(ExdirError::AlreadyExists));
    let text = create_object_directory(false, ObjectType::Dataset).unwrap();
    assert_eq!(Metadata::from_yaml(&text), Some(Metadata::new(ObjectType::Dataset)));
}

#[test]
fn read_only_handles_share_write_handles_exclude() {
    let mut lock = StoreLock::new();
    assert_eq!(lock.acquire(OpenMode::ReadOnly), Ok(()));
    assert_eq!(lock.acquire(OpenMode::ReadOnly), Ok(()));
    assert_eq!(lock.acquire(OpenMode::ReadWrite), Ok(()));
    assert_eq!(lock.acquire(OpenMode::ReadWrite), Err(ExdirError::LockContention));
    assert_eq!(lock.acquire(OpenMode::ReadOnly), Ok(()));
    lock.release(OpenMode::ReadWrite);
    assert_eq!(lock.acquire(OpenMode::ReadWrite), Ok(()));
}

#[test]
fn identity_consistency_check() {
    let f = open_rw_file();
    assert!(f.node().is_well_formed());
    let mut obj = Object::new("/tmp/root", "a", "b");
    assert!(obj.is_well_formed());
    obj.name = "/a/c".to_string();
    assert!(!obj.is_well_formed());
}

#[test]
fn new_object_directory_text() {
    assert_eq!(
        create_object_directory(false, ObjectType::Group).unwrap(),
        "exdir:\n  type: group\n  version: 1\n"
    );
}

#[test]
fn close_keeps_identity() {
    let mut f = open_rw_file();
    f.close();
    assert_eq!(f.object.name, "/");
    assert_eq!(f.object.root_directory, "/tmp/test.exdir");
}
